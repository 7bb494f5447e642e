//! The verified core of a grayscale viewer for two-dimensional scalar fields.
//!
//! A driver owns the window and the graphics device. This library holds what
//! the driver must get right: how a field of samples becomes an image
//! ([`sample`], [`field`], [`texture`]), which quad carries the image
//! ([`quad`]), and in which order the steps of construction and of the render
//! loop are taken, and how each of them can end ([`visualizer`], [`error`]).

pub mod error;
pub mod field;
pub mod quad;
pub mod sample;
pub mod texture;
pub mod visualizer;
