//! The ways in which building or driving the visualizer can fail.

use vstd::prelude::*;

verus! {

/// Why construction or a frame was abandoned.
#[derive(Clone, Copy, Debug, PartialEq, Eq, Structural)]
pub enum VisualizerError {
    /// A shader source could not be read.
    ResourceRead,
    /// The shader pair did not compile or link.
    ShaderCompile,
    /// A vertex or texture buffer could not be created.
    BufferAllocation,
    /// Drawing or presenting a frame failed.
    Render,
}

} // verus!
