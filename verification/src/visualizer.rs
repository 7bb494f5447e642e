//! The protocol between the visualizer and the driver that owns the window
//! and the graphics device.
//!
//! The visualizer decides; the driver acts. The driver opens the window,
//! then asks the visualizer for its stage, performs the step that the stage
//! names, and reports how the step ended. Nothing here touches a file, a
//! window or a device.

use vstd::prelude::*;
use crate::error::VisualizerError;
use crate::field::Matrix;
use crate::texture::{fits_a_texture, image_bytes, image_size, is_image_of, make_texture_image};

verus! {

/// The width of the window when it opens, in logical pixels.
pub const WINDOW_WIDTH: u32 = 600;

/// The height of the window when it opens, in logical pixels.
pub const WINDOW_HEIGHT: u32 = 600;

/// A step of construction, in the order in which the steps are taken.
#[derive(Clone, Copy, Debug, PartialEq, Eq, Structural)]
pub enum SetupStep {
    /// Read the source of the vertex shader.
    ReadVertexShader,
    /// Read the source of the fragment shader.
    ReadFragmentShader,
    /// Compile and link the two shaders.
    CompileProgram,
    /// Store the vertices of the quad on the device.
    AllocateVertexBuffer,
}

/// A step of a frame that can fail, in the order in which the steps are taken.
#[derive(Clone, Copy, Debug, PartialEq, Eq, Structural)]
pub enum FrameStep {
    /// Upload the image as a texture.
    UploadTexture,
    /// Draw the quad with the texture.
    Draw,
    /// Present the frame.
    Finish,
}

/// Where a visualizer stands.
#[derive(Clone, Copy, Debug, PartialEq, Eq, Structural)]
pub enum Stage {
    /// Under construction: the step is the next to take.
    Setup(SetupStep),
    /// Constructed, and drawing frame after frame.
    Running,
    /// The window was closed: the session has ended well.
    Closed,
    /// A step failed: the session has ended with this error.
    Failed(VisualizerError),
}

/// What the window reported while the driver polled it.
#[derive(Clone, Copy, Debug, PartialEq, Eq, Structural)]
pub enum WindowEvent {
    /// The user asked for the window to be closed.
    CloseRequested,
    /// Anything else.
    Other,
}

/// A color, each channel at nothing (0) or in full (1).
#[derive(Clone, Copy, Debug, PartialEq, Eq, Structural)]
pub struct Rgba {
    pub red: u8,
    pub green: u8,
    pub blue: u8,
    pub alpha: u8,
}

/// What the driver draws in one turn of the loop.
pub struct Frame {
    /// The color to clear the frame with, before the quad is drawn.
    pub background: Rgba,
    /// The image to upload and to draw the quad with.
    pub image: glium::texture::RawImage2d<'static, u8>,
    /// The name of the one uniform of the shaders: the sampler that the
    /// texture is bound to.
    pub sampler: &'static str,
}

/// The error that ends construction when `step` fails.
pub open spec fn setup_error(step: SetupStep) -> VisualizerError {
    match step {
        SetupStep::ReadVertexShader => VisualizerError::ResourceRead,
        SetupStep::ReadFragmentShader => VisualizerError::ResourceRead,
        SetupStep::CompileProgram => VisualizerError::ShaderCompile,
        SetupStep::AllocateVertexBuffer => VisualizerError::BufferAllocation,
    }
}

/// The error that ends the loop when `step` fails.
pub open spec fn frame_error(step: FrameStep) -> VisualizerError {
    match step {
        FrameStep::UploadTexture => VisualizerError::BufferAllocation,
        FrameStep::Draw => VisualizerError::Render,
        FrameStep::Finish => VisualizerError::Render,
    }
}

/// The stage after a step of construction has ended. A step that succeeds
/// leads to the next one, the last to the loop; a step that fails ends the
/// session. Outside construction nothing changes.
pub open spec fn after_setup_step(stage: Stage, succeeded: bool) -> Stage {
    match stage {
        Stage::Setup(step) => if !succeeded {
            Stage::Failed(setup_error(step))
        } else {
            match step {
                SetupStep::ReadVertexShader => Stage::Setup(SetupStep::ReadFragmentShader),
                SetupStep::ReadFragmentShader => Stage::Setup(SetupStep::CompileProgram),
                SetupStep::CompileProgram => Stage::Setup(SetupStep::AllocateVertexBuffer),
                SetupStep::AllocateVertexBuffer => Stage::Running,
            }
        },
        _ => stage,
    }
}

/// The stage after a step of a frame has failed: the loop ends at once.
/// Outside the loop nothing changes.
pub open spec fn after_failed_frame(stage: Stage, step: FrameStep) -> Stage {
    match stage {
        Stage::Running => Stage::Failed(frame_error(step)),
        _ => stage,
    }
}

/// Whether one of the events asks for the window to be closed.
pub open spec fn close_requested(events: Seq<WindowEvent>) -> bool {
    events.contains(WindowEvent::CloseRequested)
}

/// The stage after a frame was presented and the window polled: the loop ends
/// if the window is to be closed, and goes on if not. Outside the loop
/// nothing changes.
pub open spec fn after_presented_frame(stage: Stage, events: Seq<WindowEvent>) -> Stage {
    match stage {
        Stage::Running => if close_requested(events) {
            Stage::Closed
        } else {
            Stage::Running
        },
        _ => stage,
    }
}

/// The background of every frame: red, and opaque.
pub open spec fn background() -> Rgba {
    Rgba { red: 1, green: 0, blue: 0, alpha: 1 }
}

/// The name of the sampler in every frame.
pub open spec fn sampler() -> Seq<char> {
    "u_texture"@
}

/// Whether `events` hold a request to close the window.
pub fn has_close_request(events: &Vec<WindowEvent>) -> (closed: bool)
    ensures
        closed == close_requested(events@),
{
    let mut closed = false;
    for i in 0..events.len()
        invariant
            closed == exists|k: int| 0 <= k < i && events@[k] == WindowEvent::CloseRequested,
    {
        if events[i] == WindowEvent::CloseRequested {
            closed = true
        }
    }
    closed
}

/// What a visualizer is made with.
pub struct Settings {
    /// The title of the window.
    pub title: String,
    /// Where the source of the vertex shader is read from.
    pub vertex_glsl_path: String,
    /// Where the source of the fragment shader is read from.
    pub fragment_glsl_path: String,
}

/// The decisions of a visualizer, from the first step of its construction to
/// the end of its loop.
pub struct MatrixVisualizer {
    settings: Settings,
    stage: Stage,
}

impl MatrixVisualizer {
    /// What the visualizer was made with, as a specification.
    pub closed spec fn spec_settings(&self) -> &Settings {
        &self.settings
    }

    /// Where the visualizer stands, as a specification.
    pub closed spec fn spec_stage(&self) -> Stage {
        self.stage
    }

    /// A visualizer for a window with the title `title`, which has just been
    /// opened, and for the shaders at the two paths. The first step of
    /// construction is due.
    pub fn new(title: &str, vertex_glsl_path: &str, fragment_glsl_path: &str) -> (visualizer:
        MatrixVisualizer)
        ensures
            visualizer.settings().title@ == title@,
            visualizer.settings().vertex_glsl_path@ == vertex_glsl_path@,
            visualizer.settings().fragment_glsl_path@ == fragment_glsl_path@,
            visualizer.stage() == Stage::Setup(SetupStep::ReadVertexShader),
    {
        MatrixVisualizer {
            settings: Settings {
                title: title.to_owned(),
                vertex_glsl_path: vertex_glsl_path.to_owned(),
                fragment_glsl_path: fragment_glsl_path.to_owned(),
            },
            stage: Stage::Setup(SetupStep::ReadVertexShader),
        }
    }

    /// What the visualizer was made with.
    #[verifier::when_used_as_spec(spec_settings)]
    pub fn settings(&self) -> (settings: &Settings)
        ensures
            *settings == self.spec_settings(),
    {
        &self.settings
    }

    /// Where the visualizer stands.
    #[verifier::when_used_as_spec(spec_stage)]
    pub fn stage(&self) -> (stage: Stage)
        ensures
            stage == self.spec_stage(),
    {
        self.stage
    }

    /// The path of the source to read, while reading one is the step that is
    /// due.
    pub fn shader_path(&self) -> (path: Option<&str>)
        ensures
            match self.stage() {
                Stage::Setup(SetupStep::ReadVertexShader) => path matches Some(p) && p@
                    == self.settings().vertex_glsl_path@,
                Stage::Setup(SetupStep::ReadFragmentShader) => path matches Some(p) && p@
                    == self.settings().fragment_glsl_path@,
                _ => path.is_none(),
            },
    {
        match self.stage {
            Stage::Setup(SetupStep::ReadVertexShader) => Some(
                self.settings.vertex_glsl_path.as_str(),
            ),
            Stage::Setup(SetupStep::ReadFragmentShader) => Some(
                self.settings.fragment_glsl_path.as_str(),
            ),
            _ => None,
        }
    }

    /// How the session ended: well once the window was closed, with an error
    /// once a step failed. Nothing as long as the session goes on.
    pub fn result(&self) -> (ended: Option<Result<(), VisualizerError>>)
        ensures
            ended == match self.stage() {
                Stage::Closed => Some(Ok::<(), VisualizerError>(())),
                Stage::Failed(e) => Some(Err::<(), VisualizerError>(e)),
                _ => None,
            },
    {
        match self.stage {
            Stage::Closed => Some(Ok(())),
            Stage::Failed(e) => Some(Err(e)),
            _ => None,
        }
    }

    /// Takes note of how the step of construction that was due has ended.
    pub fn step_finished(&mut self, succeeded: bool)
        ensures
            final(self).stage() == after_setup_step(old(self).stage(), succeeded),
            final(self).settings() == old(self).settings(),
    {
        self.stage = match self.stage {
            Stage::Setup(step) => if !succeeded {
                Stage::Failed(
                    match step {
                        SetupStep::ReadVertexShader => VisualizerError::ResourceRead,
                        SetupStep::ReadFragmentShader => VisualizerError::ResourceRead,
                        SetupStep::CompileProgram => VisualizerError::ShaderCompile,
                        SetupStep::AllocateVertexBuffer => VisualizerError::BufferAllocation,
                    },
                )
            } else {
                match step {
                    SetupStep::ReadVertexShader => Stage::Setup(SetupStep::ReadFragmentShader),
                    SetupStep::ReadFragmentShader => Stage::Setup(SetupStep::CompileProgram),
                    SetupStep::CompileProgram => Stage::Setup(SetupStep::AllocateVertexBuffer),
                    SetupStep::AllocateVertexBuffer => Stage::Running,
                }
            },
            stage => stage,
        };
    }

    /// One turn of the loop: what to draw for the field `u`. While the
    /// visualizer is running, that is a red background and the image of the
    /// field, as wide as the field has columns and as high as it has rows. A
    /// field that cannot be a texture ends the session. Outside the loop
    /// there is nothing to draw, and nothing changes.
    pub fn draw(&mut self, u: &Matrix) -> (frame: Option<Frame>)
        ensures
            frame.is_some() <==> old(self).stage() == Stage::Running && fits_a_texture(*u),
            frame matches Some(f) ==> f.background == background() && f.sampler@ == sampler()
                && is_image_of(
                image_bytes(f.image),
                u@,
                u.spec_ncols(),
            ) && image_size(f.image) == (u.spec_ncols(), u.spec_nrows()),
            final(self).stage() == if old(self).stage() == Stage::Running && !fits_a_texture(*u) {
                Stage::Failed(VisualizerError::BufferAllocation)
            } else {
                old(self).stage()
            },
            final(self).settings() == old(self).settings(),
    {
        match self.stage {
            Stage::Running => match make_texture_image(u) {
                Ok(image) => Some(
                    Frame {
                        background: Rgba { red: 1, green: 0, blue: 0, alpha: 1 },
                        image,
                        sampler: "u_texture",
                    },
                ),
                Err(e) => {
                    self.stage = Stage::Failed(e);
                    None
                },
            },
            _ => None,
        }
    }

    /// Takes note that a step of the frame has failed.
    pub fn frame_failed(&mut self, step: FrameStep)
        ensures
            final(self).stage() == after_failed_frame(old(self).stage(), step),
            final(self).settings() == old(self).settings(),
    {
        if let Stage::Running = self.stage {
            self.stage = Stage::Failed(
                match step {
                    FrameStep::UploadTexture => VisualizerError::BufferAllocation,
                    FrameStep::Draw => VisualizerError::Render,
                    FrameStep::Finish => VisualizerError::Render,
                },
            );
        }
    }

    /// Takes note that the frame was presented, and of the events that the
    /// window then reported.
    pub fn frame_presented(&mut self, events: &Vec<WindowEvent>)
        ensures
            final(self).stage() == after_presented_frame(old(self).stage(), events@),
            final(self).settings() == old(self).settings(),
    {
        if let Stage::Running = self.stage {
            if has_close_request(events) {
                self.stage = Stage::Closed;
            }
        }
    }
}

/// Whether a session has ended, well or not.
pub open spec fn has_ended(stage: Stage) -> bool {
    stage is Closed || stage is Failed
}

/// A session that has ended stays as it ended, whatever is reported to it.
pub proof fn lemma_an_ended_session_stays_ended(
    stage: Stage,
    succeeded: bool,
    step: FrameStep,
    events: Seq<WindowEvent>,
)
    requires
        has_ended(stage),
    ensures
        after_setup_step(stage, succeeded) == stage,
        after_failed_frame(stage, step) == stage,
        after_presented_frame(stage, events) == stage,
{
}

/// Construction takes its steps in order, and reaches the loop only when each
/// of the four has succeeded: a first failure ends the session with the error
/// of the step that failed, and no later step is taken.
pub proof fn lemma_construction_is_in_order(outcomes: Seq<bool>)
    requires
        outcomes.len() == 4,
    ensures
        ({
            let first = after_setup_step(Stage::Setup(SetupStep::ReadVertexShader), outcomes[0]);
            let second = after_setup_step(first, outcomes[1]);
            let third = after_setup_step(second, outcomes[2]);
            let last = after_setup_step(third, outcomes[3]);
            &&& first == if outcomes[0] {
                Stage::Setup(SetupStep::ReadFragmentShader)
            } else {
                Stage::Failed(VisualizerError::ResourceRead)
            }
            &&& !outcomes[0] ==> last == first
            &&& outcomes[0] && !outcomes[1] ==> last == Stage::Failed(VisualizerError::ResourceRead)
            &&& outcomes[0] && outcomes[1] && !outcomes[2] ==> last == Stage::Failed(
                VisualizerError::ShaderCompile,
            )
            &&& outcomes[0] && outcomes[1] && outcomes[2] && !outcomes[3] ==> last == Stage::Failed(
                VisualizerError::BufferAllocation,
            )
            &&& last == Stage::Running <==> outcomes[0] && outcomes[1] && outcomes[2] && outcomes[3]
        }),
{
}

} // verus!
