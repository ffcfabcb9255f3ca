//! The two families of fatal errors: those that abort start-up and those
//! that end the frame loop. Nothing here is retried by the library.

use vstd::prelude::*;

verus! {

/// A failure while the renderer is being set up.
#[derive(Clone, Copy, Debug, PartialEq, Eq)]
pub enum StartupError {
    /// No physical device has a queue family for both drawing and presenting.
    NoSuitableDevice,
    /// The chosen device has no queue family for both drawing and presenting.
    NoSuitableQueueFamily,
    /// Asking whether a queue family can present failed with this result code.
    SurfaceSupportQuery { code: i32 },
    /// The surface reported no format at all.
    NoSurfaceFormat,
    /// Shader bytecode whose length is not a whole number of 32-bit words.
    ShaderLoad,
    /// No memory type is both allowed for the buffer and has the wanted properties.
    NoSuitableMemoryType,
}

/// The step of a frame that failed; the frame loop ends on any of them.
#[derive(Clone, Copy, Debug, PartialEq, Eq)]
pub enum FrameError {
    GateWait,
    GateReset,
    Acquire,
    UniformWrite,
    Submit,
    Present,
    /// The acquire yielded an index that names no image of the swap chain.
    UnknownImage,
    /// An event arrived that does not answer the outstanding action.
    Protocol,
}

impl StartupError {
    /// The text shown to the user for this error.
    pub open spec fn message_text(self) -> Seq<char> {
        match self {
            StartupError::NoSuitableDevice => "Failed to find a suitable GPU!"@,
            StartupError::NoSuitableQueueFamily => "Failed to find a suitable queue family."@,
            StartupError::SurfaceSupportQuery { .. } => "Failed to get device surface support"@,
            StartupError::NoSurfaceFormat => "Surface reports no formats."@,
            StartupError::ShaderLoad => "Shader bytecode is not properly aligned."@,
            StartupError::NoSuitableMemoryType => "Failed to find suitable memory type."@,
        }
    }

    pub fn message(&self) -> (text: String)
        ensures
            text@ == self.message_text(),
    {
        match self {
            StartupError::NoSuitableDevice => "Failed to find a suitable GPU!".to_owned(),
            StartupError::NoSuitableQueueFamily => "Failed to find a suitable queue family.".to_owned(),
            StartupError::SurfaceSupportQuery { .. } => "Failed to get device surface support".to_owned(),
            StartupError::NoSurfaceFormat => "Surface reports no formats.".to_owned(),
            StartupError::ShaderLoad => "Shader bytecode is not properly aligned.".to_owned(),
            StartupError::NoSuitableMemoryType => "Failed to find suitable memory type.".to_owned(),
        }
    }
}

impl FrameError {
    /// The text shown to the user for this error.
    pub open spec fn message_text(self) -> Seq<char> {
        match self {
            FrameError::GateWait => "Failed to wait for fence"@,
            FrameError::GateReset => "Failed to reset fence"@,
            FrameError::Acquire => "Failed to acquire next image"@,
            FrameError::UniformWrite => "Failed to map uniform buffer memory"@,
            FrameError::Submit => "Failed to submit queue"@,
            FrameError::Present => "Failed to present queue"@,
            FrameError::UnknownImage => "Acquired image index is out of range"@,
            FrameError::Protocol => "Frame step answered out of turn"@,
        }
    }

    pub fn message(&self) -> (text: String)
        ensures
            text@ == self.message_text(),
    {
        match self {
            FrameError::GateWait => "Failed to wait for fence".to_owned(),
            FrameError::GateReset => "Failed to reset fence".to_owned(),
            FrameError::Acquire => "Failed to acquire next image".to_owned(),
            FrameError::UniformWrite => "Failed to map uniform buffer memory".to_owned(),
            FrameError::Submit => "Failed to submit queue".to_owned(),
            FrameError::Present => "Failed to present queue".to_owned(),
            FrameError::UnknownImage => "Acquired image index is out of range".to_owned(),
            FrameError::Protocol => "Frame step answered out of turn".to_owned(),
        }
    }
}

} // verus!
