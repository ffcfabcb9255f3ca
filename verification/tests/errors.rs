use radial_overlay::error::{FrameError, StartupError};

#[test]
fn startup_error_messages() {
    assert_eq!(StartupError::NoSuitableDevice.message(), "Failed to find a suitable GPU!");
    assert_eq!(
        StartupError::NoSuitableQueueFamily.message(),
        "Failed to find a suitable queue family."
    );
    assert_eq!(
        StartupError::SurfaceSupportQuery { code: -4 }.message(),
        "Failed to get device surface support"
    );
    assert_eq!(StartupError::NoSurfaceFormat.message(), "Surface reports no formats.");
    assert_eq!(
        StartupError::ShaderLoad.message(),
        "Shader bytecode is not properly aligned."
    );
    assert_eq!(
        StartupError::NoSuitableMemoryType.message(),
        "Failed to find suitable memory type."
    );
}

#[test]
fn frame_error_messages() {
    assert_eq!(FrameError::GateWait.message(), "Failed to wait for fence");
    assert_eq!(FrameError::GateReset.message(), "Failed to reset fence");
    assert_eq!(FrameError::Acquire.message(), "Failed to acquire next image");
    assert_eq!(FrameError::UniformWrite.message(), "Failed to map uniform buffer memory");
    assert_eq!(FrameError::Submit.message(), "Failed to submit queue");
    assert_eq!(FrameError::Present.message(), "Failed to present queue");
    assert_eq!(FrameError::UnknownImage.message(), "Acquired image index is out of range");
    assert_eq!(FrameError::Protocol.message(), "Frame step answered out of turn");
}
