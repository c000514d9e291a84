//! The failures that the host is told about, by the operation that meets them.

use vstd::prelude::*;
use softbuffer::SoftBufferError;

verus! {

/// `softbuffer::SoftBufferError`, the error that the framebuffer's own
/// operations fail with. Nothing is claimed of what one holds: it is carried
/// to the caller as it came.
#[verifier::external_type_specification]
#[verifier::external_body]
pub struct ExSoftBufferError(SoftBufferError);

/// A resize failure: why a resize was refused. It can be recovered from, and
/// the wrapper is left as it was in every case.
#[derive(Debug)]
pub enum ResizeError {
    /// The width or the height asked for is zero.
    ZeroDimension,
    /// A dimension does not fit the drawing surface's signed 32-bit extent,
    /// or the pixel buffer's byte length does not fit the address space.
    TooLarge,
    /// The shared framebuffer could not be resized to the size asked for,
    /// for the reason held.
    Framebuffer(SoftBufferError),
}

/// A precondition violation: the drawing surface was asked for before any
/// resize had succeeded.
#[derive(Clone, Copy, Debug, PartialEq, Eq, Structural)]
pub enum SurfaceError {
    /// No surface exists yet: resize first.
    NotReady,
}

/// A present failure: why a frame did not reach the screen. The caller may
/// skip the frame, try again or shut down.
#[derive(Debug)]
pub enum PresentError {
    /// The framebuffer could not be mapped for writing, for the reason held.
    Buffer(SoftBufferError),
    /// The mapped framebuffer does not hold one pixel per surface pixel.
    SizeMismatch,
    /// The drawing surface's pixels could not be read back.
    ReadBack,
    /// The framebuffer could not be submitted for display, for the reason
    /// held.
    Submit(SoftBufferError),
}

/// The bootstrap step that a GPU context failed at.
#[derive(Clone, Copy, Debug, PartialEq, Eq, Structural)]
pub enum BootstrapStep {
    /// Loading the platform's entry point.
    Entry,
    /// Creating the API instance.
    Instance,
    /// Finding or creating a device.
    Device,
    /// Finding a queue family that can draw.
    Queue,
    /// Finding a framebuffer configuration.
    Config,
    /// Creating a rendering context or making it current.
    Context,
}

/// A context bootstrap failure: why a GPU context could not be brought up.
/// None of these can be retried: the backend cannot operate at all.
#[derive(Clone, Copy, Debug, PartialEq, Eq, Structural)]
pub enum BootstrapError {
    /// The application name holds a NUL byte and cannot be handed to the
    /// instance.
    ApplicationName,
    /// The platform exposes no device at all.
    NoDevice,
    /// Devices exist, but none has a queue family that supports graphics.
    NoGraphicsQueue,
    /// No framebuffer configuration matches the template.
    NoConfig,
    /// Neither the core nor the compatibility context could be created.
    NoContext,
    /// A call into the platform failed at the step named.
    Failed(BootstrapStep),
}

impl BootstrapError {
    /// The step that each failure belongs to.
    pub open spec fn spec_step(self) -> BootstrapStep {
        match self {
            BootstrapError::ApplicationName => BootstrapStep::Instance,
            BootstrapError::NoDevice => BootstrapStep::Device,
            BootstrapError::NoGraphicsQueue => BootstrapStep::Queue,
            BootstrapError::NoConfig => BootstrapStep::Config,
            BootstrapError::NoContext => BootstrapStep::Context,
            BootstrapError::Failed(step) => step,
        }
    }

    /// The step at which the bootstrap stopped.
    #[verifier::when_used_as_spec(spec_step)]
    pub fn step(self) -> (step: BootstrapStep)
        ensures
            step == self.spec_step(),
    {
        match self {
            BootstrapError::ApplicationName => BootstrapStep::Instance,
            BootstrapError::NoDevice => BootstrapStep::Device,
            BootstrapError::NoGraphicsQueue => BootstrapStep::Queue,
            BootstrapError::NoConfig => BootstrapStep::Config,
            BootstrapError::NoContext => BootstrapStep::Context,
            BootstrapError::Failed(step) => step,
        }
    }
}

} // verus!
