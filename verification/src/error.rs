//! What can go wrong, and how badly.

use vstd::prelude::*;

verus! {

/// How a failure is to be treated.
#[derive(Clone, Copy, Debug, PartialEq, Eq, Structural)]
pub enum ErrorKind {
    /// The device or the surface cannot do what the renderer needs, or the
    /// driver has failed: the program gives up, and nothing is retried.
    Fatal,
    /// Something happened that a correct caller and a correct driver never
    /// let happen.
    InvariantViolation,
}

/// Every failure that the library reports.
#[derive(Clone, Copy, Debug, PartialEq, Eq, Structural)]
pub enum RenderError {
    /// The surface offers no pixel format.
    NoSurfaceFormat,
    /// The surface offers no present mode.
    NoPresentMode,
    /// The surface's limits contradict each other.
    UnsupportedSurface,
    /// No queue family can draw, or none can present.
    MissingQueueFamily,
    /// Validation is wanted, but the validation layer is not on offer.
    MissingValidationLayer,
    /// No physical device meets the renderer's needs.
    NoSuitableDevice,
    /// None of the candidate formats can be used in the way asked for.
    NoSupportedFormat,
    /// The texture format cannot be filtered linearly, so no mip chain can be
    /// made by blitting.
    NoLinearBlit,
    /// No memory type has the properties asked for.
    NoMemoryType,
    /// Shader code is empty or not a whole number of 32-bit words.
    MisalignedShaderCode,
    /// A texture has no pixels, or too many for its size to be counted.
    BadTextureSize,
    /// A model has a vertex without texture coordinates, or more indices
    /// than a draw can count.
    BadModel,
    /// A layout transition that the renderer has no barrier for.
    UnsupportedLayoutTransition,
    /// The driver failed to hand out the next image.
    AcquireFailed,
    /// The driver failed to queue an image for presentation.
    PresentFailed,
    /// An acquired image index lies outside the swapchain's images.
    ImageIndexOutOfRange,
    /// The driver handed back a different number of objects than were asked
    /// for.
    ResourceCountMismatch,
    /// A completion was reported that the renderer was not waiting for.
    UnexpectedEvent,
}

impl RenderError {
    /// The class that each failure belongs to.
    pub open spec fn spec_kind(self) -> ErrorKind {
        match self {
            RenderError::ImageIndexOutOfRange
            | RenderError::ResourceCountMismatch
            | RenderError::UnexpectedEvent => ErrorKind::InvariantViolation,
            _ => ErrorKind::Fatal,
        }
    }

    /// The class that this failure belongs to.
    pub fn kind(self) -> (kind: ErrorKind)
        ensures
            kind == self.spec_kind(),
    {
        match self {
            RenderError::ImageIndexOutOfRange
            | RenderError::ResourceCountMismatch
            | RenderError::UnexpectedEvent => ErrorKind::InvariantViolation,
            _ => ErrorKind::Fatal,
        }
    }
}

} // verus!
