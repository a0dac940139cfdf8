//! Error taxonomy of the renderer core, one kind per component boundary.

use vstd::prelude::*;

verus! {

/// A single graphics-API call was rejected by the device.
#[derive(Clone, Copy, PartialEq, Eq, Structural, Debug)]
pub enum DeviceError {
    /// The render-target description named a format pair the device cannot
    /// use: the color slot needs a color format and the depth slot a depth
    /// format.
    UnsupportedFormatPair,
}

/// Object creation failed while the renderer was being constructed.
/// Nothing partially usable is returned after such an error.
#[derive(Clone, Copy, PartialEq, Eq, Structural, Debug)]
pub enum InitError {
    /// The swapchain offered no images, so no frame target can exist.
    NoSwapchainImages,
    /// The surface extent is zero in at least one dimension.
    ZeroExtent,
    /// The render-target layout description was rejected.
    LayoutRejected(DeviceError),
    /// A geometry source could not be turned into an uploadable mesh.
    BadGeometry(AllocatorError),
}

/// A begin/end/reset operation on the command buffer was called out of the
/// order the recording protocol demands.
#[derive(Clone, Copy, PartialEq, Eq, Structural, Debug)]
pub enum RecorderError {
    /// Recording was closed or submitted while the buffer was not open.
    NotRecording,
}

/// An upload-time allocation cannot be made.
#[derive(Clone, Copy, PartialEq, Eq, Structural, Debug)]
pub enum AllocatorError {
    /// The vertex data is empty; a zero-sized buffer cannot be allocated.
    ZeroSizeAllocation,
    /// The byte length of the vertex data is not a whole number of vertices.
    MisalignedVertexData,
    /// The vertex count does not fit the 32-bit count a draw call takes.
    TooManyVertices,
}

/// A frame cycle did not complete. Each variant is distinguishable so the
/// caller can decide between rebuilding the surface-bound objects and
/// treating the device as lost.
#[derive(Clone, Copy, PartialEq, Eq, Structural, Debug)]
pub enum RenderError {
    /// The bounded wait on the frame fence ran out; the device is lost or
    /// deadlocked, and the cycle must not proceed.
    FenceTimeout,
    /// The surface reported it is out of date; the caller must rebuild the
    /// swapchain-bound objects and may then continue rendering.
    SurfaceOutOfDate,
    /// Image acquisition failed for a reason other than an outdated surface.
    AcquireFailed,
    /// The acquired image index names no frame target.
    UnknownImageIndex,
}

} // verus!
