//! Errors reported by the backend.

use vstd::prelude::*;

verus! {

/// The reason a call into the windowing system failed.
#[derive(Clone, Copy, Debug, PartialEq, Eq, Structural)]
pub enum WindowingApiError {
    /// The platform reported a failure without further detail.
    Failed,
}

/// Errors that the backend reports.
#[derive(Clone, Copy, Debug, PartialEq, Eq, Structural)]
pub enum Error {
    /// The requested OpenGL ES version is not available.
    UnsupportedGLVersion,
    /// The requested OpenGL profile is not available.
    UnsupportedGLProfile,
    /// The native rendering context could not be created.
    ContextCreationFailed(WindowingApiError),
    /// The wrapped native context is null.
    IncompatibleNativeContext,
    /// The context could not be made current.
    MakeCurrentFailed(WindowingApiError),
    /// The context already has a surface bound to it.
    SurfaceAlreadyBound,
    /// The surface belongs to another context.
    IncompatibleSurface,
    /// The operation is not available on this platform.
    UnsupportedOnThisPlatform,
    /// The surface could not be created or resized.
    SurfaceCreationFailed(WindowingApiError),
    /// The surface texture could not be created.
    SurfaceTextureCreationFailed(WindowingApiError),
    /// No native context is current.
    NoCurrentContext,
    /// Raw display handles are not accepted here.
    IncompatibleRawDisplayHandle,
    /// Native widgets are not accepted here.
    IncompatibleNativeWidget,
}

} // verus!
