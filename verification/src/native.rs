//! The requests that the backend makes of the native EAGL layer.
//!
//! Native objects are named by their addresses; the address 0 stands for a
//! null object. A device operation that needs the platform returns a
//! [`Step::Call`]: whoever drives it performs the call, and resumes the
//! operation with the [`NativeReply`] it got back.

use vstd::prelude::*;

verus! {

/// A call into the native EAGL layer.
#[derive(Clone, Copy, Debug, PartialEq, Eq, Structural)]
pub enum NativeCall {
    /// Create a rendering context that shares objects with `shared` (0 for none).
    CreateContext { shared: usize },
    /// Take one more reference to a rendering context.
    RetainContext { context: usize },
    /// Drop one reference to a rendering context.
    ReleaseContext { context: usize },
    /// Make a rendering context current on this thread.
    MakeCurrent { context: usize },
    /// Make no rendering context current on this thread.
    ClearCurrent,
    /// Create a surface of the given size.
    CreateSurface { context: usize, width: i32, height: i32 },
    /// Destroy a surface.
    DestroySurface { context: usize, surface: usize },
    /// Give a surface a new size.
    ResizeSurface { context: usize, surface: usize, width: i32, height: i32 },
    /// Render to a surface from now on.
    BindSurface { surface: usize },
    /// Complete the rendering commands issued so far.
    FinishSurface,
    /// Ask for the framebuffer object of a surface.
    SurfaceFramebuffer { surface: usize },
    /// Ask for the texture object of a surface.
    SurfaceTexture { surface: usize },
    /// Take a retained reference to the IOSurface behind a surface.
    CopyIoSurface { surface: usize },
    /// Create a texture that views a surface.
    CreateSurfaceTexture { context: usize, surface: usize },
    /// Destroy a surface texture.
    DestroySurfaceTexture { texture: usize },
    /// Ask for the texture object of a surface texture.
    SurfaceTextureName { texture: usize },
}

/// What the native layer answered to a [`NativeCall`].
#[derive(Clone, Copy, Debug, PartialEq, Eq, Structural)]
pub enum NativeReply {
    /// The call returns nothing.
    Done,
    /// The call reports success or failure.
    Flag(bool),
    /// The call returns the address of an object (0 when it failed).
    Handle(usize),
    /// The call returns the name of an OpenGL object (0 when there is none).
    Name(u32),
}

impl NativeReply {
    /// Whether the reply reports success; any reply other than a flag counts as failure.
    #[verifier::allow_in_spec]
    pub fn flag(&self) -> bool
        returns
            (match self {
                NativeReply::Flag(b) => *b,
                _ => false,
            }),
    {
        match self {
            NativeReply::Flag(b) => *b,
            _ => false,
        }
    }

    /// The address in the reply; any reply other than an address counts as null.
    #[verifier::allow_in_spec]
    pub fn handle(&self) -> usize
        returns
            (match self {
                NativeReply::Handle(h) => *h,
                _ => 0usize,
            }),
    {
        match self {
            NativeReply::Handle(h) => *h,
            _ => 0,
        }
    }

    /// The object name in the reply; any reply other than a name counts as 0.
    #[verifier::allow_in_spec]
    pub fn name(&self) -> u32
        returns
            (match self {
                NativeReply::Name(n) => *n,
                _ => 0u32,
            }),
    {
        match self {
            NativeReply::Name(n) => *n,
            _ => 0,
        }
    }
}

/// One stage of an operation that talks to the native layer: either a call
/// to make, with the state to resume from, or the operation's result.
#[derive(Debug, PartialEq, Eq)]
pub enum Step<S, R> {
    /// Make this call, then resume the operation with the state and the reply.
    Call(NativeCall, S),
    /// The operation is over.
    Done(R),
}

} // verus!
