//! Surfaces, the textures that view them, and the values that describe them.

use vstd::prelude::*;

use crate::context::ContextID;

verus! {

/// A width and a height in pixels.
#[derive(Clone, Copy, Debug, PartialEq, Eq, Structural)]
pub struct Size2D {
    /// The width.
    pub width: i32,
    /// The height.
    pub height: i32,
}

impl Size2D {
    /// Makes a size out of a width and a height.
    pub fn new(width: i32, height: i32) -> (size: Size2D)
        ensures
            size == (Size2D { width, height }),
    {
        Size2D { width, height }
    }
}

/// The name of an OpenGL framebuffer object; a framebuffer that exists is never 0.
#[derive(Clone, Copy, Debug, PartialEq, Eq, Structural)]
pub struct NativeFramebuffer(pub u32);

/// The name of an OpenGL texture object; a texture that exists is never 0.
#[derive(Clone, Copy, Debug, PartialEq, Eq, Structural)]
pub struct NativeTexture(pub u32);

/// A unique identifier of a surface: the address of its native object.
#[derive(Clone, Copy, Debug, PartialEq, Eq, Structural)]
pub struct SurfaceID(pub usize);

/// Who may read and write a surface's pixels.
#[derive(Clone, Copy, Debug, PartialEq, Eq, Structural)]
pub enum SurfaceAccess {
    /// Only the GPU.
    GPUOnly,
    /// The GPU, and the CPU too.
    GPUCPU,
    /// The GPU, and the CPU with write-combined memory.
    GPUCPUWriteCombined,
}

/// The kind of surface to create.
#[derive(Debug, PartialEq, Eq)]
pub enum SurfaceType<W> {
    /// An off-screen surface of the given size.
    Generic { size: Size2D },
    /// A surface that shows in a native widget.
    Widget { native_widget: W },
}

/// A placeholder for the native widget; iOS widgets are not supported.
#[derive(Clone, Copy, Debug, PartialEq, Eq, Structural)]
pub struct NativeWidget;

/// What a device reports about a surface.
#[derive(Clone, Copy, Debug, PartialEq, Eq, Structural)]
pub struct SurfaceInfo {
    /// The size of the surface.
    pub size: Size2D,
    /// The identifier of the surface.
    pub id: SurfaceID,
    /// The context that the surface belongs to.
    pub context_id: ContextID,
    /// The framebuffer object that renders to the surface.
    pub framebuffer_object: Option<NativeFramebuffer>,
}

/// A surface backed by an IOSurface.
#[derive(Debug, PartialEq, Eq, Structural)]
pub struct Surface {
    /// The address of the native surface; 0 once it has been destroyed.
    pub native: usize,
    /// The context that created the surface.
    pub context_id: ContextID,
    /// The size of the surface.
    pub size: Size2D,
    /// The framebuffer object that renders to the surface.
    pub framebuffer: NativeFramebuffer,
    /// The texture object that holds the surface's pixels.
    pub texture: NativeTexture,
}

impl Surface {
    /// A surface is well formed when its framebuffer and texture objects exist.
    pub open spec fn wf(self) -> bool {
        self.framebuffer.0 != 0 && self.texture.0 != 0
    }

    /// The identifier of the surface: the address of its native object.
    pub fn id(&self) -> (id: SurfaceID)
        ensures
            id == SurfaceID(self.native),
    {
        SurfaceID(self.native)
    }
}

/// A texture that views a surface, together with that surface.
#[derive(Debug, PartialEq, Eq, Structural)]
pub struct SurfaceTexture {
    /// The address of the native surface texture; 0 once it has been destroyed.
    pub native: usize,
    /// The surface that the texture views.
    pub surface: Surface,
    /// The texture object.
    pub texture: NativeTexture,
}

/// The address of a retained IOSurface.
#[derive(Debug, PartialEq, Eq, Structural)]
pub struct NativeSurface(pub usize);

} // verus!
