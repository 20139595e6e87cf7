//! Device operations on surfaces and surface textures.

use vstd::prelude::*;

use crate::context::Context;
use crate::device::Device;
use crate::error::{Error, WindowingApiError};
use crate::native::{NativeCall, NativeReply, Step};
use crate::surface::{
    NativeFramebuffer, NativeSurface, NativeTexture, NativeWidget, Size2D, Surface, SurfaceAccess,
    SurfaceTexture, SurfaceType,
};

verus! {

/// A creation of a surface, in progress.
#[derive(Clone, Copy, Debug, PartialEq, Eq, Structural)]
pub enum SurfaceCreation {
    /// Waiting for the context to become current.
    AwaitingCurrent { size: Size2D },
    /// Waiting for the native surface.
    AwaitingSurface { size: Size2D },
    /// Waiting for the framebuffer object of the native surface.
    AwaitingFramebuffer { size: Size2D, native: usize },
    /// Waiting for the texture object of the native surface.
    AwaitingTexture { size: Size2D, native: usize, framebuffer: u32 },
    /// Waiting for an unusable native surface to be destroyed.
    AwaitingDestroy,
}

impl SurfaceCreation {
    /// A creation is well formed when the native surface it waits on exists.
    pub open spec fn wf(self) -> bool {
        match self {
            SurfaceCreation::AwaitingFramebuffer { native, .. } => native != 0,
            SurfaceCreation::AwaitingTexture { native, .. } => native != 0,
            _ => true,
        }
    }
}

/// How creating a surface of `surface_type` for `context` starts.
pub open spec fn create_surface_begin(
    context: Context,
    surface_type: SurfaceType<NativeWidget>,
) -> Step<SurfaceCreation, Result<Surface, Error>> {
    match surface_type {
        SurfaceType::Generic { size } => Step::Call(
            NativeCall::MakeCurrent { context: context.native },
            SurfaceCreation::AwaitingCurrent { size },
        ),
        SurfaceType::Widget { .. } => Step::Done(Err(Error::UnsupportedOnThisPlatform)),
    }
}

/// How creating a surface goes on after a reply.
pub open spec fn create_surface_resumed(
    context: Context,
    creation: SurfaceCreation,
    reply: NativeReply,
) -> Step<SurfaceCreation, Result<Surface, Error>> {
    match creation {
        SurfaceCreation::AwaitingCurrent { size } => {
            if reply.flag() {
                Step::Call(
                    NativeCall::CreateSurface {
                        context: context.native,
                        width: size.width,
                        height: size.height,
                    },
                    SurfaceCreation::AwaitingSurface { size },
                )
            } else {
                Step::Done(Err(Error::MakeCurrentFailed(WindowingApiError::Failed)))
            }
        },
        SurfaceCreation::AwaitingSurface { size } => {
            if reply.handle() == 0 {
                Step::Done(Err(Error::SurfaceCreationFailed(WindowingApiError::Failed)))
            } else {
                Step::Call(
                    NativeCall::SurfaceFramebuffer { surface: reply.handle() },
                    SurfaceCreation::AwaitingFramebuffer { size, native: reply.handle() },
                )
            }
        },
        SurfaceCreation::AwaitingFramebuffer { size, native } => Step::Call(
            NativeCall::SurfaceTexture { surface: native },
            SurfaceCreation::AwaitingTexture { size, native, framebuffer: reply.name() },
        ),
        SurfaceCreation::AwaitingTexture { size, native, framebuffer } => {
            if framebuffer == 0 || reply.name() == 0 {
                Step::Call(
                    NativeCall::DestroySurface { context: context.native, surface: native },
                    SurfaceCreation::AwaitingDestroy,
                )
            } else {
                Step::Done(
                    Ok(
                        Surface {
                            native,
                            context_id: context.id,
                            size,
                            framebuffer: NativeFramebuffer(framebuffer),
                            texture: NativeTexture(reply.name()),
                        },
                    ),
                )
            }
        },
        SurfaceCreation::AwaitingDestroy => Step::Done(
            Err(Error::SurfaceCreationFailed(WindowingApiError::Failed)),
        ),
    }
}

/// A creation of a texture that views a surface, in progress.
#[derive(Debug, PartialEq, Eq, Structural)]
pub enum SurfaceTextureCreation {
    /// Waiting for the context to become current.
    AwaitingCurrent(Surface),
    /// Waiting for the native surface texture.
    AwaitingTexture(Surface),
    /// Waiting for the texture object of the native surface texture.
    AwaitingName { surface: Surface, native: usize },
    /// Waiting for an unusable native surface texture to be destroyed.
    AwaitingDestroy(Surface),
}

/// How creating a texture of `surface` starts.
pub open spec fn create_surface_texture_begin(context: Context, surface: Surface) -> Step<
    SurfaceTextureCreation,
    Result<SurfaceTexture, (Error, Surface)>,
> {
    Step::Call(
        NativeCall::MakeCurrent { context: context.native },
        SurfaceTextureCreation::AwaitingCurrent(surface),
    )
}

/// How creating a surface texture goes on after a reply.
pub open spec fn create_surface_texture_resumed(
    context: Context,
    creation: SurfaceTextureCreation,
    reply: NativeReply,
) -> Step<SurfaceTextureCreation, Result<SurfaceTexture, (Error, Surface)>> {
    match creation {
        SurfaceTextureCreation::AwaitingCurrent(surface) => {
            if reply.flag() {
                Step::Call(
                    NativeCall::CreateSurfaceTexture {
                        context: context.native,
                        surface: surface.native,
                    },
                    SurfaceTextureCreation::AwaitingTexture(surface),
                )
            } else {
                Step::Done(Err((Error::MakeCurrentFailed(WindowingApiError::Failed), surface)))
            }
        },
        SurfaceTextureCreation::AwaitingTexture(surface) => {
            if reply.handle() == 0 {
                Step::Done(
                    Err((Error::SurfaceTextureCreationFailed(WindowingApiError::Failed), surface)),
                )
            } else {
                Step::Call(
                    NativeCall::SurfaceTextureName { texture: reply.handle() },
                    SurfaceTextureCreation::AwaitingName { surface, native: reply.handle() },
                )
            }
        },
        SurfaceTextureCreation::AwaitingName { surface, native } => {
            if reply.name() == 0 {
                Step::Call(
                    NativeCall::DestroySurfaceTexture { texture: native },
                    SurfaceTextureCreation::AwaitingDestroy(surface),
                )
            } else {
                Step::Done(
                    Ok(SurfaceTexture { native, surface, texture: NativeTexture(reply.name()) }),
                )
            }
        },
        SurfaceTextureCreation::AwaitingDestroy(surface) => Step::Done(
            Err((Error::SurfaceTextureCreationFailed(WindowingApiError::Failed), surface)),
        ),
    }
}

/// How destroying `surface` starts: a surface of another context is
/// refused, and one that is destroyed already needs no call.
pub open spec fn destroy_surface_begin(context: Context, surface: Surface) -> Step<
    (),
    Result<(), Error>,
> {
    if surface.context_id != context.id {
        Step::Done(Err(Error::IncompatibleSurface))
    } else if surface.native == 0 {
        Step::Done(Ok(()))
    } else {
        Step::Call(
            NativeCall::DestroySurface { context: context.native, surface: surface.native },
            (),
        )
    }
}

/// A destruction of a surface texture, in progress.
#[derive(Debug, PartialEq, Eq, Structural)]
pub enum SurfaceTextureDestruction {
    /// Waiting for the context to become current.
    AwaitingCurrent(SurfaceTexture),
    /// Waiting for the native surface texture to be destroyed.
    AwaitingDestroy(SurfaceTexture),
}

/// How destroying a surface texture starts.
pub open spec fn destroy_surface_texture_begin(
    context: Context,
    surface_texture: SurfaceTexture,
) -> Step<SurfaceTextureDestruction, Result<Surface, (Error, SurfaceTexture)>> {
    Step::Call(
        NativeCall::MakeCurrent { context: context.native },
        SurfaceTextureDestruction::AwaitingCurrent(surface_texture),
    )
}

/// How destroying a surface texture goes on after a reply.
pub open spec fn destroy_surface_texture_resumed(
    destruction: SurfaceTextureDestruction,
    reply: NativeReply,
) -> Step<SurfaceTextureDestruction, Result<Surface, (Error, SurfaceTexture)>> {
    match destruction {
        SurfaceTextureDestruction::AwaitingCurrent(surface_texture) => {
            if reply.flag() {
                Step::Call(
                    NativeCall::DestroySurfaceTexture { texture: surface_texture.native },
                    SurfaceTextureDestruction::AwaitingDestroy(surface_texture),
                )
            } else {
                Step::Done(
                    Err((Error::MakeCurrentFailed(WindowingApiError::Failed), surface_texture)),
                )
            }
        },
        SurfaceTextureDestruction::AwaitingDestroy(surface_texture) => Step::Done(
            Ok(surface_texture.surface),
        ),
    }
}

/// A presentation of a surface, in progress.
#[derive(Clone, Copy, Debug, PartialEq, Eq, Structural)]
pub enum SurfacePresentation {
    /// Waiting for the context to become current.
    AwaitingCurrent,
    /// Waiting for rendering to complete.
    AwaitingFinish,
}

/// How presenting the surface of `context` starts.
pub open spec fn present_begin(context: Context) -> Step<SurfacePresentation, Result<(), Error>> {
    Step::Call(
        NativeCall::MakeCurrent { context: context.native },
        SurfacePresentation::AwaitingCurrent,
    )
}

/// How presenting a surface goes on after a reply.
pub open spec fn present_resumed(presentation: SurfacePresentation, reply: NativeReply) -> Step<
    SurfacePresentation,
    Result<(), Error>,
> {
    match presentation {
        SurfacePresentation::AwaitingCurrent => {
            if reply.flag() {
                Step::Call(NativeCall::FinishSurface, SurfacePresentation::AwaitingFinish)
            } else {
                Step::Done(Err(Error::MakeCurrentFailed(WindowingApiError::Failed)))
            }
        },
        SurfacePresentation::AwaitingFinish => Step::Done(Ok(())),
    }
}

/// A resizing of a surface, in progress.
#[derive(Clone, Copy, Debug, PartialEq, Eq, Structural)]
pub enum SurfaceResize {
    /// Waiting for the native surface to be resized.
    AwaitingResize { size: Size2D },
    /// Waiting for the new framebuffer object.
    AwaitingFramebuffer { size: Size2D },
    /// Waiting for the new texture object.
    AwaitingTexture { size: Size2D, framebuffer: u32 },
}

/// How resizing `surface` of `context` to `size` starts.
pub open spec fn resize_begin(context: Context, surface: Surface, size: Size2D) -> Step<
    SurfaceResize,
    Result<(), Error>,
> {
    if surface.context_id != context.id {
        Step::Done(Err(Error::IncompatibleSurface))
    } else {
        Step::Call(
            NativeCall::ResizeSurface {
                context: context.native,
                surface: surface.native,
                width: size.width,
                height: size.height,
            },
            SurfaceResize::AwaitingResize { size },
        )
    }
}

/// How resizing goes on after a reply: the surface afterwards, and the next step.
pub open spec fn resize_resumed(surface: Surface, resize: SurfaceResize, reply: NativeReply) -> (
    Surface,
    Step<SurfaceResize, Result<(), Error>>,
) {
    match resize {
        SurfaceResize::AwaitingResize { size } => {
            if reply.flag() {
                (
                    surface,
                    Step::Call(
                        NativeCall::SurfaceFramebuffer { surface: surface.native },
                        SurfaceResize::AwaitingFramebuffer { size },
                    ),
                )
            } else {
                (surface, Step::Done(Err(Error::SurfaceCreationFailed(WindowingApiError::Failed))))
            }
        },
        SurfaceResize::AwaitingFramebuffer { size } => (
            surface,
            Step::Call(
                NativeCall::SurfaceTexture { surface: surface.native },
                SurfaceResize::AwaitingTexture { size, framebuffer: reply.name() },
            ),
        ),
        SurfaceResize::AwaitingTexture { size, framebuffer } => {
            if framebuffer == 0 {
                (surface, Step::Done(Err(Error::SurfaceCreationFailed(WindowingApiError::Failed))))
            } else if reply.name() == 0 {
                (
                    Surface { framebuffer: NativeFramebuffer(framebuffer), ..surface },
                    Step::Done(Err(Error::SurfaceCreationFailed(WindowingApiError::Failed))),
                )
            } else {
                (
                    Surface {
                        framebuffer: NativeFramebuffer(framebuffer),
                        texture: NativeTexture(reply.name()),
                        size,
                        ..surface
                    },
                    Step::Done(Ok(())),
                )
            }
        },
    }
}

/// A resizing of the surface bound to a context, in progress.
#[derive(Debug, PartialEq, Eq, Structural)]
pub enum BoundSurfaceResize {
    /// Resizing the surface, which is held here meanwhile.
    Resizing { surface: Surface, resize: SurfaceResize },
    /// Binding the resized surface again.
    Rebinding(Surface),
}

impl BoundSurfaceResize {
    /// The surface that is being resized.
    pub open spec fn surface(self) -> Surface {
        match self {
            BoundSurfaceResize::Resizing { surface, .. } => surface,
            BoundSurfaceResize::Rebinding(surface) => surface,
        }
    }

    /// A resizing fits a context when it holds the context's surface: the
    /// context has none meanwhile, and the surface belongs to it.
    pub open spec fn fits(self, context: Context) -> bool {
        &&& context.surface is None
        &&& self.surface().context_id == context.id
    }

    /// Whether the resizing fits the context.
    pub fn fits_context(&self, context: &Context) -> (result: bool)
        ensures
            result == self.fits(*context),
    {
        let surface = match self {
            BoundSurfaceResize::Resizing { surface, .. } => surface,
            BoundSurfaceResize::Rebinding(surface) => surface,
        };
        context.surface.is_none() && surface.context_id == context.id
    }
}

/// How resizing the surface bound to `context` starts: the context
/// afterwards, and the next step.
pub open spec fn resize_bound_begin(context: Context, size: Size2D) -> (
    Context,
    Step<BoundSurfaceResize, Result<(), Error>>,
) {
    match context.surface {
        None => (context, Step::Done(Ok(()))),
        Some(surface) => {
            let unbound = Context { surface: None, ..context };
            match resize_begin(unbound, surface, size) {
                Step::Done(result) => (context, Step::Done(result)),
                Step::Call(call, resize) => (
                    unbound,
                    Step::Call(call, BoundSurfaceResize::Resizing { surface, resize }),
                ),
            }
        },
    }
}

/// How resizing the bound surface goes on after a reply: the context
/// afterwards, and the next step.
pub open spec fn resize_bound_resumed(
    context: Context,
    resizing: BoundSurfaceResize,
    reply: NativeReply,
) -> (Context, Step<BoundSurfaceResize, Result<(), Error>>) {
    match resizing {
        BoundSurfaceResize::Resizing { surface, resize } => {
            let (resized, step) = resize_resumed(surface, resize, reply);
            match step {
                Step::Call(call, next) => (
                    context,
                    Step::Call(call, BoundSurfaceResize::Resizing { surface: resized, resize: next }),
                ),
                Step::Done(Ok(_)) => (
                    context,
                    Step::Call(
                        NativeCall::BindSurface { surface: resized.native },
                        BoundSurfaceResize::Rebinding(resized),
                    ),
                ),
                Step::Done(Err(e)) => (
                    Context { surface: Some(resized), ..context },
                    Step::Done(Err(e)),
                ),
            }
        },
        BoundSurfaceResize::Rebinding(surface) => (
            Context { surface: Some(surface), ..context },
            Step::Done(Ok(())),
        ),
    }
}

impl Device {
    /// Starts creating a surface. Only generic surfaces can be made; widget
    /// surfaces are not supported on iOS.
    pub fn create_surface(
        &self,
        context: &Context,
        access: SurfaceAccess,
        surface_type: SurfaceType<NativeWidget>,
    ) -> (step: Step<SurfaceCreation, Result<Surface, Error>>)
        ensures
            step == create_surface_begin(*context, surface_type),
    {
        match surface_type {
            SurfaceType::Generic { size } => Step::Call(
                NativeCall::MakeCurrent { context: context.native },
                SurfaceCreation::AwaitingCurrent { size },
            ),
            SurfaceType::Widget { .. } => Step::Done(Err(Error::UnsupportedOnThisPlatform)),
        }
    }

    /// Goes on creating a surface after a reply. A native surface whose
    /// framebuffer or texture object is missing is destroyed again.
    pub fn resume_create_surface(
        &self,
        context: &Context,
        creation: SurfaceCreation,
        reply: NativeReply,
    ) -> (step: Step<SurfaceCreation, Result<Surface, Error>>)
        ensures
            step == create_surface_resumed(*context, creation, reply),
    {
        match creation {
            SurfaceCreation::AwaitingCurrent { size } => {
                match self.resume_make_context_current(reply) {
                    Ok(()) => Step::Call(
                        NativeCall::CreateSurface {
                            context: context.native,
                            width: size.width,
                            height: size.height,
                        },
                        SurfaceCreation::AwaitingSurface { size },
                    ),
                    Err(error) => Step::Done(Err(error)),
                }
            },
            SurfaceCreation::AwaitingSurface { size } => {
                let native = reply.handle();
                if native == 0 {
                    return Step::Done(Err(Error::SurfaceCreationFailed(WindowingApiError::Failed)));
                }
                Step::Call(
                    NativeCall::SurfaceFramebuffer { surface: native },
                    SurfaceCreation::AwaitingFramebuffer { size, native },
                )
            },
            SurfaceCreation::AwaitingFramebuffer { size, native } => Step::Call(
                NativeCall::SurfaceTexture { surface: native },
                SurfaceCreation::AwaitingTexture { size, native, framebuffer: reply.name() },
            ),
            SurfaceCreation::AwaitingTexture { size, native, framebuffer } => {
                let texture = reply.name();
                if framebuffer == 0 || texture == 0 {
                    return Step::Call(
                        NativeCall::DestroySurface { context: context.native, surface: native },
                        SurfaceCreation::AwaitingDestroy,
                    );
                }
                Step::Done(
                    Ok(
                        Surface {
                            native,
                            context_id: context.id,
                            size,
                            framebuffer: NativeFramebuffer(framebuffer),
                            texture: NativeTexture(texture),
                        },
                    ),
                )
            },
            SurfaceCreation::AwaitingDestroy => Step::Done(
                Err(Error::SurfaceCreationFailed(WindowingApiError::Failed)),
            ),
        }
    }

    /// Starts creating a texture that views a surface.
    pub fn create_surface_texture(&self, context: &Context, surface: Surface) -> (step: Step<
        SurfaceTextureCreation,
        Result<SurfaceTexture, (Error, Surface)>,
    >)
        ensures
            step == create_surface_texture_begin(*context, surface),
    {
        Step::Call(
            NativeCall::MakeCurrent { context: context.native },
            SurfaceTextureCreation::AwaitingCurrent(surface),
        )
    }

    /// Goes on creating a surface texture after a reply; on failure the
    /// surface is handed back.
    pub fn resume_create_surface_texture(
        &self,
        context: &Context,
        creation: SurfaceTextureCreation,
        reply: NativeReply,
    ) -> (step: Step<SurfaceTextureCreation, Result<SurfaceTexture, (Error, Surface)>>)
        ensures
            step == create_surface_texture_resumed(*context, creation, reply),
    {
        match creation {
            SurfaceTextureCreation::AwaitingCurrent(surface) => {
                match self.resume_make_context_current(reply) {
                    Ok(()) => Step::Call(
                        NativeCall::CreateSurfaceTexture {
                            context: context.native,
                            surface: surface.native,
                        },
                        SurfaceTextureCreation::AwaitingTexture(surface),
                    ),
                    Err(error) => Step::Done(Err((error, surface))),
                }
            },
            SurfaceTextureCreation::AwaitingTexture(surface) => {
                let native = reply.handle();
                if native == 0 {
                    return Step::Done(
                        Err(
                            (
                                Error::SurfaceTextureCreationFailed(WindowingApiError::Failed),
                                surface,
                            ),
                        ),
                    );
                }
                Step::Call(
                    NativeCall::SurfaceTextureName { texture: native },
                    SurfaceTextureCreation::AwaitingName { surface, native },
                )
            },
            SurfaceTextureCreation::AwaitingName { surface, native } => {
                let texture = reply.name();
                if texture == 0 {
                    return Step::Call(
                        NativeCall::DestroySurfaceTexture { texture: native },
                        SurfaceTextureCreation::AwaitingDestroy(surface),
                    );
                }
                Step::Done(Ok(SurfaceTexture { native, surface, texture: NativeTexture(texture) }))
            },
            SurfaceTextureCreation::AwaitingDestroy(surface) => Step::Done(
                Err((Error::SurfaceTextureCreationFailed(WindowingApiError::Failed), surface)),
            ),
        }
    }

    /// Starts destroying a surface.
    pub fn destroy_surface(&self, context: &Context, surface: &Surface) -> (step: Step<
        (),
        Result<(), Error>,
    >)
        ensures
            step == destroy_surface_begin(*context, *surface),
    {
        if surface.context_id != context.id {
            return Step::Done(Err(Error::IncompatibleSurface));
        }
        if surface.native == 0 {
            return Step::Done(Ok(()));
        }
        Step::Call(
            NativeCall::DestroySurface { context: context.native, surface: surface.native },
            (),
        )
    }

    /// Finishes destroying a surface: it no longer has a native surface.
    pub fn resume_destroy_surface(&self, surface: &mut Surface) -> (result: Result<(), Error>)
        ensures
            *final(surface) == (Surface { native: 0, ..*old(surface) }),
            result == Ok::<(), Error>(()),
    {
        surface.native = 0;
        Ok(())
    }

    /// Starts destroying a surface texture.
    pub fn destroy_surface_texture(&self, context: &Context, surface_texture: SurfaceTexture) -> (step:
        Step<SurfaceTextureDestruction, Result<Surface, (Error, SurfaceTexture)>>)
        ensures
            step == destroy_surface_texture_begin(*context, surface_texture),
    {
        Step::Call(
            NativeCall::MakeCurrent { context: context.native },
            SurfaceTextureDestruction::AwaitingCurrent(surface_texture),
        )
    }

    /// Goes on destroying a surface texture after a reply; it ends by handing
    /// back the surface that the texture viewed.
    pub fn resume_destroy_surface_texture(
        &self,
        destruction: SurfaceTextureDestruction,
        reply: NativeReply,
    ) -> (step: Step<SurfaceTextureDestruction, Result<Surface, (Error, SurfaceTexture)>>)
        ensures
            step == destroy_surface_texture_resumed(destruction, reply),
    {
        match destruction {
            SurfaceTextureDestruction::AwaitingCurrent(surface_texture) => {
                match self.resume_make_context_current(reply) {
                    Ok(()) => Step::Call(
                        NativeCall::DestroySurfaceTexture { texture: surface_texture.native },
                        SurfaceTextureDestruction::AwaitingDestroy(surface_texture),
                    ),
                    Err(error) => Step::Done(Err((error, surface_texture))),
                }
            },
            SurfaceTextureDestruction::AwaitingDestroy(surface_texture) => {
                let mut surface_texture = surface_texture;
                surface_texture.native = 0;
                Step::Done(Ok(surface_texture.surface))
            },
        }
    }

    /// Starts presenting the surface bound to a context.
    pub fn present_bound_surface(&self, context: &Context) -> (step: Step<
        SurfacePresentation,
        Result<(), Error>,
    >)
        ensures
            step == present_begin(*context),
    {
        Step::Call(
            NativeCall::MakeCurrent { context: context.native },
            SurfacePresentation::AwaitingCurrent,
        )
    }

    /// Starts presenting a surface; a surface of another context is refused.
    pub fn present_surface(&self, context: &Context, surface: &Surface) -> (step: Step<
        SurfacePresentation,
        Result<(), Error>,
    >)
        ensures
            surface.context_id != context.id ==> step == Step::<
                SurfacePresentation,
                Result<(), Error>,
            >::Done(Err(Error::IncompatibleSurface)),
            surface.context_id == context.id ==> step == present_begin(*context),
    {
        if surface.context_id != context.id {
            return Step::Done(Err(Error::IncompatibleSurface));
        }
        self.present_bound_surface(context)
    }

    /// Goes on presenting a surface after a reply.
    pub fn resume_present_surface(&self, presentation: SurfacePresentation, reply: NativeReply) -> (step:
        Step<SurfacePresentation, Result<(), Error>>)
        ensures
            step == present_resumed(presentation, reply),
    {
        match presentation {
            SurfacePresentation::AwaitingCurrent => {
                match self.resume_make_context_current(reply) {
                    Ok(()) => Step::Call(NativeCall::FinishSurface, SurfacePresentation::AwaitingFinish),
                    Err(error) => Step::Done(Err(error)),
                }
            },
            SurfacePresentation::AwaitingFinish => Step::Done(Ok(())),
        }
    }

    /// Starts resizing a surface; a surface of another context is refused.
    pub fn resize_surface(&self, context: &Context, surface: &Surface, size: Size2D) -> (step: Step<
        SurfaceResize,
        Result<(), Error>,
    >)
        ensures
            step == resize_begin(*context, *surface, size),
    {
        if surface.context_id != context.id {
            return Step::Done(Err(Error::IncompatibleSurface));
        }
        Step::Call(
            NativeCall::ResizeSurface {
                context: context.native,
                surface: surface.native,
                width: size.width,
                height: size.height,
            },
            SurfaceResize::AwaitingResize { size },
        )
    }

    /// Goes on resizing a surface after a reply. The new framebuffer object
    /// is recorded before the texture object is checked.
    pub fn resume_resize_surface(
        &self,
        surface: &mut Surface,
        resize: SurfaceResize,
        reply: NativeReply,
    ) -> (step: Step<SurfaceResize, Result<(), Error>>)
        ensures
            (*final(surface), step) == resize_resumed(*old(surface), resize, reply),
    {
        match resize {
            SurfaceResize::AwaitingResize { size } => {
                if !reply.flag() {
                    return Step::Done(Err(Error::SurfaceCreationFailed(WindowingApiError::Failed)));
                }
                Step::Call(
                    NativeCall::SurfaceFramebuffer { surface: surface.native },
                    SurfaceResize::AwaitingFramebuffer { size },
                )
            },
            SurfaceResize::AwaitingFramebuffer { size } => Step::Call(
                NativeCall::SurfaceTexture { surface: surface.native },
                SurfaceResize::AwaitingTexture { size, framebuffer: reply.name() },
            ),
            SurfaceResize::AwaitingTexture { size, framebuffer } => {
                if framebuffer == 0 {
                    return Step::Done(Err(Error::SurfaceCreationFailed(WindowingApiError::Failed)));
                }
                surface.framebuffer = NativeFramebuffer(framebuffer);
                let texture = reply.name();
                if texture == 0 {
                    return Step::Done(Err(Error::SurfaceCreationFailed(WindowingApiError::Failed)));
                }
                surface.texture = NativeTexture(texture);
                surface.size = size;
                Step::Done(Ok(()))
            },
        }
    }

    /// Starts resizing the surface bound to a context; without one there is
    /// nothing to do. The surface is held by the operation until it ends.
    pub fn resize_bound_surface(&self, context: &mut Context, size: Size2D) -> (step: Step<
        BoundSurfaceResize,
        Result<(), Error>,
    >)
        ensures
            (*final(context), step) == resize_bound_begin(*old(context), size),
    {
        match context.surface.take() {
            None => Step::Done(Ok(())),
            Some(surface) => {
                match self.resize_surface(context, &surface, size) {
                    Step::Done(result) => {
                        context.surface = Some(surface);
                        Step::Done(result)
                    },
                    Step::Call(call, resize) => Step::Call(
                        call,
                        BoundSurfaceResize::Resizing { surface, resize },
                    ),
                }
            },
        }
    }

    /// Goes on resizing the bound surface after a reply; it ends with the
    /// surface bound to the context again.
    pub fn resume_resize_bound_surface(
        &self,
        context: &mut Context,
        resizing: BoundSurfaceResize,
        reply: NativeReply,
    ) -> (step: Step<BoundSurfaceResize, Result<(), Error>>)
        requires
            resizing.fits(*old(context)),
        ensures
            (*final(context), step) == resize_bound_resumed(*old(context), resizing, reply),
    {
        match resizing {
            BoundSurfaceResize::Resizing { surface, resize } => {
                let mut surface = surface;
                match self.resume_resize_surface(&mut surface, resize, reply) {
                    Step::Call(call, next) => Step::Call(
                        call,
                        BoundSurfaceResize::Resizing { surface, resize: next },
                    ),
                    Step::Done(Ok(())) => Step::Call(
                        NativeCall::BindSurface { surface: surface.native },
                        BoundSurfaceResize::Rebinding(surface),
                    ),
                    Step::Done(Err(error)) => {
                        context.surface = Some(surface);
                        Step::Done(Err(error))
                    },
                }
            },
            BoundSurfaceResize::Rebinding(surface) => {
                context.surface = Some(surface);
                Step::Done(Ok(()))
            },
        }
    }

    /// The call that takes a retained reference to the IOSurface behind `surface`.
    pub fn native_surface(&self, surface: &Surface) -> (call: NativeCall)
        ensures
            call == (NativeCall::CopyIoSurface { surface: surface.native }),
    {
        NativeCall::CopyIoSurface { surface: surface.native }
    }

    /// The retained IOSurface, from the native layer's reply.
    pub fn resume_native_surface(&self, reply: NativeReply) -> (native: NativeSurface)
        ensures
            native == NativeSurface(reply.handle()),
    {
        NativeSurface(reply.handle())
    }
}

} // verus!
