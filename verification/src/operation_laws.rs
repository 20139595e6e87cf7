//! What each operation does with what it is given: the descriptor, size,
//! context and objects a caller asks for are the ones the native calls name
//! and the results hold.

use vstd::prelude::*;

use crate::attributes::{ContextAttributes, GLVersion};
use crate::context::{Context, ContextDescriptor};
use crate::context_ops::{
    bind_begin, created_context, current_result, unbind_begin, wrapped_context_descriptor,
    ContextCreation, SurfaceBinding, SurfaceUnbinding,
};
use crate::device::{descriptor_for, info_of};
use crate::self_test::{expected_pixel, stage_number, SelfTestStage};
use crate::error::{Error, WindowingApiError};
use crate::native::{NativeCall, NativeReply, Step};
use crate::surface::{NativeWidget, Size2D, Surface, SurfaceID, SurfaceTexture, SurfaceType};
use crate::surface_ops::{
    create_surface_begin, create_surface_resumed, create_surface_texture_resumed,
    destroy_surface_begin, destroy_surface_texture_resumed, present_begin, present_resumed,
    resize_begin, resize_resumed, SurfaceCreation, SurfacePresentation, SurfaceResize,
    SurfaceTextureCreation, SurfaceTextureDestruction,
};

verus! {

/// A created context keeps exactly the descriptor and identifier it was
/// created with, holds the native context the platform returned, and has no
/// surface; creation fails exactly when the platform returned null.
pub proof fn lemma_created_context_keeps_its_request(creation: ContextCreation, reply: NativeReply)
    ensures
        created_context(creation, reply) matches Ok(context) ==> {
            &&& context.descriptor == creation.descriptor
            &&& context.id == creation.id
            &&& context.native == reply.handle()
            &&& context.surface is None
        },
        created_context(creation, reply) matches Err(error) ==> error
            == Error::ContextCreationFailed(WindowingApiError::Failed),
        created_context(creation, reply) is Ok <==> reply.handle() != 0,
{
}

/// A context that wraps a native context asks for OpenGL ES 3.0 with alpha,
/// depth and stencil, and not the compatibility profile.
pub proof fn lemma_wrapped_context_attributes()
    ensures
        wrapped_context_descriptor().0.version == (GLVersion { major: 3, minor: 0 }),
        wrapped_context_descriptor().0.flags.alpha,
        wrapped_context_descriptor().0.flags.depth,
        wrapped_context_descriptor().0.flags.stencil,
        !wrapped_context_descriptor().0.flags.compatibility_profile,
{
}

/// A descriptor is refused for a major version other than 2 or 3, then for
/// the compatibility profile; otherwise it holds exactly the attributes.
pub proof fn lemma_descriptor_checks(attributes: ContextAttributes)
    ensures
        (attributes.version.major < 2 || attributes.version.major > 3) ==> descriptor_for(
            attributes,
        ) == Err::<ContextDescriptor, Error>(Error::UnsupportedGLVersion),
        (2 <= attributes.version.major <= 3 && attributes.flags.compatibility_profile) ==> descriptor_for(
            attributes,
        ) == Err::<ContextDescriptor, Error>(Error::UnsupportedGLProfile),
        (2 <= attributes.version.major <= 3 && !attributes.flags.compatibility_profile) ==> descriptor_for(
            attributes,
        ) == Ok::<ContextDescriptor, Error>(ContextDescriptor(attributes)),
{
}

/// The self test counts its stages from 1 in the order it runs them, and
/// looks for the colour (51, 102, 204, 255).
pub proof fn lemma_self_test_codes()
    ensures
        stage_number(SelfTestStage::Connection) == 1,
        stage_number(SelfTestStage::Adapter) == 2,
        stage_number(SelfTestStage::Device) == 3,
        stage_number(SelfTestStage::Descriptor) == 4,
        stage_number(SelfTestStage::Context) == 5,
        stage_number(SelfTestStage::Surface) == 6,
        stage_number(SelfTestStage::NativeSurface) == 7,
        stage_number(SelfTestStage::Binding) == 8,
        expected_pixel().len() == 4,
        expected_pixel()[0] == 51 && expected_pixel()[1] == 102 && expected_pixel()[2] == 204
            && expected_pixel()[3] == 255,
{
}

/// A make-current reply means success exactly when it is a true flag.
pub proof fn lemma_current_result_reads_the_flag(reply: NativeReply)
    ensures
        current_result(reply) is Ok <==> reply == NativeReply::Flag(true),
        current_result(reply) matches Err(error) ==> error == Error::MakeCurrentFailed(
            WindowingApiError::Failed,
        ),
{
}

/// Binding refuses a context that has a surface, then a surface of another
/// context, handing the surface back; otherwise it first makes the context
/// itself current. Unbinding a context without a surface gives nothing at
/// once; with one, it first makes that context current.
pub proof fn lemma_bind_and_unbind_start_with_the_context(context: Context, surface: Surface)
    ensures
        context.surface is Some ==> bind_begin(context, surface) == Step::<
            SurfaceBinding,
            Result<(), (Error, Surface)>,
        >::Done(Err((Error::SurfaceAlreadyBound, surface))),
        context.surface is None && surface.context_id != context.id ==> bind_begin(context, surface)
            == Step::<SurfaceBinding, Result<(), (Error, Surface)>>::Done(
            Err((Error::IncompatibleSurface, surface)),
        ),
        context.surface is None && surface.context_id == context.id ==> (bind_begin(
            context,
            surface,
        ) matches Step::Call(call, state) && call == (NativeCall::MakeCurrent {
            context: context.native,
        }) && state.surface() == surface),
        context.surface is None ==> unbind_begin(context) == Step::<
            SurfaceUnbinding,
            Result<Option<Surface>, Error>,
        >::Done(Ok(None)),
        context.surface is Some ==> (unbind_begin(context) matches Step::Call(call, _) && call == (
        NativeCall::MakeCurrent { context: context.native })),
{
}

/// The size a surface creation works towards; none once it is giving up.
pub open spec fn creation_size(creation: SurfaceCreation) -> Option<Size2D> {
    match creation {
        SurfaceCreation::AwaitingCurrent { size } => Some(size),
        SurfaceCreation::AwaitingSurface { size } => Some(size),
        SurfaceCreation::AwaitingFramebuffer { size, .. } => Some(size),
        SurfaceCreation::AwaitingTexture { size, .. } => Some(size),
        SurfaceCreation::AwaitingDestroy => None,
    }
}

/// Creating a generic surface works towards exactly the requested size: it
/// starts by making the context current with that size, every native
/// surface it asks for has that width and height, every later state keeps
/// it, and the surface it hands out has it. Widget surfaces are refused.
pub proof fn lemma_surface_creation_keeps_the_requested_size(
    context: Context,
    size: Size2D,
    widget: NativeWidget,
    creation: SurfaceCreation,
    reply: NativeReply,
)
    ensures
        create_surface_begin(context, SurfaceType::Generic { size }) matches Step::Call(call, first)
            && call == (NativeCall::MakeCurrent { context: context.native }) && creation_size(first)
            == Some(size),
        create_surface_begin(context, SurfaceType::Widget { native_widget: widget }) == Step::<
            SurfaceCreation,
            Result<Surface, Error>,
        >::Done(Err(Error::UnsupportedOnThisPlatform)),
        ({
            let step = create_surface_resumed(context, creation, reply);
            &&& step matches Step::Call(NativeCall::CreateSurface { context: c, width, height }, _)
                ==> c == context.native && creation_size(creation) == Some(
                Size2D { width, height },
            )
            &&& step matches Step::Call(_, next) ==> creation_size(next) is None || creation_size(
                next,
            ) == creation_size(creation)
            &&& step matches Step::Done(Ok(surface)) ==> creation_size(creation) == Some(
                surface.size,
            ) && surface.context_id == context.id
        }),
{
}

/// A surface creation that succeeds names the native surface and the
/// framebuffer and texture objects that the platform gave, and only the
/// surface's own native object is queried or destroyed.
pub proof fn lemma_surface_creation_keeps_native_objects(
    context: Context,
    size: Size2D,
    native: usize,
    framebuffer: u32,
    reply: NativeReply,
)
    ensures
        create_surface_resumed(context, SurfaceCreation::AwaitingTexture { size, native, framebuffer }, reply)
            matches Step::Done(Ok(surface)) ==> {
            &&& surface.native == native
            &&& surface.framebuffer.0 == framebuffer
            &&& surface.texture.0 == reply.name()
            &&& surface.size == size
        },
        create_surface_resumed(context, SurfaceCreation::AwaitingTexture { size, native, framebuffer }, reply)
            matches Step::Call(call, _) ==> call == (NativeCall::DestroySurface {
            context: context.native,
            surface: native,
        }),
        create_surface_resumed(context, SurfaceCreation::AwaitingFramebuffer { size, native }, reply)
            matches Step::Call(call, next) && call == (NativeCall::SurfaceTexture { surface: native })
            && next == (SurfaceCreation::AwaitingTexture { size, native, framebuffer: reply.name() }),
        reply.handle() != 0 ==> (create_surface_resumed(
            context,
            SurfaceCreation::AwaitingSurface { size },
            reply,
        ) matches Step::Call(call, next) && call == (NativeCall::SurfaceFramebuffer {
            surface: reply.handle(),
        }) && next == (SurfaceCreation::AwaitingFramebuffer { size, native: reply.handle() })),
        reply.handle() == 0 ==> create_surface_resumed(
            context,
            SurfaceCreation::AwaitingSurface { size },
            reply,
        ) == Step::<SurfaceCreation, Result<Surface, Error>>::Done(
            Err(Error::SurfaceCreationFailed(WindowingApiError::Failed)),
        ),
{
}

/// Resizing a surface of the context asks the platform for exactly the new
/// width and height, for that surface and context; a surface of another
/// context is refused.
pub proof fn lemma_resize_asks_for_the_requested_size(context: Context, surface: Surface, size: Size2D)
    ensures
        surface.context_id == context.id ==> (resize_begin(context, surface, size) matches Step::Call(
            call,
            state,
        ) && call == (NativeCall::ResizeSurface {
            context: context.native,
            surface: surface.native,
            width: size.width,
            height: size.height,
        }) && state == (SurfaceResize::AwaitingResize { size })),
        surface.context_id != context.id ==> resize_begin(context, surface, size) == Step::<
            SurfaceResize,
            Result<(), Error>,
        >::Done(Err(Error::IncompatibleSurface)),
{
}

/// The size a resizing works towards.
pub open spec fn resize_size(resize: SurfaceResize) -> Size2D {
    match resize {
        SurfaceResize::AwaitingResize { size } => size,
        SurfaceResize::AwaitingFramebuffer { size } => size,
        SurfaceResize::AwaitingTexture { size, .. } => size,
    }
}

/// A resizing keeps the size it works towards from step to step; when it
/// succeeds the surface has that size, and when it fails the surface keeps
/// its old size. It only ever queries the surface's own native object.
pub proof fn lemma_resize_keeps_the_requested_size(
    surface: Surface,
    resize: SurfaceResize,
    reply: NativeReply,
)
    ensures
        ({
            let (after, step) = resize_resumed(surface, resize, reply);
            &&& step matches Step::Call(_, next) ==> resize_size(next) == resize_size(resize)
                && after == surface
            &&& step matches Step::Call(call, _) ==> call == (NativeCall::SurfaceFramebuffer {
                surface: surface.native,
            }) || call == (NativeCall::SurfaceTexture { surface: surface.native })
            &&& step matches Step::Done(Ok(_)) ==> after.size == resize_size(resize)
            &&& step matches Step::Done(Err(_)) ==> after.size == surface.size
        }),
{
}

/// Presenting first makes the presented surface's own context current, then
/// finishes rendering, then succeeds; a refused make-current ends it.
pub proof fn lemma_present_makes_the_context_current(context: Context, reply: NativeReply)
    ensures
        present_begin(context) == Step::<SurfacePresentation, Result<(), Error>>::Call(
            NativeCall::MakeCurrent { context: context.native },
            SurfacePresentation::AwaitingCurrent,
        ),
        reply.flag() ==> present_resumed(SurfacePresentation::AwaitingCurrent, reply) == Step::<
            SurfacePresentation,
            Result<(), Error>,
        >::Call(NativeCall::FinishSurface, SurfacePresentation::AwaitingFinish),
        present_resumed(SurfacePresentation::AwaitingFinish, reply) == Step::<
            SurfacePresentation,
            Result<(), Error>,
        >::Done(Ok(())),
{
}

/// What a device reports about a surface is the surface's own size,
/// address, context and framebuffer object.
pub proof fn lemma_info_reports_the_surface(surface: Surface)
    ensures
        info_of(surface).size == surface.size,
        info_of(surface).id == SurfaceID(surface.native),
        info_of(surface).context_id == surface.context_id,
        info_of(surface).framebuffer_object == Some(surface.framebuffer),
{
}

/// A surface made from a request of some size reports that size, and a
/// surface resized successfully reports its new size.
pub proof fn lemma_info_follows_creation_and_resize(
    context: Context,
    size: Size2D,
    native: usize,
    framebuffer: u32,
    creation_reply: NativeReply,
    surface: Surface,
    resize: SurfaceResize,
    resize_reply: NativeReply,
)
    ensures
        create_surface_resumed(context, SurfaceCreation::AwaitingTexture { size, native, framebuffer }, creation_reply)
            matches Step::Done(Ok(made)) ==> info_of(made).size == size && info_of(made).context_id
            == context.id,
        ({
            let (after, step) = resize_resumed(surface, resize, resize_reply);
            step matches Step::Done(Ok(_)) ==> info_of(after).size == resize_size(resize)
                && info_of(after).id == info_of(surface).id
        }),
{
}

/// A surface texture holds the surface it was made from, the native texture
/// the platform gave, and the texture object it named; it is made against
/// the context and surface given, and destroying it names its own native
/// texture and gives back its surface.
pub proof fn lemma_surface_textures_keep_their_parts(
    context: Context,
    surface: Surface,
    native: usize,
    reply: NativeReply,
    surface_texture: SurfaceTexture,
)
    ensures
        create_surface_texture_resumed(context, SurfaceTextureCreation::AwaitingName { surface, native }, reply)
            matches Step::Done(Ok(made)) ==> made.surface == surface && made.native == native
            && made.texture.0 == reply.name() && made.texture.0 != 0,
        reply.flag() ==> (create_surface_texture_resumed(
            context,
            SurfaceTextureCreation::AwaitingCurrent(surface),
            reply,
        ) matches Step::Call(call, _) && call == (NativeCall::CreateSurfaceTexture {
            context: context.native,
            surface: surface.native,
        })),
        reply.flag() ==> (destroy_surface_texture_resumed(
            SurfaceTextureDestruction::AwaitingCurrent(surface_texture),
            reply,
        ) matches Step::Call(call, _) && call == (NativeCall::DestroySurfaceTexture {
            texture: surface_texture.native,
        })),
        destroy_surface_texture_resumed(
            SurfaceTextureDestruction::AwaitingDestroy(surface_texture),
            reply,
        ) matches Step::Done(Ok(back)) && back == surface_texture.surface,
{
}

/// Destroying a surface names that surface and its context to the platform,
/// refuses a surface of another context, and needs nothing for a surface
/// that is destroyed already.
pub proof fn lemma_destroy_surface_names_the_surface(context: Context, surface: Surface)
    ensures
        surface.context_id != context.id ==> destroy_surface_begin(context, surface) == Step::<
            (),
            Result<(), Error>,
        >::Done(Err(Error::IncompatibleSurface)),
        surface.context_id == context.id && surface.native != 0 ==> (destroy_surface_begin(
            context,
            surface,
        ) matches Step::Call(call, _) && call == (NativeCall::DestroySurface {
            context: context.native,
            surface: surface.native,
        })),
{
}

} // verus!
