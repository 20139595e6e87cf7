//! Properties that span the device's operations.

use vstd::prelude::*;

use crate::attributes::ContextAttributes;
use crate::context::{Context, ContextID};
use crate::context_ops::{
    bind_begin, bind_resumed, created_context, current_result, destroy_context_begin, destroy_context_resumed,
    next_context_id, unbind_begin, unbind_resumed, ContextCreation, ContextDestruction, SurfaceBinding,
    SurfaceUnbinding,
};
use crate::device::{attributes_supported, descriptor_for, info_of};
use crate::error::{Error, WindowingApiError};
use crate::native::{NativeCall, NativeReply, Step};
use crate::surface::{NativeFramebuffer, NativeTexture, Size2D, Surface, SurfaceTexture};
use crate::surface_ops::{
    create_surface_begin, create_surface_resumed, create_surface_texture_begin,
    create_surface_texture_resumed, destroy_surface_begin, destroy_surface_texture_begin,
    destroy_surface_texture_resumed, present_resumed, resize_bound_begin, resize_bound_resumed, resize_resumed,
    BoundSurfaceResize, SurfaceCreation, SurfaceResize, SurfaceTextureCreation,
    SurfacePresentation, SurfaceTextureDestruction,
};

verus! {

/// A descriptor is made exactly from supported attributes, and it gives
/// those attributes back.
pub proof fn lemma_descriptor_round_trip(attributes: ContextAttributes)
    ensures
        descriptor_for(attributes) is Ok <==> attributes_supported(attributes),
        descriptor_for(attributes) matches Ok(descriptor) ==> descriptor.0 == attributes,
{
}

/// Each context takes an identifier greater than the one before it, so no
/// two contexts made from one counter share an identifier.
pub proof fn lemma_context_ids_increase(id: ContextID)
    requires
        id.0 < u64::MAX,
    ensures
        next_context_id(id).0 == id.0 + 1,
        next_context_id(id).0 > id.0,
        next_context_id(id) != id,
{
}

/// One move of a context-identifier counter by a context creation: either
/// no identifier was taken (a refused null native context), or the counter,
/// still below its limit, went up to the identifier of the new context.
pub open spec fn counter_moved(counters: Seq<ContextID>, k: int) -> bool {
    counters[k + 1] == counters[k] || took_id(counters, k)
}

/// Whether creation number `k` of a counter's history took an identifier:
/// the counter, below its limit, went up to the new context's identifier.
pub open spec fn took_id(counters: Seq<ContextID>, k: int) -> bool {
    counters[k].0 < u64::MAX && counters[k + 1] == next_context_id(counters[k])
}

/// Whether a counter went through `counters` by context creations, one
/// creation between each value and the next.
pub open spec fn counter_history(counters: Seq<ContextID>) -> bool {
    forall|k: int| 0 <= k < counters.len() - 1 ==> #[trigger] counter_moved(counters, k)
}

/// A counter never goes back over a history of creations.
pub proof fn lemma_counter_never_goes_back(counters: Seq<ContextID>, i: int, j: int)
    requires
        counter_history(counters),
        0 <= i <= j < counters.len(),
    ensures
        counters[i].0 <= counters[j].0,
    decreases j - i,
{
    if i < j {
        assert(counter_moved(counters, j - 1));
        lemma_counter_never_goes_back(counters, i, j - 1);
    }
}

/// Over any history of creations on one counter, the contexts made later
/// have greater identifiers: if creations number `k` and `m` (with `k < m`)
/// each took an identifier, the later one's is greater, so no two contexts
/// made from one counter share an identifier.
pub proof fn lemma_context_ids_increase_over_history(counters: Seq<ContextID>, k: int, m: int)
    requires
        counter_history(counters),
        0 <= k < m < counters.len() - 1,
        took_id(counters, k),
        took_id(counters, m),
    ensures
        counters[k + 1].0 < counters[m + 1].0,
{
    assert(counter_moved(counters, k));
    assert(counter_moved(counters, m));
    lemma_counter_never_goes_back(counters, k + 1, m);
}

/// A newly created context has a native context, the identifier it was
/// given, and no surface, so it is well formed.
pub proof fn lemma_new_contexts_are_well_formed(creation: ContextCreation, reply: NativeReply)
    ensures
        created_context(creation, reply) matches Ok(context) ==> {
            &&& context.native != 0
            &&& context.id == creation.id
            &&& context.surface is None
            &&& context.wf()
        },
        created_context(creation, reply) is Err <==> reply.handle() == 0,
{
}

/// Binding a surface to a context without one and then unbinding it, with
/// every make-current succeeding, gives back the surface and leaves the
/// context as it was.
pub proof fn lemma_unbind_gives_back_bound_surface(
    context: Context,
    surface: Surface,
    bind_reply: NativeReply,
    finish_reply: NativeReply,
)
    requires
        context.surface is None,
        surface.context_id == context.id,
    ensures
        bind_begin(context, surface) == Step::<SurfaceBinding, Result<(), (Error, Surface)>>::Call(
            NativeCall::MakeCurrent { context: context.native },
            SurfaceBinding::AwaitingCurrent(surface),
        ),
        bind_resumed(context, SurfaceBinding::AwaitingCurrent(surface), NativeReply::Flag(true))
            == (context, Step::<SurfaceBinding, Result<(), (Error, Surface)>>::Call(
            NativeCall::BindSurface { surface: surface.native },
            SurfaceBinding::AwaitingBind(surface),
        )),
        ({
            let bound = Context { surface: Some(surface), ..context };
            &&& bind_resumed(context, SurfaceBinding::AwaitingBind(surface), bind_reply) == (
                bound,
                Step::<SurfaceBinding, Result<(), (Error, Surface)>>::Done(Ok(())),
            )
            &&& unbind_begin(bound) == Step::<
                SurfaceUnbinding,
                Result<Option<Surface>, Error>,
            >::Call(NativeCall::MakeCurrent { context: context.native }, SurfaceUnbinding::AwaitingCurrent)
            &&& unbind_resumed(bound, SurfaceUnbinding::AwaitingCurrent, NativeReply::Flag(true))
                == (bound, Step::<SurfaceUnbinding, Result<Option<Surface>, Error>>::Call(
                NativeCall::FinishSurface,
                SurfaceUnbinding::AwaitingFinish,
            ))
            &&& unbind_resumed(bound, SurfaceUnbinding::AwaitingFinish, finish_reply) == (
                context,
                Step::<SurfaceUnbinding, Result<Option<Surface>, Error>>::Done(Ok(Some(surface))),
            )
        }),
{
}

/// A bind that fails hands back the very surface it was given, and leaves
/// the context unchanged.
pub proof fn lemma_failed_bind_hands_back_surface(
    context: Context,
    surface: Surface,
    binding: SurfaceBinding,
    reply: NativeReply,
)
    ensures
        bind_begin(context, surface) matches Step::Done(Err((_, handed_back))) ==> handed_back
            == surface,
        bind_begin(context, surface) matches Step::Call(_, next) ==> next.surface() == surface,
        ({
            let (after, step) = bind_resumed(context, binding, reply);
            &&& step matches Step::Done(Err((_, handed_back))) ==> handed_back == binding.surface()
                && after == context
            &&& step matches Step::Call(_, next) ==> next.surface() == binding.surface()
        }),
{
}

/// The operations that hold a surface for a context hand out states that
/// fit it: binding and resizing the bound surface start with a state that
/// fits the context afterwards, and every state they go on with fits again.
pub proof fn lemma_states_fit_their_context(
    context: Context,
    surface: Surface,
    binding: SurfaceBinding,
    size: Size2D,
    resizing: BoundSurfaceResize,
    reply: NativeReply,
)
    ensures
        bind_begin(context, surface) matches Step::Call(_, first) ==> first.fits(context),
        binding.fits(context) ==> ({
            let (after, step) = bind_resumed(context, binding, reply);
            step matches Step::Call(_, next) ==> next.fits(after)
        }),
        ({
            let (after, step) = resize_bound_begin(context, size);
            step matches Step::Call(_, first) ==> first.fits(after)
        }),
        resizing.fits(context) ==> ({
            let (after, step) = resize_bound_resumed(context, resizing, reply);
            step matches Step::Call(_, next) ==> next.fits(after)
        }),
{
}

/// Binding only goes ahead with a surface of the context itself, and a well
/// formed context stays well formed through binding and unbinding.
pub proof fn lemma_binding_keeps_context_well_formed(
    context: Context,
    surface: Surface,
    binding: SurfaceBinding,
    unbinding: SurfaceUnbinding,
    reply: NativeReply,
)
    requires
        context.wf(),
    ensures
        bind_begin(context, surface) is Call ==> surface.context_id == context.id
            && context.surface is None,
        binding.surface().wf() && binding.surface().context_id == context.id ==> bind_resumed(
            context,
            binding,
            reply,
        ).0.wf(),
        unbind_resumed(context, unbinding, reply).0.wf(),
{
}

/// When the context cannot be made current, every operation that waited for
/// it stops there, makes no further native call, reports the failure, and
/// hands back what it was given.
pub proof fn lemma_refused_make_current_stops_operations(
    context: Context,
    surface: Surface,
    surface_texture: SurfaceTexture,
    size: Size2D,
    reply: NativeReply,
)
    requires
        !reply.flag(),
    ensures
        ({
            let failed = Error::MakeCurrentFailed(WindowingApiError::Failed);
            &&& bind_resumed(context, SurfaceBinding::AwaitingCurrent(surface), reply) == (
                context,
                Step::<SurfaceBinding, Result<(), (Error, Surface)>>::Done(Err((failed, surface))),
            )
            &&& unbind_resumed(context, SurfaceUnbinding::AwaitingCurrent, reply) == (
                context,
                Step::<SurfaceUnbinding, Result<Option<Surface>, Error>>::Done(Err(failed)),
            )
            &&& destroy_context_resumed(
                context,
                ContextDestruction::Unbinding(SurfaceUnbinding::AwaitingCurrent),
                reply,
            ) == (context, Step::<ContextDestruction, Result<(), Error>>::Done(Err(failed)))
            &&& create_surface_resumed(context, SurfaceCreation::AwaitingCurrent { size }, reply)
                == Step::<SurfaceCreation, Result<Surface, Error>>::Done(Err(failed))
            &&& create_surface_texture_resumed(
                context,
                SurfaceTextureCreation::AwaitingCurrent(surface),
                reply,
            ) == Step::<SurfaceTextureCreation, Result<SurfaceTexture, (Error, Surface)>>::Done(
                Err((failed, surface)),
            )
            &&& destroy_surface_texture_resumed(
                SurfaceTextureDestruction::AwaitingCurrent(surface_texture),
                reply,
            ) == Step::<SurfaceTextureDestruction, Result<Surface, (Error, SurfaceTexture)>>::Done(
                Err((failed, surface_texture)),
            )
            &&& present_resumed(SurfacePresentation::AwaitingCurrent, reply) == Step::<
                SurfacePresentation,
                Result<(), Error>,
            >::Done(Err(failed))
            &&& current_result(reply) == Err::<(), Error>(failed)
        }),
{
}

/// A context whose destruction finishes without error is null, and every
/// step of a destruction keeps the same native context until then.
pub proof fn lemma_destroyed_context_is_null(
    context: Context,
    destruction: ContextDestruction,
    reply: NativeReply,
)
    ensures
        ({
            let (after, step) = destroy_context_resumed(context, destruction, reply);
            &&& step matches Step::Done(Ok(_)) ==> after.native == 0
            &&& step is Call ==> after.native == context.native
        }),
        destroy_context_begin(context) !is Done || destroy_context_begin(context) matches Step::Done(
            Err(_),
        ),
{
}

/// Destroying a context that has a live surface bound, with every call
/// succeeding: the surface is unbound and destroyed, the native context is
/// released, and the context ends null and without a surface.
pub proof fn lemma_destroy_context_with_surface(
    context: Context,
    surface: Surface,
    finish_reply: NativeReply,
    destroy_reply: NativeReply,
    release_reply: NativeReply,
)
    requires
        context.surface == Some(surface),
        surface.context_id == context.id,
        surface.native != 0,
    ensures
        destroy_context_begin(context) == Step::<ContextDestruction, Result<(), Error>>::Call(
            NativeCall::MakeCurrent { context: context.native },
            ContextDestruction::Unbinding(SurfaceUnbinding::AwaitingCurrent),
        ),
        destroy_context_resumed(
            context,
            ContextDestruction::Unbinding(SurfaceUnbinding::AwaitingCurrent),
            NativeReply::Flag(true),
        ) == (context, Step::<ContextDestruction, Result<(), Error>>::Call(
            NativeCall::FinishSurface,
            ContextDestruction::Unbinding(SurfaceUnbinding::AwaitingFinish),
        )),
        ({
            let unbound = Context { surface: None, ..context };
            &&& destroy_context_resumed(
                context,
                ContextDestruction::Unbinding(SurfaceUnbinding::AwaitingFinish),
                finish_reply,
            ) == (unbound, Step::<ContextDestruction, Result<(), Error>>::Call(
                NativeCall::DestroySurface { context: context.native, surface: surface.native },
                ContextDestruction::DestroyingSurface(surface),
            ))
            &&& destroy_context_resumed(
                unbound,
                ContextDestruction::DestroyingSurface(surface),
                destroy_reply,
            ) == (unbound, Step::<ContextDestruction, Result<(), Error>>::Call(
                NativeCall::ReleaseContext { context: context.native },
                ContextDestruction::Releasing,
            ))
            &&& destroy_context_resumed(unbound, ContextDestruction::Releasing, release_reply) == (
                Context { native: 0, surface: None, ..context },
                Step::<ContextDestruction, Result<(), Error>>::Done(Ok(())),
            )
        }),
{
}

/// Destroying a context without a surface releases the native context at once.
pub proof fn lemma_destroy_context_without_surface(context: Context, release_reply: NativeReply)
    requires
        context.surface is None,
    ensures
        destroy_context_begin(context) == Step::<ContextDestruction, Result<(), Error>>::Call(
            NativeCall::ReleaseContext { context: context.native },
            ContextDestruction::Releasing,
        ),
        destroy_context_resumed(context, ContextDestruction::Releasing, release_reply) == (
            Context { native: 0, ..context },
            Step::<ContextDestruction, Result<(), Error>>::Done(Ok(())),
        ),
{
}

/// Creating a generic surface with every call succeeding gives a surface of
/// the context, of the requested size, holding the native surface and the
/// framebuffer and texture objects that the native layer named.
pub proof fn lemma_create_surface_succeeds(
    context: Context,
    size: Size2D,
    native: usize,
    framebuffer: u32,
    texture: u32,
)
    requires
        native != 0,
        framebuffer != 0,
        texture != 0,
    ensures
        create_surface_resumed(
            context,
            SurfaceCreation::AwaitingCurrent { size },
            NativeReply::Flag(true),
        ) == Step::<SurfaceCreation, Result<Surface, Error>>::Call(
            NativeCall::CreateSurface {
                context: context.native,
                width: size.width,
                height: size.height,
            },
            SurfaceCreation::AwaitingSurface { size },
        ),
        create_surface_resumed(
            context,
            SurfaceCreation::AwaitingSurface { size },
            NativeReply::Handle(native),
        ) == Step::<SurfaceCreation, Result<Surface, Error>>::Call(
            NativeCall::SurfaceFramebuffer { surface: native },
            SurfaceCreation::AwaitingFramebuffer { size, native },
        ),
        create_surface_resumed(
            context,
            SurfaceCreation::AwaitingFramebuffer { size, native },
            NativeReply::Name(framebuffer),
        ) == Step::<SurfaceCreation, Result<Surface, Error>>::Call(
            NativeCall::SurfaceTexture { surface: native },
            SurfaceCreation::AwaitingTexture { size, native, framebuffer },
        ),
        create_surface_resumed(
            context,
            SurfaceCreation::AwaitingTexture { size, native, framebuffer },
            NativeReply::Name(texture),
        ) == Step::<SurfaceCreation, Result<Surface, Error>>::Done(
            Ok(
                Surface {
                    native,
                    context_id: context.id,
                    size,
                    framebuffer: NativeFramebuffer(framebuffer),
                    texture: NativeTexture(texture),
                },
            ),
        ),
{
}

/// Every surface that a creation hands out is well formed, belongs to the
/// context, and has a native surface; creations stay well formed from step
/// to step.
pub proof fn lemma_created_surfaces_are_well_formed(
    context: Context,
    creation: SurfaceCreation,
    reply: NativeReply,
)
    requires
        creation.wf(),
    ensures
        create_surface_resumed(context, creation, reply) matches Step::Done(Ok(surface)) ==> {
            &&& surface.wf()
            &&& surface.context_id == context.id
            &&& surface.native != 0
        },
        create_surface_resumed(context, creation, reply) matches Step::Call(_, next) ==> next.wf(),
        forall|surface_type| #[trigger]
            create_surface_begin(context, surface_type) matches Step::Call(_, first) ==> first.wf(),
{
}

/// A native surface that comes without a framebuffer or a texture object
/// is destroyed again, and the creation fails.
pub proof fn lemma_unusable_surface_is_destroyed(
    context: Context,
    size: Size2D,
    native: usize,
    framebuffer: u32,
    reply: NativeReply,
    destroy_reply: NativeReply,
)
    requires
        framebuffer == 0 || reply.name() == 0,
    ensures
        create_surface_resumed(
            context,
            SurfaceCreation::AwaitingTexture { size, native, framebuffer },
            reply,
        ) == Step::<SurfaceCreation, Result<Surface, Error>>::Call(
            NativeCall::DestroySurface { context: context.native, surface: native },
            SurfaceCreation::AwaitingDestroy,
        ),
        create_surface_resumed(context, SurfaceCreation::AwaitingDestroy, destroy_reply)
            == Step::<SurfaceCreation, Result<Surface, Error>>::Done(
            Err(Error::SurfaceCreationFailed(WindowingApiError::Failed)),
        ),
{
}

/// A surface that a context created can be bound to it, once it has no surface.
pub proof fn lemma_created_surface_can_be_bound(
    context: Context,
    creation: SurfaceCreation,
    reply: NativeReply,
)
    requires
        context.surface is None,
    ensures
        create_surface_resumed(context, creation, reply) matches Step::Done(Ok(surface))
            ==> bind_begin(context, surface) == Step::<
            SurfaceBinding,
            Result<(), (Error, Surface)>,
        >::Call(
            NativeCall::MakeCurrent { context: context.native },
            SurfaceBinding::AwaitingCurrent(surface),
        ),
{
}

/// Making a texture of a surface and destroying it again, with every call
/// succeeding, gives back the surface.
pub proof fn lemma_surface_texture_round_trip(
    context: Context,
    surface: Surface,
    native: usize,
    name: u32,
    destroy_reply: NativeReply,
)
    requires
        native != 0,
        name != 0,
    ensures
        create_surface_texture_begin(context, surface) == Step::<
            SurfaceTextureCreation,
            Result<SurfaceTexture, (Error, Surface)>,
        >::Call(
            NativeCall::MakeCurrent { context: context.native },
            SurfaceTextureCreation::AwaitingCurrent(surface),
        ),
        create_surface_texture_resumed(
            context,
            SurfaceTextureCreation::AwaitingCurrent(surface),
            NativeReply::Flag(true),
        ) == Step::<SurfaceTextureCreation, Result<SurfaceTexture, (Error, Surface)>>::Call(
            NativeCall::CreateSurfaceTexture { context: context.native, surface: surface.native },
            SurfaceTextureCreation::AwaitingTexture(surface),
        ),
        create_surface_texture_resumed(
            context,
            SurfaceTextureCreation::AwaitingTexture(surface),
            NativeReply::Handle(native),
        ) == Step::<SurfaceTextureCreation, Result<SurfaceTexture, (Error, Surface)>>::Call(
            NativeCall::SurfaceTextureName { texture: native },
            SurfaceTextureCreation::AwaitingName { surface, native },
        ),
        ({
            let surface_texture = SurfaceTexture { native, surface, texture: NativeTexture(name) };
            &&& create_surface_texture_resumed(
                context,
                SurfaceTextureCreation::AwaitingName { surface, native },
                NativeReply::Name(name),
            ) == Step::<SurfaceTextureCreation, Result<SurfaceTexture, (Error, Surface)>>::Done(
                Ok(surface_texture),
            )
            &&& destroy_surface_texture_begin(context, surface_texture) == Step::<
                SurfaceTextureDestruction,
                Result<Surface, (Error, SurfaceTexture)>,
            >::Call(
                NativeCall::MakeCurrent { context: context.native },
                SurfaceTextureDestruction::AwaitingCurrent(surface_texture),
            )
            &&& destroy_surface_texture_resumed(
                SurfaceTextureDestruction::AwaitingCurrent(surface_texture),
                NativeReply::Flag(true),
            ) == Step::<SurfaceTextureDestruction, Result<Surface, (Error, SurfaceTexture)>>::Call(
                NativeCall::DestroySurfaceTexture { texture: native },
                SurfaceTextureDestruction::AwaitingDestroy(surface_texture),
            )
            &&& destroy_surface_texture_resumed(
                SurfaceTextureDestruction::AwaitingDestroy(surface_texture),
                destroy_reply,
            ) == Step::<SurfaceTextureDestruction, Result<Surface, (Error, SurfaceTexture)>>::Done(
                Ok(surface),
            )
        }),
{
}

/// A surface texture creation that fails hands back the surface it was given.
pub proof fn lemma_failed_surface_texture_hands_back_surface(
    context: Context,
    creation: SurfaceTextureCreation,
    reply: NativeReply,
)
    ensures
        create_surface_texture_resumed(context, creation, reply) matches Step::Done(
            Err((_, handed_back)),
        ) ==> handed_back == match creation {
            SurfaceTextureCreation::AwaitingCurrent(surface) => surface,
            SurfaceTextureCreation::AwaitingTexture(surface) => surface,
            SurfaceTextureCreation::AwaitingName { surface, .. } => surface,
            SurfaceTextureCreation::AwaitingDestroy(surface) => surface,
        },
{
}

/// Destroying a surface of the context calls the native layer for that
/// surface, and destroying it a second time succeeds without any call.
pub proof fn lemma_destroy_surface_twice(context: Context, surface: Surface)
    requires
        surface.context_id == context.id,
        surface.native != 0,
    ensures
        destroy_surface_begin(context, surface) == Step::<(), Result<(), Error>>::Call(
            NativeCall::DestroySurface { context: context.native, surface: surface.native },
            (),
        ),
        destroy_surface_begin(context, Surface { native: 0, ..surface }) == Step::<
            (),
            Result<(), Error>,
        >::Done(Ok(())),
{
}

/// Resizing with every call succeeding gives the surface its new size and
/// its new framebuffer and texture objects.
pub proof fn lemma_resize_succeeds(
    surface: Surface,
    size: Size2D,
    framebuffer: u32,
    texture: u32,
)
    requires
        framebuffer != 0,
        texture != 0,
    ensures
        resize_resumed(surface, SurfaceResize::AwaitingResize { size }, NativeReply::Flag(true))
            == (surface, Step::<SurfaceResize, Result<(), Error>>::Call(
            NativeCall::SurfaceFramebuffer { surface: surface.native },
            SurfaceResize::AwaitingFramebuffer { size },
        )),
        resize_resumed(
            surface,
            SurfaceResize::AwaitingFramebuffer { size },
            NativeReply::Name(framebuffer),
        ) == (surface, Step::<SurfaceResize, Result<(), Error>>::Call(
            NativeCall::SurfaceTexture { surface: surface.native },
            SurfaceResize::AwaitingTexture { size, framebuffer },
        )),
        resize_resumed(
            surface,
            SurfaceResize::AwaitingTexture { size, framebuffer },
            NativeReply::Name(texture),
        ) == (
            Surface {
                size,
                framebuffer: NativeFramebuffer(framebuffer),
                texture: NativeTexture(texture),
                ..surface
            },
            Step::<SurfaceResize, Result<(), Error>>::Done(Ok(())),
        ),
{
}

/// Resizing never changes which native surface and which context a surface
/// has, and keeps a well formed surface well formed whatever the replies.
pub proof fn lemma_resize_keeps_identity(surface: Surface, resize: SurfaceResize, reply: NativeReply)
    ensures
        ({
            let (after, _) = resize_resumed(surface, resize, reply);
            &&& after.native == surface.native
            &&& after.context_id == surface.context_id
            &&& surface.wf() ==> after.wf()
        }),
{
}

/// Resizing the bound surface keeps a well formed context well formed, and
/// when the resizing ends the surface is bound to the context again.
pub proof fn lemma_resize_bound_keeps_surface(
    context: Context,
    size: Size2D,
    resizing: BoundSurfaceResize,
    reply: NativeReply,
)
    requires
        context.wf(),
    ensures
        ({
            let (after, step) = resize_bound_begin(context, size);
            &&& step is Done ==> after == context
            &&& step matches Step::Call(_, next) ==> after == Context { surface: None, ..context }
                && context.surface == Some(next.surface())
        }),
        resizing.surface().wf() && resizing.surface().context_id == context.id ==> {
            let (after, step) = resize_bound_resumed(context, resizing, reply);
            &&& after.wf()
            &&& step is Done ==> (after.surface matches Some(s) && s.native
                == resizing.surface().native)
            &&& step matches Step::Call(_, next) ==> next.surface().wf()
                && next.surface().context_id == context.id && after == context
        },
{
}

/// What a device reports about a context's surface is what it reports about
/// that surface, and names the context itself when the context is well formed.
pub proof fn lemma_bound_surface_info(context: Context)
    requires
        context.wf(),
    ensures
        context.surface matches Some(surface) ==> info_of(surface).context_id == context.id
            && info_of(surface).framebuffer_object == Some(surface.framebuffer)
            && info_of(surface).framebuffer_object.unwrap().0 != 0,
{
}

} // verus!
