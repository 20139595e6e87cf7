//! Device operations on contexts: creating, destroying, making current, and
//! binding surfaces.

use vstd::prelude::*;

use crate::attributes::{ContextAttributeFlags, ContextAttributes, GLVersion};
use crate::context::{Context, ContextDescriptor, ContextID, NativeContext};
use crate::device::Device;
use crate::error::{Error, WindowingApiError};
use crate::native::{NativeCall, NativeReply, Step};
use crate::surface::Surface;
use crate::surface_ops::destroy_surface_begin;

verus! {

/// What a make-current or clear-current reply means for the operation.
pub open spec fn current_result(reply: NativeReply) -> Result<(), Error> {
    if reply.flag() {
        Ok(())
    } else {
        Err(Error::MakeCurrentFailed(WindowingApiError::Failed))
    }
}

/// The identifier that follows `id`.
pub open spec fn next_context_id(id: ContextID) -> ContextID {
    ContextID((id.0 + 1) as u64)
}

/// The descriptor given to contexts that wrap a native context: OpenGL ES 3.0
/// with alpha, depth and stencil.
pub open spec fn wrapped_context_descriptor() -> ContextDescriptor {
    ContextDescriptor(
        ContextAttributes {
            version: GLVersion { major: 3, minor: 0 },
            flags: ContextAttributeFlags {
                alpha: true,
                depth: true,
                stencil: true,
                compatibility_profile: false,
            },
        },
    )
}

/// A context creation that waits for the native context.
#[derive(Debug, PartialEq, Eq, Structural)]
pub struct ContextCreation {
    /// The identifier the new context gets.
    pub id: ContextID,
    /// The descriptor the new context gets.
    pub descriptor: ContextDescriptor,
}

/// What creating a context gives once the native layer answered.
pub open spec fn created_context(creation: ContextCreation, reply: NativeReply) -> Result<
    Context,
    Error,
> {
    if reply.handle() == 0 {
        Err(Error::ContextCreationFailed(WindowingApiError::Failed))
    } else {
        Ok(
            Context {
                native: reply.handle(),
                id: creation.id,
                surface: None,
                descriptor: creation.descriptor,
            },
        )
    }
}

/// A binding of a surface to a context, in progress.
#[derive(Debug, PartialEq, Eq, Structural)]
pub enum SurfaceBinding {
    /// Waiting for the context to become current.
    AwaitingCurrent(Surface),
    /// Waiting for the native surface to be bound.
    AwaitingBind(Surface),
}

impl SurfaceBinding {
    /// The surface that is being bound.
    pub open spec fn surface(self) -> Surface {
        match self {
            SurfaceBinding::AwaitingCurrent(surface) => surface,
            SurfaceBinding::AwaitingBind(surface) => surface,
        }
    }

    /// A binding fits a context when the context has no surface yet and the
    /// surface being bound belongs to it, as binding checks before it starts.
    pub open spec fn fits(self, context: Context) -> bool {
        &&& context.surface is None
        &&& self.surface().context_id == context.id
    }

    /// Whether the binding fits the context.
    pub fn fits_context(&self, context: &Context) -> (result: bool)
        ensures
            result == self.fits(*context),
    {
        let surface = match self {
            SurfaceBinding::AwaitingCurrent(surface) => surface,
            SurfaceBinding::AwaitingBind(surface) => surface,
        };
        context.surface.is_none() && surface.context_id == context.id
    }
}

/// How binding `surface` to `context` starts.
pub open spec fn bind_begin(context: Context, surface: Surface) -> Step<
    SurfaceBinding,
    Result<(), (Error, Surface)>,
> {
    if context.surface is Some {
        Step::Done(Err((Error::SurfaceAlreadyBound, surface)))
    } else if surface.context_id != context.id {
        Step::Done(Err((Error::IncompatibleSurface, surface)))
    } else {
        Step::Call(
            NativeCall::MakeCurrent { context: context.native },
            SurfaceBinding::AwaitingCurrent(surface),
        )
    }
}

/// How binding goes on after a reply: the context afterwards, and the next step.
pub open spec fn bind_resumed(context: Context, binding: SurfaceBinding, reply: NativeReply) -> (
    Context,
    Step<SurfaceBinding, Result<(), (Error, Surface)>>,
) {
    match binding {
        SurfaceBinding::AwaitingCurrent(surface) => {
            if reply.flag() {
                (
                    context,
                    Step::Call(
                        NativeCall::BindSurface { surface: surface.native },
                        SurfaceBinding::AwaitingBind(surface),
                    ),
                )
            } else {
                (
                    context,
                    Step::Done(Err((Error::MakeCurrentFailed(WindowingApiError::Failed), surface))),
                )
            }
        },
        SurfaceBinding::AwaitingBind(surface) => (
            Context { surface: Some(surface), ..context },
            Step::Done(Ok(())),
        ),
    }
}

/// An unbinding of a context's surface, in progress.
#[derive(Clone, Copy, Debug, PartialEq, Eq, Structural)]
pub enum SurfaceUnbinding {
    /// Waiting for the context to become current.
    AwaitingCurrent,
    /// Waiting for rendering to the surface to complete.
    AwaitingFinish,
}

/// How unbinding the surface of `context` starts.
pub open spec fn unbind_begin(context: Context) -> Step<
    SurfaceUnbinding,
    Result<Option<Surface>, Error>,
> {
    if context.surface is None {
        Step::Done(Ok(None))
    } else {
        Step::Call(
            NativeCall::MakeCurrent { context: context.native },
            SurfaceUnbinding::AwaitingCurrent,
        )
    }
}

/// How unbinding goes on after a reply: the context afterwards, and the next step.
pub open spec fn unbind_resumed(
    context: Context,
    unbinding: SurfaceUnbinding,
    reply: NativeReply,
) -> (Context, Step<SurfaceUnbinding, Result<Option<Surface>, Error>>) {
    match unbinding {
        SurfaceUnbinding::AwaitingCurrent => {
            if reply.flag() {
                (context, Step::Call(NativeCall::FinishSurface, SurfaceUnbinding::AwaitingFinish))
            } else {
                (context, Step::Done(Err(Error::MakeCurrentFailed(WindowingApiError::Failed))))
            }
        },
        SurfaceUnbinding::AwaitingFinish => (
            Context { surface: None, ..context },
            Step::Done(Ok(context.surface)),
        ),
    }
}

/// A destruction of a context, in progress.
#[derive(Debug, PartialEq, Eq, Structural)]
pub enum ContextDestruction {
    /// Unbinding the context's surface.
    Unbinding(SurfaceUnbinding),
    /// Destroying the surface that was unbound.
    DestroyingSurface(Surface),
    /// Releasing the native context.
    Releasing,
}

/// How destroying a context goes on once its surface has been unbound.
pub open spec fn destroy_context_after_unbind(
    context: Context,
    unbound: Result<Option<Surface>, Error>,
) -> Step<ContextDestruction, Result<(), Error>> {
    match unbound {
        Err(e) => Step::Done(Err(e)),
        Ok(None) => Step::Call(
            NativeCall::ReleaseContext { context: context.native },
            ContextDestruction::Releasing,
        ),
        Ok(Some(surface)) => match destroy_surface_begin(context, surface) {
            Step::Done(Err(e)) => Step::Done(Err(e)),
            Step::Done(Ok(_)) => Step::Call(
                NativeCall::ReleaseContext { context: context.native },
                ContextDestruction::Releasing,
            ),
            Step::Call(call, _) => Step::Call(call, ContextDestruction::DestroyingSurface(surface)),
        },
    }
}

/// How destroying `context` starts.
pub open spec fn destroy_context_begin(context: Context) -> Step<
    ContextDestruction,
    Result<(), Error>,
> {
    match unbind_begin(context) {
        Step::Call(call, unbinding) => Step::Call(call, ContextDestruction::Unbinding(unbinding)),
        Step::Done(unbound) => destroy_context_after_unbind(context, unbound),
    }
}

/// How destroying a context goes on after a reply: the context afterwards,
/// and the next step.
pub open spec fn destroy_context_resumed(
    context: Context,
    destruction: ContextDestruction,
    reply: NativeReply,
) -> (Context, Step<ContextDestruction, Result<(), Error>>) {
    match destruction {
        ContextDestruction::Unbinding(unbinding) => {
            let (after, step) = unbind_resumed(context, unbinding, reply);
            match step {
                Step::Call(call, next) => (after, Step::Call(call, ContextDestruction::Unbinding(next))),
                Step::Done(unbound) => (after, destroy_context_after_unbind(after, unbound)),
            }
        },
        ContextDestruction::DestroyingSurface(_) => (
            context,
            Step::Call(
                NativeCall::ReleaseContext { context: context.native },
                ContextDestruction::Releasing,
            ),
        ),
        ContextDestruction::Releasing => (Context { native: 0, ..context }, Step::Done(Ok(()))),
    }
}

impl Device {
    /// Starts creating a context: takes the next identifier from `next_id`
    /// and asks for a native context that shares objects with `share_with`.
    pub fn create_context(
        &self,
        descriptor: &ContextDescriptor,
        share_with: Option<&Context>,
        next_id: &mut ContextID,
    ) -> (result: (NativeCall, ContextCreation))
        requires
            old(next_id).0 < u64::MAX,
        ensures
            *final(next_id) == next_context_id(*old(next_id)),
            result.0 == (NativeCall::CreateContext {
                shared: match share_with {
                    Some(context) => context.native,
                    None => 0usize,
                },
            }),
            result.1 == (ContextCreation { id: *final(next_id), descriptor: *descriptor }),
    {
        next_id.0 = next_id.0 + 1;
        let shared = match share_with {
            Some(context) => context.native,
            None => 0,
        };
        (NativeCall::CreateContext { shared }, ContextCreation { id: *next_id, descriptor: *descriptor })
    }

    /// Finishes creating a context with the native layer's reply.
    pub fn resume_create_context(&self, creation: ContextCreation, reply: NativeReply) -> (result:
        Result<Context, Error>)
        ensures
            result == created_context(creation, reply),
    {
        let native = reply.handle();
        if native == 0 {
            return Err(Error::ContextCreationFailed(WindowingApiError::Failed));
        }
        Ok(Context { native, id: creation.id, surface: None, descriptor: creation.descriptor })
    }

    /// Wraps a retained native context; a null one is refused and takes no identifier.
    pub fn create_context_from_native_context(
        &self,
        native_context: NativeContext,
        next_id: &mut ContextID,
    ) -> (result: Result<Context, Error>)
        requires
            native_context.0 != 0 ==> old(next_id).0 < u64::MAX,
        ensures
            native_context.0 == 0 ==> *final(next_id) == *old(next_id) && result == Err::<
                Context,
                Error,
            >(Error::IncompatibleNativeContext),
            native_context.0 != 0 ==> *final(next_id) == next_context_id(*old(next_id))
                && result == Ok::<Context, Error>(
                Context {
                    native: native_context.0,
                    id: *final(next_id),
                    surface: None,
                    descriptor: wrapped_context_descriptor(),
                },
            ),
    {
        if native_context.0 == 0 {
            return Err(Error::IncompatibleNativeContext);
        }
        next_id.0 = next_id.0 + 1;
        let flags = ContextAttributeFlags {
            alpha: true,
            depth: true,
            stencil: true,
            compatibility_profile: false,
        };
        let descriptor = ContextDescriptor(
            ContextAttributes { flags, version: GLVersion::new(3, 0) },
        );
        Ok(Context { native: native_context.0, id: *next_id, surface: None, descriptor })
    }

    /// Starts destroying a context: unbinds and destroys its surface, then
    /// releases the native context.
    pub fn destroy_context(&self, context: &Context) -> (step: Step<
        ContextDestruction,
        Result<(), Error>,
    >)
        ensures
            step == destroy_context_begin(*context),
    {
        match self.unbind_surface_from_context(context) {
            Step::Call(call, unbinding) => Step::Call(call, ContextDestruction::Unbinding(unbinding)),
            Step::Done(unbound) => self.destroy_context_after_unbind(context, unbound),
        }
    }

    fn destroy_context_after_unbind(
        &self,
        context: &Context,
        unbound: Result<Option<Surface>, Error>,
    ) -> (step: Step<ContextDestruction, Result<(), Error>>)
        ensures
            step == destroy_context_after_unbind(*context, unbound),
    {
        match unbound {
            Err(e) => Step::Done(Err(e)),
            Ok(None) => Step::Call(
                NativeCall::ReleaseContext { context: context.native },
                ContextDestruction::Releasing,
            ),
            Ok(Some(surface)) => match self.destroy_surface(context, &surface) {
                Step::Done(Err(e)) => Step::Done(Err(e)),
                Step::Done(Ok(_)) => Step::Call(
                    NativeCall::ReleaseContext { context: context.native },
                    ContextDestruction::Releasing,
                ),
                Step::Call(call, _) => Step::Call(
                    call,
                    ContextDestruction::DestroyingSurface(surface),
                ),
            },
        }
    }

    /// Goes on destroying a context after a reply.
    pub fn resume_destroy_context(
        &self,
        context: &mut Context,
        destruction: ContextDestruction,
        reply: NativeReply,
    ) -> (step: Step<ContextDestruction, Result<(), Error>>)
        ensures
            (*final(context), step) == destroy_context_resumed(*old(context), destruction, reply),
    {
        match destruction {
            ContextDestruction::Unbinding(unbinding) => {
                match self.resume_unbind_surface_from_context(context, unbinding, reply) {
                    Step::Call(call, next) => Step::Call(call, ContextDestruction::Unbinding(next)),
                    Step::Done(unbound) => self.destroy_context_after_unbind(context, unbound),
                }
            },
            ContextDestruction::DestroyingSurface(surface) => {
                let mut surface = surface;
                let _ = self.resume_destroy_surface(&mut surface);
                Step::Call(
                    NativeCall::ReleaseContext { context: context.native },
                    ContextDestruction::Releasing,
                )
            },
            ContextDestruction::Releasing => {
                context.native = 0;
                Step::Done(Ok(()))
            },
        }
    }

    /// The call that retains the native context of `context`.
    pub fn native_context(&self, context: &Context) -> (call: NativeCall)
        ensures
            call == (NativeCall::RetainContext { context: context.native }),
    {
        NativeCall::RetainContext { context: context.native }
    }

    /// The retained native context, from the native layer's reply.
    pub fn resume_native_context(&self, reply: NativeReply) -> (native: NativeContext)
        ensures
            native == NativeContext(reply.handle()),
    {
        NativeContext(reply.handle())
    }

    /// The call that makes `context` current.
    pub fn make_context_current(&self, context: &Context) -> (call: NativeCall)
        ensures
            call == (NativeCall::MakeCurrent { context: context.native }),
    {
        NativeCall::MakeCurrent { context: context.native }
    }

    /// Whether making a context current succeeded, from the native layer's reply.
    pub fn resume_make_context_current(&self, reply: NativeReply) -> (result: Result<(), Error>)
        ensures
            result == current_result(reply),
    {
        if reply.flag() {
            Ok(())
        } else {
            Err(Error::MakeCurrentFailed(WindowingApiError::Failed))
        }
    }

    /// The call that makes no context current.
    pub fn make_no_context_current(&self) -> (call: NativeCall)
        ensures
            call == NativeCall::ClearCurrent,
    {
        NativeCall::ClearCurrent
    }

    /// Whether clearing the current context succeeded, from the native layer's reply.
    pub fn resume_make_no_context_current(&self, reply: NativeReply) -> (result: Result<(), Error>)
        ensures
            result == current_result(reply),
    {
        self.resume_make_context_current(reply)
    }

    /// Starts binding a surface to a context. A context that has a surface
    /// already, or a surface of another context, is refused and the surface
    /// handed back.
    pub fn bind_surface_to_context(&self, context: &Context, surface: Surface) -> (step: Step<
        SurfaceBinding,
        Result<(), (Error, Surface)>,
    >)
        ensures
            step == bind_begin(*context, surface),
    {
        if context.surface.is_some() {
            return Step::Done(Err((Error::SurfaceAlreadyBound, surface)));
        }
        if surface.context_id != context.id {
            return Step::Done(Err((Error::IncompatibleSurface, surface)));
        }
        Step::Call(
            NativeCall::MakeCurrent { context: context.native },
            SurfaceBinding::AwaitingCurrent(surface),
        )
    }

    /// Goes on binding a surface after a reply.
    pub fn resume_bind_surface_to_context(
        &self,
        context: &mut Context,
        binding: SurfaceBinding,
        reply: NativeReply,
    ) -> (step: Step<SurfaceBinding, Result<(), (Error, Surface)>>)
        requires
            binding.fits(*old(context)),
        ensures
            (*final(context), step) == bind_resumed(*old(context), binding, reply),
    {
        match binding {
            SurfaceBinding::AwaitingCurrent(surface) => {
                match self.resume_make_context_current(reply) {
                    Ok(()) => Step::Call(
                        NativeCall::BindSurface { surface: surface.native },
                        SurfaceBinding::AwaitingBind(surface),
                    ),
                    Err(error) => Step::Done(Err((error, surface))),
                }
            },
            SurfaceBinding::AwaitingBind(surface) => {
                context.surface = Some(surface);
                Step::Done(Ok(()))
            },
        }
    }

    /// Starts unbinding the surface of a context; a context without one
    /// gives `None` at once.
    pub fn unbind_surface_from_context(&self, context: &Context) -> (step: Step<
        SurfaceUnbinding,
        Result<Option<Surface>, Error>,
    >)
        ensures
            step == unbind_begin(*context),
    {
        if context.surface.is_none() {
            return Step::Done(Ok(None));
        }
        Step::Call(
            NativeCall::MakeCurrent { context: context.native },
            SurfaceUnbinding::AwaitingCurrent,
        )
    }

    /// Goes on unbinding a surface after a reply.
    pub fn resume_unbind_surface_from_context(
        &self,
        context: &mut Context,
        unbinding: SurfaceUnbinding,
        reply: NativeReply,
    ) -> (step: Step<SurfaceUnbinding, Result<Option<Surface>, Error>>)
        ensures
            (*final(context), step) == unbind_resumed(*old(context), unbinding, reply),
    {
        match unbinding {
            SurfaceUnbinding::AwaitingCurrent => {
                match self.resume_make_context_current(reply) {
                    Ok(()) => Step::Call(NativeCall::FinishSurface, SurfaceUnbinding::AwaitingFinish),
                    Err(error) => Step::Done(Err(error)),
                }
            },
            SurfaceUnbinding::AwaitingFinish => Step::Done(Ok(context.surface.take())),
        }
    }
}

} // verus!
