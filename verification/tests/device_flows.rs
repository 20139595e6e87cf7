use surfman::context_ops::{ContextCreation, ContextDestruction, SurfaceBinding, SurfaceUnbinding};
use surfman::surface_ops::BoundSurfaceResize;
use surfman::surface_ops::SurfaceCreation;
use surfman::{
    Context, ContextAttributeFlags, ContextAttributes, ContextDescriptor, ContextID, Device,
    Error, GLVersion, NativeCall, NativeContext, NativeFramebuffer, NativeReply, NativeSurface,
    NativeTexture, NativeWidget, Size2D, Step, Surface, SurfaceAccess, SurfaceID, SurfaceInfo,
    SurfaceTexture, SurfaceType, WindowingApiError,
};

/// A scripted stand-in for the native EAGL layer.
struct FakeNative {
    next_address: usize,
    next_name: u32,
    make_current_ok: bool,
    create_surface_ok: bool,
    resize_ok: bool,
    zero_framebuffer: bool,
    zero_texture: bool,
    create_texture_ok: bool,
    calls: Vec<NativeCall>,
}

impl FakeNative {
    fn new() -> FakeNative {
        FakeNative {
            next_address: 0x1000,
            next_name: 1,
            make_current_ok: true,
            create_surface_ok: true,
            resize_ok: true,
            zero_framebuffer: false,
            zero_texture: false,
            create_texture_ok: true,
            calls: Vec::new(),
        }
    }

    fn address(&mut self) -> usize {
        self.next_address += 0x10;
        self.next_address
    }

    fn name(&mut self) -> u32 {
        self.next_name += 1;
        self.next_name
    }

    fn perform(&mut self, call: NativeCall) -> NativeReply {
        self.calls.push(call);
        match call {
            NativeCall::CreateContext { .. } => NativeReply::Handle(self.address()),
            NativeCall::RetainContext { context } => NativeReply::Handle(context),
            NativeCall::ReleaseContext { .. } => NativeReply::Done,
            NativeCall::MakeCurrent { .. } | NativeCall::ClearCurrent => {
                NativeReply::Flag(self.make_current_ok)
            }
            NativeCall::CreateSurface { .. } => {
                if self.create_surface_ok {
                    NativeReply::Handle(self.address())
                } else {
                    NativeReply::Handle(0)
                }
            }
            NativeCall::DestroySurface { .. } => NativeReply::Done,
            NativeCall::ResizeSurface { .. } => NativeReply::Flag(self.resize_ok),
            NativeCall::BindSurface { .. } | NativeCall::FinishSurface => NativeReply::Done,
            NativeCall::SurfaceFramebuffer { .. } => {
                if self.zero_framebuffer {
                    NativeReply::Name(0)
                } else {
                    NativeReply::Name(self.name())
                }
            }
            NativeCall::SurfaceTexture { .. } | NativeCall::SurfaceTextureName { .. } => {
                if self.zero_texture {
                    NativeReply::Name(0)
                } else {
                    NativeReply::Name(self.name())
                }
            }
            NativeCall::CopyIoSurface { surface } => NativeReply::Handle(surface + 1),
            NativeCall::CreateSurfaceTexture { .. } => {
                if self.create_texture_ok {
                    NativeReply::Handle(self.address())
                } else {
                    NativeReply::Handle(0)
                }
            }
            NativeCall::DestroySurfaceTexture { .. } => NativeReply::Done,
        }
    }
}

fn drive<S, R>(
    native: &mut FakeNative,
    first: Step<S, R>,
    mut resume: impl FnMut(S, NativeReply) -> Step<S, R>,
) -> R {
    let mut step = first;
    loop {
        match step {
            Step::Done(result) => return result,
            Step::Call(call, state) => {
                let reply = native.perform(call);
                step = resume(state, reply);
            }
        }
    }
}

fn descriptor() -> ContextDescriptor {
    ContextDescriptor(ContextAttributes {
        version: GLVersion::new(3, 0),
        flags: ContextAttributeFlags::empty(),
    })
}

fn new_context(device: &Device, native: &mut FakeNative, next_id: &mut ContextID) -> Context {
    let (call, creation) = device.create_context(&descriptor(), None, next_id);
    let reply = native.perform(call);
    device.resume_create_context(creation, reply).unwrap()
}

fn new_surface(device: &Device, native: &mut FakeNative, context: &Context, size: Size2D) -> Result<Surface, Error> {
    let first = device.create_surface(context, SurfaceAccess::GPUOnly, SurfaceType::Generic { size });
    drive(native, first, |creation, reply| device.resume_create_surface(context, creation, reply))
}

fn bind(device: &Device, native: &mut FakeNative, context: &mut Context, surface: Surface) -> Result<(), (Error, Surface)> {
    let first = device.bind_surface_to_context(context, surface);
    drive(native, first, |binding, reply| device.resume_bind_surface_to_context(context, binding, reply))
}

fn unbind(device: &Device, native: &mut FakeNative, context: &mut Context) -> Result<Option<Surface>, Error> {
    let first = device.unbind_surface_from_context(context);
    drive(native, first, |unbinding, reply| {
        device.resume_unbind_surface_from_context(context, unbinding, reply)
    })
}

fn failed() -> WindowingApiError {
    WindowingApiError::Failed
}

#[test]
fn contexts_take_consecutive_ids() {
    let device = Device;
    let mut native = FakeNative::new();
    let mut next_id = ContextID(0);
    let first = new_context(&device, &mut native, &mut next_id);
    let second = new_context(&device, &mut native, &mut next_id);
    assert_eq!(first.id, ContextID(1));
    assert_eq!(second.id, ContextID(2));
    assert_eq!(next_id, ContextID(2));
    assert_eq!(first.surface, None);
    assert_eq!(device.context_id(&second), ContextID(2));
    assert_eq!(device.context_descriptor(&first), descriptor());
}

#[test]
fn shared_context_is_passed_to_the_native_layer() {
    let device = Device;
    let mut native = FakeNative::new();
    let mut next_id = ContextID(7);
    let first = new_context(&device, &mut native, &mut next_id);
    let (call, creation) = device.create_context(&descriptor(), Some(&first), &mut next_id);
    assert_eq!(call, NativeCall::CreateContext { shared: first.native });
    assert_eq!(creation, ContextCreation { id: ContextID(9), descriptor: descriptor() });
    let (call, _) = device.create_context(&descriptor(), None, &mut next_id);
    assert_eq!(call, NativeCall::CreateContext { shared: 0 });
}

#[test]
fn null_native_context_fails_creation() {
    let device = Device;
    let mut next_id = ContextID(0);
    let (_, creation) = device.create_context(&descriptor(), None, &mut next_id);
    assert_eq!(
        device.resume_create_context(creation, NativeReply::Handle(0)),
        Err(Error::ContextCreationFailed(failed()))
    );
    // The identifier is taken even so.
    assert_eq!(next_id, ContextID(1));
}

#[test]
fn wrapping_native_contexts() {
    let device = Device;
    let mut next_id = ContextID(3);
    assert_eq!(
        device.create_context_from_native_context(NativeContext(0), &mut next_id),
        Err(Error::IncompatibleNativeContext)
    );
    assert_eq!(next_id, ContextID(3));
    let context = device.create_context_from_native_context(NativeContext(0x40), &mut next_id).unwrap();
    assert_eq!(next_id, ContextID(4));
    assert_eq!(context.native, 0x40);
    assert_eq!(context.id, ContextID(4));
    let attributes = device.context_descriptor_attributes(&context.descriptor);
    assert_eq!(attributes.version, GLVersion::new(3, 0));
    assert_eq!(
        attributes.flags,
        ContextAttributeFlags { alpha: true, depth: true, stencil: true, compatibility_profile: false }
    );
}

#[test]
fn making_contexts_current() {
    let device = Device;
    let context = Context { native: 0x20, id: ContextID(1), surface: None, descriptor: descriptor() };
    assert_eq!(device.make_context_current(&context), NativeCall::MakeCurrent { context: 0x20 });
    assert_eq!(device.resume_make_context_current(NativeReply::Flag(true)), Ok(()));
    assert_eq!(
        device.resume_make_context_current(NativeReply::Flag(false)),
        Err(Error::MakeCurrentFailed(failed()))
    );
    // A reply that is not a flag counts as a failure.
    assert_eq!(
        device.resume_make_context_current(NativeReply::Handle(1)),
        Err(Error::MakeCurrentFailed(failed()))
    );
    assert_eq!(device.make_no_context_current(), NativeCall::ClearCurrent);
    assert_eq!(device.resume_make_no_context_current(NativeReply::Flag(true)), Ok(()));
    assert_eq!(
        device.resume_make_no_context_current(NativeReply::Flag(false)),
        Err(Error::MakeCurrentFailed(failed()))
    );
}

#[test]
fn native_context_is_retained() {
    let device = Device;
    let context = Context { native: 0x20, id: ContextID(1), surface: None, descriptor: descriptor() };
    assert_eq!(device.native_context(&context), NativeCall::RetainContext { context: 0x20 });
    assert_eq!(device.resume_native_context(NativeReply::Handle(0x20)), NativeContext(0x20));
}

#[test]
fn creating_a_surface() {
    let device = Device;
    let mut native = FakeNative::new();
    let mut next_id = ContextID(0);
    let context = new_context(&device, &mut native, &mut next_id);
    let surface = new_surface(&device, &mut native, &context, Size2D::new(4, 4)).unwrap();
    assert_eq!(surface.context_id, context.id);
    assert_eq!(surface.size, Size2D::new(4, 4));
    assert_ne!(surface.native, 0);
    assert_ne!(surface.framebuffer.0, 0);
    assert_ne!(surface.texture.0, 0);
    assert_eq!(
        native.calls[1..],
        [
            NativeCall::MakeCurrent { context: context.native },
            NativeCall::CreateSurface { context: context.native, width: 4, height: 4 },
            NativeCall::SurfaceFramebuffer { surface: surface.native },
            NativeCall::SurfaceTexture { surface: surface.native },
        ]
    );
    assert_eq!(surface.id(), SurfaceID(surface.native));
}

#[test]
fn widget_surfaces_are_unsupported() {
    let device = Device;
    let context = Context { native: 0x20, id: ContextID(1), surface: None, descriptor: descriptor() };
    let step = device.create_surface(
        &context,
        SurfaceAccess::GPUCPU,
        SurfaceType::Widget { native_widget: NativeWidget },
    );
    assert_eq!(step, Step::Done(Err(Error::UnsupportedOnThisPlatform)));
}

#[test]
fn surface_creation_failures() {
    let device = Device;
    let mut next_id = ContextID(0);

    let mut native = FakeNative::new();
    let context = new_context(&device, &mut native, &mut next_id);
    native.make_current_ok = false;
    assert_eq!(
        new_surface(&device, &mut native, &context, Size2D::new(1, 1)),
        Err(Error::MakeCurrentFailed(failed()))
    );

    let mut native = FakeNative::new();
    native.create_surface_ok = false;
    assert_eq!(
        new_surface(&device, &mut native, &context, Size2D::new(1, 1)),
        Err(Error::SurfaceCreationFailed(failed()))
    );
    assert!(!native.calls.iter().any(|call| matches!(call, NativeCall::DestroySurface { .. })));
}

#[test]
fn surface_without_objects_is_destroyed() {
    let device = Device;
    let mut next_id = ContextID(0);
    for zero_framebuffer in [true, false] {
        let mut native = FakeNative::new();
        let context = new_context(&device, &mut native, &mut next_id);
        native.zero_framebuffer = zero_framebuffer;
        native.zero_texture = !zero_framebuffer;
        assert_eq!(
            new_surface(&device, &mut native, &context, Size2D::new(2, 3)),
            Err(Error::SurfaceCreationFailed(failed()))
        );
        // The fake hands out 0x1010 for the context and 0x1020 for the surface.
        assert_eq!(
            native.calls.last(),
            Some(&NativeCall::DestroySurface { context: context.native, surface: 0x1020 })
        );
    }
}

#[test]
fn resume_create_surface_steps() {
    let device = Device;
    let context = Context { native: 0x20, id: ContextID(5), surface: None, descriptor: descriptor() };
    let size = Size2D::new(8, 6);
    assert_eq!(
        device.resume_create_surface(&context, SurfaceCreation::AwaitingTexture { size, native: 0x30, framebuffer: 7 }, NativeReply::Name(9)),
        Step::Done(Ok(Surface {
            native: 0x30,
            context_id: ContextID(5),
            size,
            framebuffer: NativeFramebuffer(7),
            texture: NativeTexture(9),
        }))
    );
    assert_eq!(
        device.resume_create_surface(&context, SurfaceCreation::AwaitingDestroy, NativeReply::Done),
        Step::Done(Err(Error::SurfaceCreationFailed(failed())))
    );
}

#[test]
fn bind_then_unbind_gives_back_the_surface() {
    let device = Device;
    let mut native = FakeNative::new();
    let mut next_id = ContextID(0);
    let mut context = new_context(&device, &mut native, &mut next_id);
    let before = Context { surface: None, ..context };
    let surface = new_surface(&device, &mut native, &context, Size2D::new(4, 4)).unwrap();
    let copy = Surface { ..surface };
    assert_eq!(bind(&device, &mut native, &mut context, surface), Ok(()));
    assert_eq!(context.surface, Some(Surface { ..copy }));
    assert_eq!(native.calls.last(), Some(&NativeCall::BindSurface { surface: copy.native }));
    assert_eq!(unbind(&device, &mut native, &mut context), Ok(Some(Surface { ..copy })));
    assert_eq!(native.calls.last(), Some(&NativeCall::FinishSurface));
    assert_eq!(context, before);
    assert_eq!(unbind(&device, &mut native, &mut context), Ok(None));
}

#[test]
fn refused_binds_hand_back_the_surface() {
    let device = Device;
    let mut native = FakeNative::new();
    let mut next_id = ContextID(0);
    let mut context = new_context(&device, &mut native, &mut next_id);
    let other = new_context(&device, &mut native, &mut next_id);
    let mine = new_surface(&device, &mut native, &context, Size2D::new(4, 4)).unwrap();
    let theirs = new_surface(&device, &mut native, &other, Size2D::new(4, 4)).unwrap();
    let theirs_copy = Surface { ..theirs };
    assert_eq!(
        bind(&device, &mut native, &mut context, theirs),
        Err((Error::IncompatibleSurface, theirs_copy))
    );

    native.make_current_ok = false;
    let mine_copy = Surface { ..mine };
    assert_eq!(
        bind(&device, &mut native, &mut context, mine),
        Err((Error::MakeCurrentFailed(failed()), Surface { ..mine_copy }))
    );
    assert_eq!(context.surface, None);

    native.make_current_ok = true;
    assert_eq!(bind(&device, &mut native, &mut context, Surface { ..mine_copy }), Ok(()));
    let another = new_surface(&device, &mut native, &context, Size2D::new(2, 2)).unwrap();
    let another_copy = Surface { ..another };
    assert_eq!(
        bind(&device, &mut native, &mut context, another),
        Err((Error::SurfaceAlreadyBound, another_copy))
    );
}

#[test]
fn unbind_fails_when_not_current() {
    let device = Device;
    let mut native = FakeNative::new();
    let mut next_id = ContextID(0);
    let mut context = new_context(&device, &mut native, &mut next_id);
    let surface = new_surface(&device, &mut native, &context, Size2D::new(4, 4)).unwrap();
    bind(&device, &mut native, &mut context, surface).unwrap();
    native.make_current_ok = false;
    assert_eq!(unbind(&device, &mut native, &mut context), Err(Error::MakeCurrentFailed(failed())));
    assert!(context.surface.is_some());
    assert_eq!(
        device.resume_unbind_surface_from_context(&mut context, SurfaceUnbinding::AwaitingCurrent, NativeReply::Flag(false)),
        Step::Done(Err(Error::MakeCurrentFailed(failed())))
    );
}

#[test]
fn surface_information() {
    let device = Device;
    let mut native = FakeNative::new();
    let mut next_id = ContextID(0);
    let mut context = new_context(&device, &mut native, &mut next_id);
    assert_eq!(device.context_surface_info(&context), Ok(None));
    let surface = new_surface(&device, &mut native, &context, Size2D::new(5, 7)).unwrap();
    let info = device.surface_info(&surface);
    assert_eq!(
        info,
        SurfaceInfo {
            size: Size2D::new(5, 7),
            id: SurfaceID(surface.native),
            context_id: context.id,
            framebuffer_object: Some(surface.framebuffer),
        }
    );
    bind(&device, &mut native, &mut context, surface).unwrap();
    assert_eq!(device.context_surface_info(&context), Ok(Some(info)));
}

#[test]
fn surface_texture_round_trip() {
    let device = Device;
    let mut native = FakeNative::new();
    let mut next_id = ContextID(0);
    let context = new_context(&device, &mut native, &mut next_id);
    let surface = new_surface(&device, &mut native, &context, Size2D::new(4, 4)).unwrap();
    let copy = Surface { ..surface };
    let first = device.create_surface_texture(&context, surface);
    let texture: SurfaceTexture = drive(&mut native, first, |creation, reply| {
        device.resume_create_surface_texture(&context, creation, reply)
    })
    .unwrap();
    assert_eq!(texture.surface, Surface { ..copy });
    assert_ne!(texture.native, 0);
    assert_eq!(device.surface_texture_object(&texture), Some(texture.texture));
    let first = device.destroy_surface_texture(&context, texture);
    let back = drive(&mut native, first, |destruction, reply| {
        device.resume_destroy_surface_texture(destruction, reply)
    });
    assert_eq!(back, Ok(copy));
    assert!(matches!(native.calls.last(), Some(NativeCall::DestroySurfaceTexture { .. })));
}

#[test]
fn surface_texture_failures_hand_back_the_surface() {
    let device = Device;
    let mut next_id = ContextID(0);
    for case in 0..3 {
        let mut native = FakeNative::new();
        let context = new_context(&device, &mut native, &mut next_id);
        let surface = new_surface(&device, &mut native, &context, Size2D::new(4, 4)).unwrap();
        let copy = Surface { ..surface };
        let expected = match case {
            0 => {
                native.make_current_ok = false;
                Error::MakeCurrentFailed(failed())
            }
            1 => {
                native.create_texture_ok = false;
                Error::SurfaceTextureCreationFailed(failed())
            }
            _ => {
                native.zero_texture = true;
                Error::SurfaceTextureCreationFailed(failed())
            }
        };
        let first = device.create_surface_texture(&context, surface);
        let result = drive(&mut native, first, |creation, reply| {
            device.resume_create_surface_texture(&context, creation, reply)
        });
        assert_eq!(result, Err((expected, copy)));
        if case == 2 {
            assert!(matches!(native.calls.last(), Some(NativeCall::DestroySurfaceTexture { .. })));
        }
    }
}

#[test]
fn destroying_a_surface_texture_needs_a_current_context() {
    let device = Device;
    let mut native = FakeNative::new();
    let mut next_id = ContextID(0);
    let context = new_context(&device, &mut native, &mut next_id);
    let surface = new_surface(&device, &mut native, &context, Size2D::new(4, 4)).unwrap();
    let first = device.create_surface_texture(&context, surface);
    let texture = drive(&mut native, first, |c, r| device.resume_create_surface_texture(&context, c, r)).unwrap();
    let native_texture = texture.native;
    native.make_current_ok = false;
    let first = device.destroy_surface_texture(&context, texture);
    match drive(&mut native, first, |d, r| device.resume_destroy_surface_texture(d, r)) {
        Err((error, kept)) => {
            assert_eq!(error, Error::MakeCurrentFailed(failed()));
            assert_eq!(kept.native, native_texture);
        }
        Ok(_) => panic!("destroying should have failed"),
    }
}

#[test]
fn destroying_surfaces() {
    let device = Device;
    let mut native = FakeNative::new();
    let mut next_id = ContextID(0);
    let context = new_context(&device, &mut native, &mut next_id);
    let other = new_context(&device, &mut native, &mut next_id);
    let mut surface = new_surface(&device, &mut native, &context, Size2D::new(4, 4)).unwrap();
    assert_eq!(device.destroy_surface(&other, &surface), Step::Done(Err(Error::IncompatibleSurface)));
    let step = device.destroy_surface(&context, &surface);
    assert_eq!(
        step,
        Step::Call(NativeCall::DestroySurface { context: context.native, surface: surface.native }, ())
    );
    let size = surface.size;
    assert_eq!(device.resume_destroy_surface(&mut surface), Ok(()));
    assert_eq!(surface.native, 0);
    assert_eq!(surface.size, size);
    assert_eq!(device.destroy_surface(&context, &surface), Step::Done(Ok(())));
}

#[test]
fn presenting_surfaces() {
    let device = Device;
    let mut native = FakeNative::new();
    let mut next_id = ContextID(0);
    let context = new_context(&device, &mut native, &mut next_id);
    let other = new_context(&device, &mut native, &mut next_id);
    let surface = new_surface(&device, &mut native, &context, Size2D::new(4, 4)).unwrap();
    let first = device.present_surface(&context, &surface);
    assert_eq!(drive(&mut native, first, |p, r| device.resume_present_surface(p, r)), Ok(()));
    assert_eq!(native.calls.last(), Some(&NativeCall::FinishSurface));
    assert_eq!(device.present_surface(&other, &surface), Step::Done(Err(Error::IncompatibleSurface)));
    native.make_current_ok = false;
    let first = device.present_bound_surface(&context);
    assert_eq!(
        drive(&mut native, first, |p, r| device.resume_present_surface(p, r)),
        Err(Error::MakeCurrentFailed(failed()))
    );
}

#[test]
fn resizing_a_surface() {
    let device = Device;
    let mut native = FakeNative::new();
    let mut next_id = ContextID(0);
    let context = new_context(&device, &mut native, &mut next_id);
    let other = new_context(&device, &mut native, &mut next_id);
    let mut surface = new_surface(&device, &mut native, &context, Size2D::new(4, 4)).unwrap();
    let before = Surface { ..surface };
    assert_eq!(
        device.resize_surface(&other, &surface, Size2D::new(8, 8)),
        Step::Done(Err(Error::IncompatibleSurface))
    );
    let first = device.resize_surface(&context, &surface, Size2D::new(8, 9));
    let result = drive(&mut native, first, |r, reply| device.resume_resize_surface(&mut surface, r, reply));
    assert_eq!(result, Ok(()));
    assert_eq!(surface.size, Size2D::new(8, 9));
    assert_eq!(surface.native, before.native);
    assert_ne!(surface.framebuffer, before.framebuffer);
    assert_ne!(surface.texture, before.texture);
}

#[test]
fn failed_resizes() {
    let device = Device;
    let mut next_id = ContextID(0);

    let mut native = FakeNative::new();
    let context = new_context(&device, &mut native, &mut next_id);
    let mut surface = new_surface(&device, &mut native, &context, Size2D::new(4, 4)).unwrap();
    let before = Surface { ..surface };
    native.resize_ok = false;
    let first = device.resize_surface(&context, &surface, Size2D::new(8, 8));
    let result = drive(&mut native, first, |r, reply| device.resume_resize_surface(&mut surface, r, reply));
    assert_eq!(result, Err(Error::SurfaceCreationFailed(failed())));
    assert_eq!(surface, before);

    native.resize_ok = true;
    native.zero_framebuffer = true;
    let first = device.resize_surface(&context, &surface, Size2D::new(8, 8));
    let result = drive(&mut native, first, |r, reply| device.resume_resize_surface(&mut surface, r, reply));
    assert_eq!(result, Err(Error::SurfaceCreationFailed(failed())));
    assert_eq!(surface, before);

    // A missing texture object leaves the new framebuffer object recorded.
    native.zero_framebuffer = false;
    native.zero_texture = true;
    let first = device.resize_surface(&context, &surface, Size2D::new(8, 8));
    let result = drive(&mut native, first, |r, reply| device.resume_resize_surface(&mut surface, r, reply));
    assert_eq!(result, Err(Error::SurfaceCreationFailed(failed())));
    assert_ne!(surface.framebuffer, before.framebuffer);
    assert_eq!(surface.texture, before.texture);
    assert_eq!(surface.size, before.size);
}

#[test]
fn resizing_the_bound_surface() {
    let device = Device;
    let mut native = FakeNative::new();
    let mut next_id = ContextID(0);
    let mut context = new_context(&device, &mut native, &mut next_id);
    let first = device.resize_bound_surface(&mut context, Size2D::new(2, 2));
    assert_eq!(first, Step::Done(Ok(())));

    let surface = new_surface(&device, &mut native, &context, Size2D::new(4, 4)).unwrap();
    let native_surface = surface.native;
    bind(&device, &mut native, &mut context, surface).unwrap();
    let first = device.resize_bound_surface(&mut context, Size2D::new(6, 6));
    assert_eq!(context.surface, None);
    let result = drive(&mut native, first, |r, reply| device.resume_resize_bound_surface(&mut context, r, reply));
    assert_eq!(result, Ok(()));
    assert_eq!(native.calls.last(), Some(&NativeCall::BindSurface { surface: native_surface }));
    assert_eq!(context.surface.as_ref().map(|s| s.size), Some(Size2D::new(6, 6)));

    native.resize_ok = false;
    let first = device.resize_bound_surface(&mut context, Size2D::new(9, 9));
    let result = drive(&mut native, first, |r, reply| device.resume_resize_bound_surface(&mut context, r, reply));
    assert_eq!(result, Err(Error::SurfaceCreationFailed(failed())));
    assert_eq!(context.surface.as_ref().map(|s| s.size), Some(Size2D::new(6, 6)));
}

#[test]
fn destroying_a_context_with_a_surface() {
    let device = Device;
    let mut native = FakeNative::new();
    let mut next_id = ContextID(0);
    let mut context = new_context(&device, &mut native, &mut next_id);
    let context_native = context.native;
    let surface = new_surface(&device, &mut native, &context, Size2D::new(4, 4)).unwrap();
    let surface_native = surface.native;
    bind(&device, &mut native, &mut context, surface).unwrap();
    let start = native.calls.len();
    let first = device.destroy_context(&context);
    let result = drive(&mut native, first, |d, r| device.resume_destroy_context(&mut context, d, r));
    assert_eq!(result, Ok(()));
    assert_eq!(context.native, 0);
    assert_eq!(context.surface, None);
    assert_eq!(
        native.calls[start..],
        [
            NativeCall::MakeCurrent { context: context_native },
            NativeCall::FinishSurface,
            NativeCall::DestroySurface { context: context_native, surface: surface_native },
            NativeCall::ReleaseContext { context: context_native },
        ]
    );
}

#[test]
fn destroying_a_context_without_a_surface() {
    let device = Device;
    let mut native = FakeNative::new();
    let mut next_id = ContextID(0);
    let mut context = new_context(&device, &mut native, &mut next_id);
    let context_native = context.native;
    let first = device.destroy_context(&context);
    assert_eq!(
        first,
        Step::Call(NativeCall::ReleaseContext { context: context_native }, ContextDestruction::Releasing)
    );
    let result = drive(&mut native, first, |d, r| device.resume_destroy_context(&mut context, d, r));
    assert_eq!(result, Ok(()));
    assert_eq!(context.native, 0);
}

#[test]
fn destroying_a_context_fails_when_not_current() {
    let device = Device;
    let mut native = FakeNative::new();
    let mut next_id = ContextID(0);
    let mut context = new_context(&device, &mut native, &mut next_id);
    let surface = new_surface(&device, &mut native, &context, Size2D::new(4, 4)).unwrap();
    bind(&device, &mut native, &mut context, surface).unwrap();
    native.make_current_ok = false;
    let first = device.destroy_context(&context);
    let result = drive(&mut native, first, |d, r| device.resume_destroy_context(&mut context, d, r));
    assert_eq!(result, Err(Error::MakeCurrentFailed(failed())));
    assert_ne!(context.native, 0);
    assert!(context.surface.is_some());
}

#[test]
fn destroying_a_context_with_a_foreign_surface() {
    let device = Device;
    let surface = Surface {
        native: 0x50,
        context_id: ContextID(2),
        size: Size2D::new(1, 1),
        framebuffer: NativeFramebuffer(1),
        texture: NativeTexture(1),
    };
    let mut context = Context { native: 0x20, id: ContextID(1), surface: Some(surface), descriptor: descriptor() };
    let mut native = FakeNative::new();
    let first = device.destroy_context(&context);
    let result = drive(&mut native, first, |d, r| device.resume_destroy_context(&mut context, d, r));
    assert_eq!(result, Err(Error::IncompatibleSurface));
    assert_eq!(context.surface, None);
    assert_eq!(context.native, 0x20);
}

#[test]
fn native_surface_is_copied() {
    let device = Device;
    let surface = Surface {
        native: 0x50,
        context_id: ContextID(2),
        size: Size2D::new(1, 1),
        framebuffer: NativeFramebuffer(1),
        texture: NativeTexture(1),
    };
    assert_eq!(device.native_surface(&surface), NativeCall::CopyIoSurface { surface: 0x50 });
    assert_eq!(device.resume_native_surface(NativeReply::Handle(0x51)), NativeSurface(0x51));
    assert_eq!(device.resume_native_surface(NativeReply::Done), NativeSurface(0));
}

#[test]
fn replies_of_the_wrong_kind_read_as_failures() {
    assert!(!NativeReply::Done.flag());
    assert!(NativeReply::Flag(true).flag());
    assert_eq!(NativeReply::Flag(true).handle(), 0);
    assert_eq!(NativeReply::Handle(7).handle(), 7);
    assert_eq!(NativeReply::Handle(7).name(), 0);
    assert_eq!(NativeReply::Name(3).name(), 3);
}

#[test]
fn null_native_context_is_refused_at_a_full_counter() {
    let device = Device;
    let mut next_id = ContextID(u64::MAX);
    assert_eq!(
        device.create_context_from_native_context(NativeContext(0), &mut next_id),
        Err(Error::IncompatibleNativeContext)
    );
    assert_eq!(next_id, ContextID(u64::MAX));
}

#[test]
fn ids_increase_over_mixed_creations() {
    let device = Device;
    let mut native = FakeNative::new();
    let mut next_id = ContextID(0);
    let first = new_context(&device, &mut native, &mut next_id);
    let _ = device.create_context_from_native_context(NativeContext(0), &mut next_id);
    let second = device.create_context_from_native_context(NativeContext(0x80), &mut next_id).unwrap();
    let third = new_context(&device, &mut native, &mut next_id);
    assert!(first.id.0 < second.id.0 && second.id.0 < third.id.0);
    assert_eq!([first.id, second.id, third.id], [ContextID(1), ContextID(2), ContextID(3)]);
}

#[test]
fn states_fit_only_their_own_context() {
    let surface = Surface {
        native: 0x50,
        context_id: ContextID(2),
        size: Size2D::new(1, 1),
        framebuffer: NativeFramebuffer(1),
        texture: NativeTexture(1),
    };
    let own = Context { native: 0x20, id: ContextID(2), surface: None, descriptor: descriptor() };
    let other = Context { native: 0x30, id: ContextID(3), surface: None, descriptor: descriptor() };
    let binding = SurfaceBinding::AwaitingBind(Surface { ..surface });
    assert!(binding.fits_context(&own));
    assert!(!binding.fits_context(&other));
    let busy = Context { surface: Some(Surface { ..surface }), ..own };
    assert!(!binding.fits_context(&busy));
    let resizing = BoundSurfaceResize::Rebinding(Surface { ..surface });
    assert!(resizing.fits_context(&own));
    assert!(!resizing.fits_context(&other));
    assert!(!resizing.fits_context(&busy));
}
