//! The EAGL device: the values it hands out and the attributes it accepts.

use vstd::prelude::*;

use crate::attributes::{ContextAttributes, GLApi, TEXTURE_2D};
use crate::connection::Connection;
use crate::context::{Context, ContextDescriptor, ContextID};
use crate::error::Error;
use crate::surface::{NativeTexture, Surface, SurfaceID, SurfaceInfo, SurfaceTexture};

verus! {

/// The available EAGL adapter.
#[derive(Clone, Copy, Debug, PartialEq, Eq, Structural)]
pub struct Adapter;

/// A thread-local EAGL device.
#[derive(Clone, Copy, Debug, PartialEq, Eq, Structural)]
pub struct Device;

/// The native EAGL device.
#[derive(Clone, Copy, Debug, PartialEq, Eq, Structural)]
pub struct NativeDevice;

/// Whether a device accepts attributes: OpenGL ES 2 or 3, without the
/// compatibility profile.
pub open spec fn attributes_supported(attributes: ContextAttributes) -> bool {
    2 <= attributes.version.major <= 3 && !attributes.flags.compatibility_profile
}

/// What asking for a context descriptor with `attributes` gives.
pub open spec fn descriptor_for(attributes: ContextAttributes) -> Result<ContextDescriptor, Error> {
    if attributes.version.major > 3 || attributes.version.major < 2 {
        Err(Error::UnsupportedGLVersion)
    } else if attributes.flags.compatibility_profile {
        Err(Error::UnsupportedGLProfile)
    } else {
        Ok(ContextDescriptor(attributes))
    }
}

/// What a device reports about a surface.
pub open spec fn info_of(surface: Surface) -> SurfaceInfo {
    SurfaceInfo {
        size: surface.size,
        id: SurfaceID(surface.native),
        context_id: surface.context_id,
        framebuffer_object: Some(surface.framebuffer),
    }
}

impl Device {
    /// Opens the device of a connection.
    pub(crate) fn new(connection: &Connection, adapter: &Adapter) -> (result: Result<Device, Error>)
        ensures
            result == Ok::<Device, Error>(Device),
    {
        Ok(Device)
    }

    /// The native device value.
    pub fn native_device(&self) -> (native: NativeDevice)
        ensures
            native == NativeDevice,
    {
        NativeDevice
    }

    /// The iOS graphics connection.
    pub fn connection(&self) -> (connection: Connection)
        ensures
            connection == Connection,
    {
        Connection
    }

    /// The EAGL adapter.
    pub fn adapter(&self) -> (adapter: Adapter)
        ensures
            adapter == Adapter,
    {
        Adapter
    }

    /// The OpenGL flavour of the device: OpenGL ES.
    pub fn gl_api(&self) -> (api: GLApi)
        ensures
            api == GLApi::GLES,
    {
        GLApi::GLES
    }

    /// Checks attributes and wraps them in a context descriptor: OpenGL ES 2
    /// and 3 are supported, the compatibility profile is not.
    pub fn create_context_descriptor(&self, attributes: &ContextAttributes) -> (result: Result<
        ContextDescriptor,
        Error,
    >)
        ensures
            result == descriptor_for(*attributes),
            result is Ok <==> attributes_supported(*attributes),
    {
        if attributes.version.major > 3 || attributes.version.major < 2 {
            return Err(Error::UnsupportedGLVersion);
        }
        if attributes.flags.compatibility_profile {
            return Err(Error::UnsupportedGLProfile);
        }
        Ok(ContextDescriptor(*attributes))
    }

    /// The attributes held by a context descriptor.
    pub fn context_descriptor_attributes(&self, descriptor: &ContextDescriptor) -> (attributes:
        ContextAttributes)
        ensures
            attributes == descriptor.0,
    {
        descriptor.0
    }

    /// The descriptor a context was created with.
    pub fn context_descriptor(&self, context: &Context) -> (descriptor: ContextDescriptor)
        ensures
            descriptor == context.descriptor,
    {
        context.descriptor
    }

    /// The identifier of a context.
    pub fn context_id(&self, context: &Context) -> (id: ContextID)
        ensures
            id == context.id,
    {
        context.id
    }

    /// The texture target that surfaces are bound to: TEXTURE_2D.
    pub fn surface_gl_texture_target(&self) -> (target: u32)
        ensures
            target == TEXTURE_2D,
    {
        TEXTURE_2D
    }

    /// What the device reports about a surface.
    pub fn surface_info(&self, surface: &Surface) -> (info: SurfaceInfo)
        ensures
            info == info_of(*surface),
    {
        SurfaceInfo {
            size: surface.size,
            id: surface.id(),
            context_id: surface.context_id,
            framebuffer_object: Some(surface.framebuffer),
        }
    }

    /// What the device reports about the surface bound to a context, if any.
    pub fn context_surface_info(&self, context: &Context) -> (result: Result<
        Option<SurfaceInfo>,
        Error,
    >)
        ensures
            result == Ok::<Option<SurfaceInfo>, Error>(
                match context.surface {
                    Some(surface) => Some(info_of(surface)),
                    None => None,
                },
            ),
    {
        match &context.surface {
            Some(surface) => Ok(Some(self.surface_info(surface))),
            None => Ok(None),
        }
    }

    /// The texture object of a surface texture.
    pub fn surface_texture_object(&self, surface_texture: &SurfaceTexture) -> (texture: Option<
        NativeTexture,
    >)
        ensures
            texture == Some(surface_texture.texture),
    {
        Some(surface_texture.texture)
    }
}

} // verus!
