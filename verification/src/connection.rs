//! The process-wide graphics connection.

use vstd::prelude::*;

use crate::attributes::GLApi;
use crate::device::{Adapter, Device, NativeDevice};
use crate::error::Error;

verus! {

/// The process-wide iOS graphics connection.
#[derive(Clone, Copy, Debug, PartialEq, Eq, Structural)]
pub struct Connection;

/// The native iOS graphics connection.
#[derive(Clone, Copy, Debug, PartialEq, Eq, Structural)]
pub struct NativeConnection;

impl Connection {
    /// Opens the process-wide iOS graphics connection.
    pub fn new() -> (result: Result<Connection, Error>)
        ensures
            result == Ok::<Connection, Error>(Connection),
    {
        Ok(Connection)
    }

    /// Wraps the native iOS graphics connection.
    pub fn from_native_connection(native_connection: NativeConnection) -> (result: Result<
        Connection,
        Error,
    >)
        ensures
            result == Ok::<Connection, Error>(Connection),
    {
        Ok(Connection)
    }

    /// The native iOS graphics connection.
    pub fn native_connection(&self) -> (native: NativeConnection)
        ensures
            native == NativeConnection,
    {
        NativeConnection
    }

    /// The OpenGL flavour of the connection: OpenGL ES.
    pub fn gl_api(&self) -> (api: GLApi)
        ensures
            api == GLApi::GLES,
    {
        GLApi::GLES
    }

    /// The default adapter, which is the hardware adapter.
    pub fn create_adapter(&self) -> (result: Result<Adapter, Error>)
        ensures
            result == Ok::<Adapter, Error>(Adapter),
    {
        self.create_hardware_adapter()
    }

    /// The hardware adapter.
    pub fn create_hardware_adapter(&self) -> (result: Result<Adapter, Error>)
        ensures
            result == Ok::<Adapter, Error>(Adapter),
    {
        Ok(Adapter)
    }

    /// The low-power adapter, which is the one adapter there is.
    pub fn create_low_power_adapter(&self) -> (result: Result<Adapter, Error>)
        ensures
            result == Ok::<Adapter, Error>(Adapter),
    {
        Ok(Adapter)
    }

    /// The adapter for software rendering, which is the one adapter there is.
    pub fn create_software_adapter(&self) -> (result: Result<Adapter, Error>)
        ensures
            result == Ok::<Adapter, Error>(Adapter),
    {
        Ok(Adapter)
    }

    /// Opens a device on an adapter.
    pub fn create_device(&self, adapter: &Adapter) -> (result: Result<Device, Error>)
        ensures
            result == Ok::<Device, Error>(Device),
    {
        Device::new(self, adapter)
    }

    /// Opens a device from a native device value.
    pub fn create_device_from_native_device(&self, native_device: NativeDevice) -> (result:
        Result<Device, Error>)
        ensures
            result == Ok::<Device, Error>(Device),
    {
        Device::new(self, &Adapter)
    }
}

} // verus!
