//! Raw window and display handles, which an iOS connection does not accept.

use vstd::prelude::*;

use raw_window_handle::{DisplayHandle, RawDisplayHandle, RawWindowHandle, WindowHandle};

use crate::connection::Connection;
use crate::error::Error;
use crate::surface::{NativeWidget, Size2D};

verus! {

/// The raw display handle of the raw-window-handle crate, carried through unread.
#[verifier::external_type_specification]
#[verifier::external_body]
pub struct ExRawDisplayHandle(RawDisplayHandle);

/// The raw window handle of the raw-window-handle crate, carried through unread.
#[verifier::external_type_specification]
#[verifier::external_body]
pub struct ExRawWindowHandle(RawWindowHandle);

/// The borrowed display handle of the raw-window-handle crate, carried through unread.
#[verifier::external_type_specification]
#[verifier::external_body]
pub struct ExDisplayHandle<'a>(DisplayHandle<'a>);

/// The borrowed window handle of the raw-window-handle crate, carried through unread.
#[verifier::external_type_specification]
#[verifier::external_body]
pub struct ExWindowHandle<'a>(WindowHandle<'a>);

impl Connection {
    /// Rejects a raw display handle: iOS connections are not made from one.
    pub fn from_raw_display_handle(handle: RawDisplayHandle) -> (result: Result<Connection, Error>)
        ensures
            result == Err::<Connection, Error>(Error::IncompatibleRawDisplayHandle),
    {
        Err(Error::IncompatibleRawDisplayHandle)
    }

    /// Rejects a display handle: iOS connections are not made from one.
    pub fn from_display_handle(handle: DisplayHandle<'_>) -> (result: Result<Connection, Error>)
        ensures
            result == Err::<Connection, Error>(Error::IncompatibleRawDisplayHandle),
    {
        Err(Error::IncompatibleRawDisplayHandle)
    }

    /// Rejects a raw window handle: iOS has no native widgets here.
    pub fn create_native_widget_from_raw_window_handle(
        &self,
        handle: RawWindowHandle,
        size: Size2D,
    ) -> (result: Result<NativeWidget, Error>)
        ensures
            result == Err::<NativeWidget, Error>(Error::IncompatibleNativeWidget),
    {
        Err(Error::IncompatibleNativeWidget)
    }

    /// Rejects a window handle: iOS has no native widgets here.
    pub fn create_native_widget_from_window_handle(
        &self,
        handle: WindowHandle<'_>,
        size: Size2D,
    ) -> (result: Result<NativeWidget, Error>)
        ensures
            result == Err::<NativeWidget, Error>(Error::IncompatibleNativeWidget),
    {
        Err(Error::IncompatibleNativeWidget)
    }
}

} // verus!
