//! Rendering contexts and the values that describe them.

use vstd::prelude::*;

use crate::attributes::ContextAttributes;
use crate::error::Error;
use crate::surface::Surface;

verus! {

/// A unique identifier of a context.
#[derive(Clone, Copy, Debug, PartialEq, Eq, Structural)]
pub struct ContextID(pub u64);

/// The attributes that a context was asked to have.
#[derive(Clone, Copy, Debug, PartialEq, Eq, Structural)]
pub struct ContextDescriptor(pub ContextAttributes);

/// An EAGL rendering context.
#[derive(Debug, PartialEq, Eq, Structural)]
pub struct Context {
    /// The address of the native context; 0 once it has been destroyed.
    pub native: usize,
    /// The identifier of the context.
    pub id: ContextID,
    /// The surface bound to the context, if any.
    pub surface: Option<Surface>,
    /// The attributes the context was created with.
    pub descriptor: ContextDescriptor,
}

impl Context {
    /// A context is well formed when the surface bound to it belongs to it and
    /// is well formed.
    pub open spec fn wf(self) -> bool {
        self.surface matches Some(s) ==> s.context_id == self.id && s.wf()
    }
}

/// The address of a retained native context.
#[derive(Debug, PartialEq, Eq, Structural)]
pub struct NativeContext(pub usize);

impl NativeContext {
    /// The native context that is current; EAGL cannot report it.
    pub fn current() -> (result: Result<NativeContext, Error>)
        ensures
            result == Err::<NativeContext, Error>(Error::NoCurrentContext),
    {
        Err(Error::NoCurrentContext)
    }
}

} // verus!
