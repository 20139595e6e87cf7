//! The iOS EAGL backend of a graphics library, with verified bookkeeping.
//!
//! The native EAGL layer is reached through [`NativeCall`] requests: each
//! device operation that needs the platform returns a [`Step`], either its
//! result or the next call to make, and is resumed with the platform's
//! [`NativeReply`]. Contexts, surfaces and surface textures are plain values
//! that name their native objects by address; the `laws` module states what
//! the operations promise together.

pub mod attributes;
pub mod connection;
pub mod context;
pub mod context_ops;
pub mod device;
pub mod error;
pub mod laws;
pub mod native;
pub mod operation_laws;
pub mod surface;
pub mod surface_ops;
pub mod window_handles;

pub use attributes::{ContextAttributeFlags, ContextAttributes, GLApi, GLVersion, TEXTURE_2D};
pub use connection::{Connection, NativeConnection};
pub use context::{Context, ContextDescriptor, ContextID, NativeContext};
pub use device::{Adapter, Device, NativeDevice};
pub use error::{Error, WindowingApiError};
pub use native::{NativeCall, NativeReply, Step};
pub use surface::{
    NativeFramebuffer, NativeSurface, NativeTexture, NativeWidget, Size2D, Surface, SurfaceAccess,
    SurfaceID, SurfaceInfo, SurfaceTexture, SurfaceType,
};
