//! OpenGL API kinds, versions and context attributes.

use vstd::prelude::*;

verus! {

/// The OpenGL TEXTURE_2D texture target.
pub const TEXTURE_2D: u32 = 0x0DE1;

/// The flavour of OpenGL that a device speaks.
#[derive(Clone, Copy, Debug, PartialEq, Eq, Structural)]
pub enum GLApi {
    /// Desktop OpenGL.
    GL,
    /// OpenGL ES.
    GLES,
}

/// An OpenGL version number.
#[derive(Clone, Copy, Debug, PartialEq, Eq, Structural)]
pub struct GLVersion {
    /// The major version.
    pub major: u8,
    /// The minor version.
    pub minor: u8,
}

impl GLVersion {
    /// Makes a version number out of its two parts.
    pub fn new(major: u8, minor: u8) -> (version: GLVersion)
        ensures
            version == (GLVersion { major, minor }),
    {
        GLVersion { major, minor }
    }
}

/// The optional features that a context is asked for.
#[derive(Clone, Copy, Debug, PartialEq, Eq, Structural)]
pub struct ContextAttributeFlags {
    /// An alpha channel in the default framebuffer.
    pub alpha: bool,
    /// A depth buffer.
    pub depth: bool,
    /// A stencil buffer.
    pub stencil: bool,
    /// The compatibility profile instead of the core profile.
    pub compatibility_profile: bool,
}

impl ContextAttributeFlags {
    /// The empty set of flags.
    pub fn empty() -> (flags: ContextAttributeFlags)
        ensures
            flags == (ContextAttributeFlags {
                alpha: false,
                depth: false,
                stencil: false,
                compatibility_profile: false,
            }),
    {
        ContextAttributeFlags { alpha: false, depth: false, stencil: false, compatibility_profile: false }
    }

    /// The alpha flag alone.
    pub fn alpha() -> (flags: ContextAttributeFlags)
        ensures
            flags == (ContextAttributeFlags {
                alpha: true,
                depth: false,
                stencil: false,
                compatibility_profile: false,
            }),
    {
        ContextAttributeFlags { alpha: true, depth: false, stencil: false, compatibility_profile: false }
    }

    /// The depth flag alone.
    pub fn depth() -> (flags: ContextAttributeFlags)
        ensures
            flags == (ContextAttributeFlags {
                alpha: false,
                depth: true,
                stencil: false,
                compatibility_profile: false,
            }),
    {
        ContextAttributeFlags { alpha: false, depth: true, stencil: false, compatibility_profile: false }
    }

    /// The stencil flag alone.
    pub fn stencil() -> (flags: ContextAttributeFlags)
        ensures
            flags == (ContextAttributeFlags {
                alpha: false,
                depth: false,
                stencil: true,
                compatibility_profile: false,
            }),
    {
        ContextAttributeFlags { alpha: false, depth: false, stencil: true, compatibility_profile: false }
    }

    /// The compatibility-profile flag alone.
    pub fn compatibility_profile() -> (flags: ContextAttributeFlags)
        ensures
            flags == (ContextAttributeFlags {
                alpha: false,
                depth: false,
                stencil: false,
                compatibility_profile: true,
            }),
    {
        ContextAttributeFlags { alpha: false, depth: false, stencil: false, compatibility_profile: true }
    }

    /// The flags that are set in `self` or in `other`.
    pub fn union(&self, other: &ContextAttributeFlags) -> (flags: ContextAttributeFlags)
        ensures
            flags.alpha == (self.alpha || other.alpha),
            flags.depth == (self.depth || other.depth),
            flags.stencil == (self.stencil || other.stencil),
            flags.compatibility_profile == (self.compatibility_profile
                || other.compatibility_profile),
    {
        ContextAttributeFlags {
            alpha: self.alpha || other.alpha,
            depth: self.depth || other.depth,
            stencil: self.stencil || other.stencil,
            compatibility_profile: self.compatibility_profile || other.compatibility_profile,
        }
    }

    /// Whether every flag of `other` is set in `self`.
    pub fn contains(&self, other: &ContextAttributeFlags) -> (result: bool)
        ensures
            result == ((other.alpha ==> self.alpha) && (other.depth ==> self.depth) && (
            other.stencil ==> self.stencil) && (other.compatibility_profile
                ==> self.compatibility_profile)),
    {
        (!other.alpha || self.alpha) && (!other.depth || self.depth) && (!other.stencil
            || self.stencil) && (!other.compatibility_profile || self.compatibility_profile)
    }
}

/// The attributes that a context is asked to have.
#[derive(Clone, Copy, Debug, PartialEq, Eq, Structural)]
pub struct ContextAttributes {
    /// The OpenGL version.
    pub version: GLVersion,
    /// The optional features.
    pub flags: ContextAttributeFlags,
}

} // verus!
