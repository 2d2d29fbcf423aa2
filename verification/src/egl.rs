//! The EGL display, configuration and context that give OpenGL a place to run.
use vstd::prelude::*;

use crate::command::Fault;

verus! {

pub const OPENGL_API: u32 = 0x30A2;

pub const PBUFFER_BIT: i32 = 0x0001;

pub const OPENGL_BIT: i32 = 0x0008;

pub const CONTEXT_OPENGL_COMPATIBILITY_PROFILE_BIT: i32 = 0x0002;

pub const BLUE_SIZE: i32 = 0x3022;

pub const GREEN_SIZE: i32 = 0x3023;

pub const RED_SIZE: i32 = 0x3024;

pub const DEPTH_SIZE: i32 = 0x3025;

pub const SURFACE_TYPE: i32 = 0x3033;

pub const NONE: i32 = 0x3038;

pub const RENDERABLE_TYPE: i32 = 0x3040;

pub const CONTEXT_MAJOR_VERSION: i32 = 0x3098;

pub const CONTEXT_MINOR_VERSION: i32 = 0x30FB;

pub const CONTEXT_OPENGL_PROFILE_MASK: i32 = 0x30FD;

/// The native display behind the window, with its address where the platform
/// gives one.
#[derive(Clone, Copy, Debug, PartialEq, Eq)]
pub enum DisplayHandle {
    Wayland(usize),
    Xlib(Option<usize>),
    Other,
}

impl DisplayHandle {
    /// The native display that EGL is opened on, or why there is none.
    pub open spec fn spec_address(self) -> Result<usize, Fault> {
        match self {
            DisplayHandle::Wayland(display) => Ok(display),
            DisplayHandle::Xlib(Some(display)) => Ok(display),
            DisplayHandle::Xlib(None) => Err(Fault::MissingDisplay),
            DisplayHandle::Other => Err(Fault::UnsupportedDisplay),
        }
    }

    /// The native display that EGL is opened on. Only Wayland and Xlib displays are
    /// supported, and an Xlib handle may lack its display.
    pub fn address(&self) -> (address: Result<usize, Fault>)
        ensures
            address == self.spec_address(),
            forall|display: usize|
                *self == DisplayHandle::Wayland(display) || *self == DisplayHandle::Xlib(
                    Some(display),
                ) ==> address == Ok::<usize, Fault>(display),
    {
        match *self {
            DisplayHandle::Wayland(display) => Ok(display),
            DisplayHandle::Xlib(display) => match display {
                Some(display) => Ok(display),
                None => Err(Fault::MissingDisplay),
            },
            DisplayHandle::Other => Err(Fault::UnsupportedDisplay),
        }
    }

    /// EGL is opened on the very display that the handle holds, whatever its address is
    /// and whichever of the two platforms it belongs to.
    pub proof fn address_is_that_of_the_display(display: usize)
        ensures
            DisplayHandle::Wayland(display).spec_address() == Ok::<usize, Fault>(display),
            DisplayHandle::Xlib(Some(display)).spec_address() == Ok::<usize, Fault>(display),
    {
    }

    /// A handle has an address exactly if it holds a display, and the fault tells the two
    /// that hold none apart.
    pub proof fn only_displays_have_addresses(self)
        ensures
            self.spec_address() is Ok <==> self is Wayland || exists|display: usize|
                self == DisplayHandle::Xlib(Some(display)),
            self.spec_address() == Err::<usize, Fault>(Fault::MissingDisplay) <==> self
                == DisplayHandle::Xlib(None),
            self.spec_address() == Err::<usize, Fault>(Fault::UnsupportedDisplay) <==> self
                is Other,
    {
        if let DisplayHandle::Xlib(Some(display)) = self {
            assert(self == DisplayHandle::Xlib(Some(display)));
        }
    }
}

/// A configuration with 8 bits per color channel and 24 bits of depth that desktop
/// OpenGL can render to a pixel buffer with.
pub open spec fn spec_config_attributes() -> [i32; 13] {
    [
        SURFACE_TYPE,
        PBUFFER_BIT,
        RED_SIZE,
        8,
        GREEN_SIZE,
        8,
        BLUE_SIZE,
        8,
        DEPTH_SIZE,
        24,
        RENDERABLE_TYPE,
        OPENGL_BIT,
        NONE,
    ]
}

/// A configuration with 8 bits per color channel and 24 bits of depth that desktop
/// OpenGL can render to a pixel buffer with.
pub fn config_attributes() -> (attributes: [i32; 13])
    ensures
        attributes == spec_config_attributes(),
{
    [
        SURFACE_TYPE,
        PBUFFER_BIT,
        RED_SIZE,
        8,
        GREEN_SIZE,
        8,
        BLUE_SIZE,
        8,
        DEPTH_SIZE,
        24,
        RENDERABLE_TYPE,
        OPENGL_BIT,
        NONE,
    ]
}

/// An OpenGL 4.6 context in the compatibility profile, which keeps the fixed
/// function pipeline.
pub open spec fn spec_context_attributes() -> [i32; 7] {
    [
        CONTEXT_MAJOR_VERSION,
        4,
        CONTEXT_MINOR_VERSION,
        6,
        CONTEXT_OPENGL_PROFILE_MASK,
        CONTEXT_OPENGL_COMPATIBILITY_PROFILE_BIT,
        NONE,
    ]
}

/// An OpenGL 4.6 context in the compatibility profile, which keeps the fixed
/// function pipeline.
pub fn context_attributes() -> (attributes: [i32; 7])
    ensures
        attributes == spec_context_attributes(),
{
    [
        CONTEXT_MAJOR_VERSION,
        4,
        CONTEXT_MINOR_VERSION,
        6,
        CONTEXT_OPENGL_PROFILE_MASK,
        CONTEXT_OPENGL_COMPATIBILITY_PROFILE_BIT,
        NONE,
    ]
}

/// The configuration has 8 bits for each color and 24 for depth, and is one that OpenGL
/// renders to pixel buffers with; the context is one of OpenGL 4.6 with the compatibility
/// profile. Each list consists of names with their values, and ends.
pub proof fn attributes_come_in_pairs()
    ensures
        ({
            let config = spec_config_attributes()@;
            let context = spec_context_attributes()@;
            &&& config.subrange(0, 2) == seq![0x3033i32, 0x1]
            &&& config.subrange(2, 4) == seq![0x3024i32, 8]
            &&& config.subrange(4, 6) == seq![0x3023i32, 8]
            &&& config.subrange(6, 8) == seq![0x3022i32, 8]
            &&& config.subrange(8, 10) == seq![0x3025i32, 24]
            &&& config.subrange(10, 12) == seq![0x3040i32, 0x8]
            &&& config.len() == 13 && config.last() == 0x3038
            &&& context.subrange(0, 2) == seq![0x3098i32, 4]
            &&& context.subrange(2, 4) == seq![0x30FBi32, 6]
            &&& context.subrange(4, 6) == seq![0x30FDi32, 0x2]
            &&& context.len() == 7 && context.last() == 0x3038
        }),
{
}

} // verus!
