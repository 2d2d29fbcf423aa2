//! The OpenGL enumerants that the demo hands to the driver: those of OpenGL itself
//! and of the extensions `EXT_memory_object`, `EXT_memory_object_fd`, `EXT_semaphore`
//! and `EXT_semaphore_fd`.
use vstd::prelude::*;

verus! {

pub const NO_ERROR: u32 = 0;

pub const TRUE: i32 = 1;

pub const COLOR_BUFFER_BIT: u32 = 0x4000;

pub const TRIANGLES: u32 = 0x0004;

pub const TEXTURE_2D: u32 = 0x0DE1;

pub const RGBA8: u32 = 0x8058;

pub const SRGB8_ALPHA8: u32 = 0x8C43;

pub const COLOR_ATTACHMENT0: u32 = 0x8CE0;

pub const FRAMEBUFFER: u32 = 0x8D40;

pub const TEXTURE_TILING_EXT: u32 = 0x9580;

pub const DEDICATED_MEMORY_OBJECT_EXT: u32 = 0x9581;

pub const OPTIMAL_TILING_EXT: i32 = 0x9584;

pub const HANDLE_TYPE_OPAQUE_FD_EXT: u32 = 0x9586;

pub const LAYOUT_GENERAL_EXT: u32 = 0x958D;

pub const LAYOUT_COLOR_ATTACHMENT_EXT: u32 = 0x958E;

} // verus!
