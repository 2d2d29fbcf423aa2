//! The Vulkan enumerants and flag bits that the demo hands to the driver, as the
//! raw numbers of the Vulkan headers.
use vstd::prelude::*;

verus! {

pub const IMAGE_TYPE_2D: i32 = 1;

pub const IMAGE_TILING_OPTIMAL: i32 = 0;

pub const FORMAT_R8G8B8A8_UNORM: i32 = 37;

pub const FORMAT_R8G8B8A8_SRGB: i32 = 43;

pub const SAMPLE_COUNT_1: u32 = 0x1;

pub const IMAGE_USAGE_SAMPLED: u32 = 0x4;

pub const IMAGE_USAGE_STORAGE: u32 = 0x8;

pub const MEMORY_PROPERTY_DEVICE_LOCAL: u32 = 0x1;

pub const EXTERNAL_MEMORY_OPAQUE_FD: u32 = 0x1;

pub const EXTERNAL_SEMAPHORE_OPAQUE_FD: u32 = 0x1;

pub const PIPELINE_STAGE_FRAGMENT_SHADER: u32 = 0x80;

/// The length of the memory type table that a physical device reports.
pub const MAX_MEMORY_TYPES: usize = 32;

} // verus!
