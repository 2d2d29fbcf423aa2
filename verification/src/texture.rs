//! Descriptions of the images and textures that are created, with wgpu's flag bits.
use vstd::prelude::*;

use crate::format::PixelFormat;
use crate::vk;

verus! {

/// `wgpu::TextureUsages` bits.
pub const USAGE_COPY_DST: u32 = 0x2;

pub const USAGE_TEXTURE_BINDING: u32 = 0x4;

pub const USAGE_RENDER_ATTACHMENT: u32 = 0x10;

/// `wgpu::TextureUses` bits.
pub const USE_UNINITIALIZED: u16 = 0x1;

pub const USE_RESOURCE: u16 = 0x10;

pub const USE_COLOR_TARGET: u16 = 0x20;

/// A texture as wgpu sees it: two-dimensional and viewed in its own format only, by its
/// size, its mip and sample counts, its format and its `wgpu::TextureUsages` bits.
#[derive(Clone, Copy, Debug, PartialEq, Eq)]
pub struct TextureDescriptor {
    pub width: u32,
    pub height: u32,
    pub depth_or_array_layers: u32,
    pub mip_level_count: u32,
    pub sample_count: u32,
    pub format: PixelFormat,
    pub usage: u32,
}

/// A Vulkan image that hands its memory out under the given handle types.
#[derive(Clone, Copy, Debug, PartialEq, Eq, Structural)]
pub struct ImageInfo {
    pub image_type: i32,
    pub format: i32,
    pub width: u32,
    pub height: u32,
    pub depth: u32,
    pub mip_levels: u32,
    pub array_layers: u32,
    pub samples: u32,
    pub tiling: i32,
    pub usage: u32,
    pub handle_types: u32,
}

/// A Vulkan image and the memory that is dedicated to it as wgpu-hal takes them over:
/// two-dimensional and viewed in its own format only, with `wgpu::TextureUses` bits.
#[derive(Clone, Copy, Debug, PartialEq, Eq)]
pub struct HalTextureDescriptor {
    pub image: u64,
    pub memory: u64,
    pub width: u32,
    pub height: u32,
    pub depth_or_array_layers: u32,
    pub mip_level_count: u32,
    pub sample_count: u32,
    pub format: PixelFormat,
    pub usage: u16,
}

/// How frames are queued for the display.
#[derive(Clone, Copy, Debug, PartialEq, Eq, Structural)]
pub enum PresentMode {
    /// In order, one per refresh.
    Fifo,
}

/// How the window is composed over what is behind it.
#[derive(Clone, Copy, Debug, PartialEq, Eq, Structural)]
pub enum AlphaMode {
    Auto,
}

/// The color space that frames are shown in.
#[derive(Clone, Copy, Debug, PartialEq, Eq, Structural)]
pub enum ColorSpace {
    Auto,
}

/// How the window's surface is set up.
#[derive(Clone, Copy, Debug, PartialEq, Eq)]
pub struct SurfaceConfiguration {
    pub usage: u32,
    pub format: wgpu::TextureFormat,
    pub view_format: wgpu::TextureFormat,
    pub alpha_mode: AlphaMode,
    pub width: u32,
    pub height: u32,
    pub desired_maximum_frame_latency: u32,
    pub present_mode: PresentMode,
    pub color_space: ColorSpace,
}

/// The one-pixel texture that is bound until there is a shared one.
pub open spec fn spec_placeholder_texture(format: wgpu::TextureFormat) -> TextureDescriptor {
    TextureDescriptor {
        width: 1,
        height: 1,
        depth_or_array_layers: 1,
        mip_level_count: 1,
        sample_count: 1,
        format: PixelFormat::Surface(format),
        usage: USAGE_TEXTURE_BINDING | USAGE_COPY_DST,
    }
}

/// The one-pixel texture that is bound until there is a shared one.
pub fn placeholder_texture(format: wgpu::TextureFormat) -> (described: TextureDescriptor)
    ensures
        described == spec_placeholder_texture(format),
{
    TextureDescriptor {
        width: 1,
        height: 1,
        depth_or_array_layers: 1,
        mip_level_count: 1,
        sample_count: 1,
        format: PixelFormat::Surface(format),
        usage: USAGE_TEXTURE_BINDING | USAGE_COPY_DST,
    }
}

/// The shared texture, which wgpu may draw to and binds to be sampled.
pub open spec fn spec_target_texture(
    width: u32,
    height: u32,
    format: PixelFormat,
) -> TextureDescriptor {
    TextureDescriptor {
        width,
        height,
        depth_or_array_layers: 1,
        mip_level_count: 1,
        sample_count: 1,
        format,
        usage: USAGE_RENDER_ATTACHMENT | USAGE_TEXTURE_BINDING,
    }
}

/// The shared texture, which wgpu may draw to and binds to be sampled.
pub fn target_texture(
    width: u32,
    height: u32,
    format: PixelFormat,
) -> (described: TextureDescriptor)
    ensures
        described == spec_target_texture(width, height, format),
{
    TextureDescriptor {
        width,
        height,
        depth_or_array_layers: 1,
        mip_level_count: 1,
        sample_count: 1,
        format,
        usage: USAGE_RENDER_ATTACHMENT | USAGE_TEXTURE_BINDING,
    }
}

/// The image that backs the shared texture.
pub open spec fn spec_shared_image(width: u32, height: u32, format: i32) -> ImageInfo {
    ImageInfo {
        image_type: vk::IMAGE_TYPE_2D,
        format,
        width,
        height,
        depth: 1,
        mip_levels: 1,
        array_layers: 1,
        samples: vk::SAMPLE_COUNT_1,
        tiling: vk::IMAGE_TILING_OPTIMAL,
        usage: vk::IMAGE_USAGE_SAMPLED | vk::IMAGE_USAGE_STORAGE,
        handle_types: vk::EXTERNAL_MEMORY_OPAQUE_FD,
    }
}

/// The image that backs the shared texture.
pub fn shared_image(width: u32, height: u32, format: i32) -> (described: ImageInfo)
    ensures
        described == spec_shared_image(width, height, format),
{
    ImageInfo {
        image_type: vk::IMAGE_TYPE_2D,
        format,
        width,
        height,
        depth: 1,
        mip_levels: 1,
        array_layers: 1,
        samples: vk::SAMPLE_COUNT_1,
        tiling: vk::IMAGE_TILING_OPTIMAL,
        usage: vk::IMAGE_USAGE_SAMPLED | vk::IMAGE_USAGE_STORAGE,
        handle_types: vk::EXTERNAL_MEMORY_OPAQUE_FD,
    }
}

/// The backing image as wgpu-hal takes it over.
pub open spec fn spec_hal_texture(
    image: u64,
    memory: u64,
    width: u32,
    height: u32,
    format: PixelFormat,
) -> HalTextureDescriptor {
    HalTextureDescriptor {
        image,
        memory,
        width,
        height,
        depth_or_array_layers: 1,
        mip_level_count: 1,
        sample_count: 1,
        format,
        usage: USE_COLOR_TARGET | USE_RESOURCE,
    }
}

/// The backing image as wgpu-hal takes it over.
pub fn hal_texture(
    image: u64,
    memory: u64,
    width: u32,
    height: u32,
    format: PixelFormat,
) -> (described: HalTextureDescriptor)
    ensures
        described == spec_hal_texture(image, memory, width, height, format),
{
    HalTextureDescriptor {
        image,
        memory,
        width,
        height,
        depth_or_array_layers: 1,
        mip_level_count: 1,
        sample_count: 1,
        format,
        usage: USE_COLOR_TARGET | USE_RESOURCE,
    }
}

/// The surface in its preferred format, at the given size.
pub open spec fn spec_surface_configuration(
    format: wgpu::TextureFormat,
    width: u32,
    height: u32,
) -> SurfaceConfiguration {
    SurfaceConfiguration {
        usage: USAGE_RENDER_ATTACHMENT,
        format,
        view_format: format,
        alpha_mode: AlphaMode::Auto,
        width,
        height,
        desired_maximum_frame_latency: 2,
        present_mode: PresentMode::Fifo,
        color_space: ColorSpace::Auto,
    }
}

/// The surface in its preferred format, at the given size.
pub fn surface_configuration(
    format: wgpu::TextureFormat,
    width: u32,
    height: u32,
) -> (described: SurfaceConfiguration)
    ensures
        described == spec_surface_configuration(format, width, height),
{
    SurfaceConfiguration {
        usage: USAGE_RENDER_ATTACHMENT,
        format,
        view_format: format,
        alpha_mode: AlphaMode::Auto,
        width,
        height,
        desired_maximum_frame_latency: 2,
        present_mode: PresentMode::Fifo,
        color_space: ColorSpace::Auto,
    }
}

proof fn lemma_two_bits(a: u32, b: u32)
    by (bit_vector)
    ensures
        (a | b) & a == a,
        (a | b) & b == b,
        (a | b) & !a & !b == 0,
{
}

/// The placeholder is a single pixel of the given format, which can be written and bound,
/// and nothing else.
pub proof fn placeholder_is_one_pixel(format: wgpu::TextureFormat)
    ensures
        ({
            let texture = spec_placeholder_texture(format);
            &&& texture.width == 1 && texture.height == 1
            &&& texture.depth_or_array_layers == 1
            &&& texture.mip_level_count == 1 && texture.sample_count == 1
            &&& texture.format == PixelFormat::Surface(format)
            &&& texture.usage & USAGE_TEXTURE_BINDING == USAGE_TEXTURE_BINDING
            &&& texture.usage & USAGE_COPY_DST == USAGE_COPY_DST
            &&& texture.usage & !USAGE_TEXTURE_BINDING & !USAGE_COPY_DST == 0
        }),
{
    lemma_two_bits(USAGE_TEXTURE_BINDING, USAGE_COPY_DST);
}

/// Whatever its size and format, the shared texture has that size and format, one layer,
/// level and sample, and can be sampled and drawn to, and nothing else.
pub proof fn target_can_be_sampled_and_drawn_to(width: u32, height: u32, format: PixelFormat)
    ensures
        ({
            let texture = spec_target_texture(width, height, format);
            &&& texture.width == width && texture.height == height
            &&& texture.depth_or_array_layers == 1
            &&& texture.mip_level_count == 1 && texture.sample_count == 1
            &&& texture.format == format
            &&& texture.usage & USAGE_TEXTURE_BINDING == USAGE_TEXTURE_BINDING
            &&& texture.usage & USAGE_RENDER_ATTACHMENT == USAGE_RENDER_ATTACHMENT
            &&& texture.usage & !USAGE_RENDER_ATTACHMENT & !USAGE_TEXTURE_BINDING == 0
        }),
{
    lemma_two_bits(USAGE_RENDER_ATTACHMENT, USAGE_TEXTURE_BINDING);
}

/// Whatever its size and format, the image has that size and format, is flat, has one
/// layer, level and sample, can be sampled and stored to, and nothing else, and gives its
/// memory out as an opaque file descriptor.
pub proof fn image_has_the_size_and_can_be_sampled(width: u32, height: u32, format: i32)
    ensures
        ({
            let image = spec_shared_image(width, height, format);
            &&& image.width == width && image.height == height && image.depth == 1
            &&& image.format == format
            &&& image.image_type == vk::IMAGE_TYPE_2D
            &&& image.tiling == vk::IMAGE_TILING_OPTIMAL
            &&& image.mip_levels == 1 && image.array_layers == 1
            &&& image.samples == vk::SAMPLE_COUNT_1
            &&& image.usage & vk::IMAGE_USAGE_SAMPLED == vk::IMAGE_USAGE_SAMPLED
            &&& image.usage & vk::IMAGE_USAGE_STORAGE == vk::IMAGE_USAGE_STORAGE
            &&& image.usage & !vk::IMAGE_USAGE_SAMPLED & !vk::IMAGE_USAGE_STORAGE == 0
            &&& image.handle_types == vk::EXTERNAL_MEMORY_OPAQUE_FD
        }),
{
    lemma_two_bits(vk::IMAGE_USAGE_SAMPLED, vk::IMAGE_USAGE_STORAGE);
}

/// wgpu-hal takes over the very image and memory that it is given, at the given size and
/// in the given format, to be sampled and drawn to, and nothing else.
pub proof fn hal_texture_is_of_its_image(
    image: u64,
    memory: u64,
    width: u32,
    height: u32,
    format: PixelFormat,
)
    ensures
        ({
            let texture = spec_hal_texture(image, memory, width, height, format);
            &&& texture.image == image && texture.memory == memory
            &&& texture.width == width && texture.height == height
            &&& texture.depth_or_array_layers == 1
            &&& texture.mip_level_count == 1 && texture.sample_count == 1
            &&& texture.format == format
            &&& texture.usage & USE_RESOURCE == USE_RESOURCE
            &&& texture.usage & USE_COLOR_TARGET == USE_COLOR_TARGET
            &&& texture.usage & !USE_COLOR_TARGET & !USE_RESOURCE == 0
        }),
{
    let usage = USE_COLOR_TARGET | USE_RESOURCE;
    assert(usage & USE_RESOURCE == USE_RESOURCE && usage & USE_COLOR_TARGET == USE_COLOR_TARGET
        && usage & !USE_COLOR_TARGET & !USE_RESOURCE == 0) by (bit_vector)
        requires
            usage == USE_COLOR_TARGET | USE_RESOURCE,
    ;
}

/// The surface is configured in the given format and at the given size, each dimension for
/// itself, to be drawn to, and nothing else.
pub proof fn surface_has_the_size_of_the_window(
    format: wgpu::TextureFormat,
    width: u32,
    height: u32,
)
    ensures
        ({
            let surface = spec_surface_configuration(format, width, height);
            &&& surface.width == width && surface.height == height
            &&& surface.format == format && surface.view_format == format
            &&& surface.usage == USAGE_RENDER_ATTACHMENT
            &&& surface.desired_maximum_frame_latency == 2
        }),
{
}

} // verus!
