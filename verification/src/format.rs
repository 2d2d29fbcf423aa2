//! The pixel formats of the texture that OpenGL and Vulkan share.
use vstd::prelude::*;

use crate::gl;
use crate::vk;

verus! {

/// `wgpu::TextureFormat`, carried from the surface to the descriptors that name it.
#[verifier::external_type_specification]
#[verifier::external_body]
pub struct ExTextureFormat(wgpu::TextureFormat);

/// What `wgpu::TextureFormat::is_srgb` answers for a format.
pub uninterp spec fn texture_format_is_srgb(format: wgpu::TextureFormat) -> bool;

/// Calls `wgpu::TextureFormat::is_srgb`.
///
/// Trusted: the answer depends on the format alone.
#[verifier::external_body]
fn is_srgb(format: wgpu::TextureFormat) -> (srgb: bool)
    ensures
        srgb == texture_format_is_srgb(format),
{
    format.is_srgb()
}

/// The format of a wgpu texture.
#[derive(Clone, Copy, Debug, PartialEq, Eq)]
pub enum PixelFormat {
    /// The format that the surface prefers.
    Surface(wgpu::TextureFormat),
    Rgba8Unorm,
    Rgba8UnormSrgb,
}

/// One pixel format under the names that wgpu, Vulkan and OpenGL have for it.
#[derive(Clone, Copy, Debug, PartialEq, Eq)]
pub struct SharedFormats {
    pub texture: PixelFormat,
    pub image: i32,
    pub storage: u32,
}

/// The RGBA format with 8 bits per channel, sRGB-encoded or linear.
pub open spec fn rgba8_formats(srgb: bool) -> SharedFormats {
    if srgb {
        SharedFormats {
            texture: PixelFormat::Rgba8UnormSrgb,
            image: vk::FORMAT_R8G8B8A8_SRGB,
            storage: gl::SRGB8_ALPHA8,
        }
    } else {
        SharedFormats {
            texture: PixelFormat::Rgba8Unorm,
            image: vk::FORMAT_R8G8B8A8_UNORM,
            storage: gl::RGBA8,
        }
    }
}

impl SharedFormats {
    /// Whether the three names stand for the same format.
    pub open spec fn agree(self) -> bool {
        self == rgba8_formats(true) || self == rgba8_formats(false)
    }
}

/// The shared formats for a surface that is sRGB-encoded or not. OpenGL expects
/// RGBA, whatever the channel order of the surface.
pub fn shared_formats(srgb: bool) -> (formats: SharedFormats)
    ensures
        formats == rgba8_formats(srgb),
        formats.agree(),
{
    if srgb {
        SharedFormats {
            texture: PixelFormat::Rgba8UnormSrgb,
            image: vk::FORMAT_R8G8B8A8_SRGB,
            storage: gl::SRGB8_ALPHA8,
        }
    } else {
        SharedFormats {
            texture: PixelFormat::Rgba8Unorm,
            image: vk::FORMAT_R8G8B8A8_UNORM,
            storage: gl::RGBA8,
        }
    }
}

/// The shared formats that match a surface of the given format.
pub fn matching_formats(surface: wgpu::TextureFormat) -> (formats: SharedFormats)
    ensures
        formats == rgba8_formats(texture_format_is_srgb(surface)),
        formats.agree(),
{
    shared_formats(is_srgb(surface))
}

/// Picks the surface's preferred format, the first of those it supports.
pub fn preferred_format(formats: &Vec<wgpu::TextureFormat>) -> (format: Option<
    wgpu::TextureFormat,
>)
    ensures
        format == if formats@.len() > 0 {
            Some(formats@[0])
        } else {
            None
        },
{
    if formats.len() > 0 {
        Some(formats[0])
    } else {
        None
    }
}

/// The three names of a shared format stand for the same encoding, sRGB or linear, and it
/// is the one that was asked for: R8G8B8A8_SRGB and SRGB8_ALPHA8, or R8G8B8A8_UNORM and
/// RGBA8.
pub proof fn shared_formats_have_one_encoding(srgb: bool)
    ensures
        ({
            let formats = rgba8_formats(srgb);
            &&& formats.texture is Rgba8UnormSrgb <==> srgb
            &&& formats.texture is Rgba8Unorm <==> !srgb
            &&& formats.image == 43 <==> srgb
            &&& formats.image == 37 <==> !srgb
            &&& formats.storage == 0x8C43 <==> srgb
            &&& formats.storage == 0x8058 <==> !srgb
        }),
{
}

} // verus!
