use vulkan_opengl_demo::format::{
    matching_formats, preferred_format, shared_formats, PixelFormat, SharedFormats,
};
use vulkan_opengl_demo::{gl, vk};

fn srgb() -> SharedFormats {
    SharedFormats {
        texture: PixelFormat::Rgba8UnormSrgb,
        image: vk::FORMAT_R8G8B8A8_SRGB,
        storage: gl::SRGB8_ALPHA8,
    }
}

fn linear() -> SharedFormats {
    SharedFormats {
        texture: PixelFormat::Rgba8Unorm,
        image: vk::FORMAT_R8G8B8A8_UNORM,
        storage: gl::RGBA8,
    }
}

#[test]
fn srgb_and_linear_formats() {
    assert_eq!(shared_formats(true), srgb());
    assert_eq!(shared_formats(false), linear());
    assert_eq!(shared_formats(true).image, 43);
    assert_eq!(shared_formats(true).storage, 0x8C43);
    assert_eq!(shared_formats(false).image, 37);
    assert_eq!(shared_formats(false).storage, 0x8058);
}

#[test]
fn formats_match_the_surface_whatever_its_channel_order() {
    assert_eq!(matching_formats(wgpu::TextureFormat::Bgra8UnormSrgb), srgb());
    assert_eq!(matching_formats(wgpu::TextureFormat::Rgba8UnormSrgb), srgb());
    assert_eq!(matching_formats(wgpu::TextureFormat::Bgra8Unorm), linear());
    assert_eq!(matching_formats(wgpu::TextureFormat::Rgba8Unorm), linear());
    assert_eq!(matching_formats(wgpu::TextureFormat::Rgba16Float), linear());
}

#[test]
fn preferred_format_is_the_first() {
    let formats = vec![wgpu::TextureFormat::Bgra8Unorm, wgpu::TextureFormat::Rgba8UnormSrgb];
    assert_eq!(preferred_format(&formats), Some(wgpu::TextureFormat::Bgra8Unorm));
    assert_eq!(preferred_format(&vec![]), None);
}
