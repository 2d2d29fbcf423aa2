//! The numbers that the library hands out are those of the APIs.
use ash::vk as ash_vk;
use khronos_egl as khr;
use vulkan_opengl_demo::setup::{DeviceExtension, InstanceExtension};
use vulkan_opengl_demo::{egl, gl, pipeline, texture, vk};

#[test]
fn vulkan_enumerants_are_those_of_the_headers() {
    assert_eq!(vk::IMAGE_TYPE_2D, ash_vk::ImageType::TYPE_2D.as_raw());
    assert_eq!(vk::IMAGE_TILING_OPTIMAL, ash_vk::ImageTiling::OPTIMAL.as_raw());
    assert_eq!(vk::FORMAT_R8G8B8A8_UNORM, ash_vk::Format::R8G8B8A8_UNORM.as_raw());
    assert_eq!(vk::FORMAT_R8G8B8A8_SRGB, ash_vk::Format::R8G8B8A8_SRGB.as_raw());
}

#[test]
fn vulkan_flags_are_those_of_the_headers() {
    assert_eq!(vk::SAMPLE_COUNT_1, ash_vk::SampleCountFlags::TYPE_1.as_raw());
    assert_eq!(vk::IMAGE_USAGE_SAMPLED, ash_vk::ImageUsageFlags::SAMPLED.as_raw());
    assert_eq!(vk::IMAGE_USAGE_STORAGE, ash_vk::ImageUsageFlags::STORAGE.as_raw());
    assert_eq!(
        vk::MEMORY_PROPERTY_DEVICE_LOCAL,
        ash_vk::MemoryPropertyFlags::DEVICE_LOCAL.as_raw()
    );
    assert_eq!(
        vk::EXTERNAL_MEMORY_OPAQUE_FD,
        ash_vk::ExternalMemoryHandleTypeFlags::OPAQUE_FD.as_raw()
    );
    assert_eq!(
        vk::EXTERNAL_SEMAPHORE_OPAQUE_FD,
        ash_vk::ExternalSemaphoreHandleTypeFlags::OPAQUE_FD.as_raw()
    );
    assert_eq!(
        vk::PIPELINE_STAGE_FRAGMENT_SHADER,
        ash_vk::PipelineStageFlags::FRAGMENT_SHADER.as_raw()
    );
    assert_eq!(vk::MAX_MEMORY_TYPES, ash_vk::MAX_MEMORY_TYPES);
}

#[test]
fn texture_usages_are_those_of_wgpu() {
    assert_eq!(texture::USAGE_COPY_DST, wgpu::TextureUsages::COPY_DST.bits());
    assert_eq!(texture::USAGE_TEXTURE_BINDING, wgpu::TextureUsages::TEXTURE_BINDING.bits());
    assert_eq!(texture::USAGE_RENDER_ATTACHMENT, wgpu::TextureUsages::RENDER_ATTACHMENT.bits());
    assert_eq!(texture::USE_UNINITIALIZED, wgpu::TextureUses::UNINITIALIZED.bits());
    assert_eq!(texture::USE_RESOURCE, wgpu::TextureUses::RESOURCE.bits());
    assert_eq!(texture::USE_COLOR_TARGET, wgpu::TextureUses::COLOR_TARGET.bits());
}

#[test]
fn pipeline_flags_are_those_of_wgpu() {
    assert_eq!(pipeline::STAGE_FRAGMENT, wgpu::ShaderStages::FRAGMENT.bits());
    assert_eq!(pipeline::WRITE_ALL, wgpu::ColorWrites::ALL.bits());
}

#[test]
fn egl_enumerants_are_those_of_the_headers() {
    assert_eq!(egl::OPENGL_API, khr::OPENGL_API);
    assert_eq!(egl::PBUFFER_BIT, khr::PBUFFER_BIT);
    assert_eq!(egl::OPENGL_BIT, khr::OPENGL_BIT);
    assert_eq!(
        egl::CONTEXT_OPENGL_COMPATIBILITY_PROFILE_BIT,
        khr::CONTEXT_OPENGL_COMPATIBILITY_PROFILE_BIT
    );
    assert_eq!(egl::BLUE_SIZE, khr::BLUE_SIZE);
    assert_eq!(egl::GREEN_SIZE, khr::GREEN_SIZE);
    assert_eq!(egl::RED_SIZE, khr::RED_SIZE);
    assert_eq!(egl::DEPTH_SIZE, khr::DEPTH_SIZE);
    assert_eq!(egl::SURFACE_TYPE, khr::SURFACE_TYPE);
    assert_eq!(egl::NONE, khr::NONE);
    assert_eq!(egl::RENDERABLE_TYPE, khr::RENDERABLE_TYPE);
    assert_eq!(egl::CONTEXT_MAJOR_VERSION, khr::CONTEXT_MAJOR_VERSION);
    assert_eq!(egl::CONTEXT_MINOR_VERSION, khr::CONTEXT_MINOR_VERSION);
    assert_eq!(egl::CONTEXT_OPENGL_PROFILE_MASK, khr::CONTEXT_OPENGL_PROFILE_MASK);
}

#[test]
fn extension_names_are_those_of_the_headers() {
    assert_eq!(
        Ok(InstanceExtension::ExternalMemoryCapabilities.name()),
        ash_vk::KHR_EXTERNAL_MEMORY_CAPABILITIES_NAME.to_str()
    );
    assert_eq!(
        Ok(InstanceExtension::ExternalSemaphoreCapabilities.name()),
        ash_vk::KHR_EXTERNAL_SEMAPHORE_CAPABILITIES_NAME.to_str()
    );
    assert_eq!(
        Ok(DeviceExtension::ExternalSemaphoreFd.name()),
        ash_vk::KHR_EXTERNAL_SEMAPHORE_FD_NAME.to_str()
    );
}

#[test]
fn opengl_enumerants_are_those_of_the_headers() {
    assert_eq!(gl::NO_ERROR, 0);
    assert_eq!(gl::TRUE, 1);
    assert_eq!(gl::COLOR_BUFFER_BIT, 0x00004000);
    assert_eq!(gl::TRIANGLES, 0x0004);
    assert_eq!(gl::TEXTURE_2D, 0x0DE1);
    assert_eq!(gl::RGBA8, 0x8058);
    assert_eq!(gl::SRGB8_ALPHA8, 0x8C43);
    assert_eq!(gl::COLOR_ATTACHMENT0, 0x8CE0);
    assert_eq!(gl::FRAMEBUFFER, 0x8D40);
    assert_eq!(gl::TEXTURE_TILING_EXT, 0x9580);
    assert_eq!(gl::DEDICATED_MEMORY_OBJECT_EXT, 0x9581);
    assert_eq!(gl::OPTIMAL_TILING_EXT, 0x9584);
    assert_eq!(gl::HANDLE_TYPE_OPAQUE_FD_EXT, 0x9586);
    assert_eq!(gl::LAYOUT_GENERAL_EXT, 0x958D);
    assert_eq!(gl::LAYOUT_COLOR_ATTACHMENT_EXT, 0x958E);
}
