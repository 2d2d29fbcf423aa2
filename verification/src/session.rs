//! What holds of every session: the application and the world that its commands act
//! on stay in step, whatever the window system reports and whatever handles, names
//! and file descriptors the drivers give out.
use vstd::prelude::*;

use crate::app::{App, Event, Phase};
use crate::command::{Color, Command, Reply};
use crate::egl;
use crate::egl::DisplayHandle;
use crate::device::{Allocation, Device, Exported, GlTexture, MemoryObject, Object, Storage};
use crate::format::{rgba8_formats, texture_format_is_srgb, PixelFormat};
use crate::gl;
use crate::gl_call::{CallAction, GlCall};
use crate::memory::MemoryRequirements;
use crate::pipeline::{
    spec_frame_pass, spec_group_layout, spec_pipeline_layout, spec_render_pipeline,
};
use crate::render::{spec_background, spec_scene, Render, RenderStep, Semaphores, Vertex};
use crate::resize::{Resize, ResizeStep, SharedTexture};
use crate::setup::{
    spec_device_extensions, spec_instance_extensions, DeviceExtension, InstanceExtension, Setup,
    SetupStep,
};
use crate::state::{State, Task};
use crate::texture::{
    hal_texture_is_of_its_image, image_has_the_size_and_can_be_sampled, placeholder_is_one_pixel,
    spec_hal_texture, spec_placeholder_texture, spec_shared_image, spec_surface_configuration,
    spec_target_texture, target_can_be_sampled_and_drawn_to, ImageInfo, USAGE_RENDER_ATTACHMENT,
    USAGE_TEXTURE_BINDING,
};
use crate::vk;

verus! {

/// The position of the setup's command that makes an object.
pub open spec fn made_at(object: Object) -> int {
    match object {
        Object::Instance => SetupStep::CreateInstance.index(),
        Object::Surface => SetupStep::CreateSurface.index(),
        Object::Adapter => SetupStep::RequestAdapter.index(),
        Object::OpenDevice => SetupStep::OpenDevice.index(),
        Object::Device => SetupStep::CreateDevice.index(),
        Object::Placeholder => SetupStep::CreatePlaceholderTexture.index(),
        Object::PlaceholderView => SetupStep::CreatePlaceholderView.index(),
        Object::Sampler => SetupStep::CreateSampler.index(),
        Object::BindGroupLayout => SetupStep::CreateBindGroupLayout.index(),
        Object::Shader => SetupStep::CreateShader.index(),
        Object::PipelineLayout => SetupStep::CreatePipelineLayout.index(),
        Object::Pipeline => SetupStep::CreatePipeline.index(),
        Object::Display => SetupStep::GetDisplay.index(),
        Object::InitializedDisplay => SetupStep::InitializeDisplay.index(),
        Object::Api => SetupStep::BindApi.index(),
        Object::Config => SetupStep::ChooseConfig.index(),
        Object::Context => SetupStep::CreateContext.index(),
        Object::CurrentContext => SetupStep::MakeCurrent.index(),
        Object::Functions => SetupStep::LoadFunctions.index(),
    }
}

/// Whether nothing has been shared or drawn yet.
pub open spec fn untouched(device: Device) -> bool {
    &&& no_memory(device)
    &&& device.hal_texture is None
    &&& device.texture is None
    &&& device.bound_framebuffer is None
    &&& device.surface is None
    &&& device.gl_owns is None
    &&& no_frame(device)
}

/// Whether no frame of the surface is under way.
pub open spec fn no_frame(device: Device) -> bool {
    !device.frame && !device.frame_view && device.encoded is None && device.submitted is None
}

/// Whether neither Vulkan nor OpenGL holds any texture memory.
pub open spec fn no_memory(device: Device) -> bool {
    &&& no_image(device)
    &&& device.memory_objects == Map::<u32, MemoryObject>::empty()
    &&& device.textures == Map::<u32, GlTexture>::empty()
}

/// Whether Vulkan holds no image and no memory.
pub open spec fn no_image(device: Device) -> bool {
    &&& device.images == Map::<u64, ImageInfo>::empty()
    &&& device.requirements == Map::<u64, MemoryRequirements>::empty()
    &&& device.allocations == Map::<u64, Allocation>::empty()
    &&& device.bindings == Map::<u64, u64>::empty()
}

/// The semaphores that the setup has created so far.
pub open spec fn setup_semaphores(setup: Setup) -> Set<u64> {
    let write = setup.semaphores.gl_write_finished;
    let read = setup.semaphores.vk_read_finished;
    let i = setup.step.index();
    if i <= SetupStep::CreateWriteSemaphore.index() {
        Set::empty()
    } else if i <= SetupStep::CreateReadSemaphore.index() {
        set![write]
    } else {
        set![write, read]
    }
}

/// The file descriptors that the setup holds.
pub open spec fn setup_fds(setup: Setup) -> Map<i32, Exported> {
    let write = Exported::Semaphore(setup.semaphores.gl_write_finished);
    let read = Exported::Semaphore(setup.semaphores.vk_read_finished);
    let write_fd = setup.gl_write_finished_fd;
    let read_fd = setup.vk_read_finished_fd;
    let i = setup.step.index();
    if i <= SetupStep::ExportWriteSemaphore.index() {
        Map::empty()
    } else if i <= SetupStep::ExportReadSemaphore.index() {
        map![write_fd => write]
    } else if i <= SetupStep::ImportWriteSemaphore.index() {
        map![write_fd => write, read_fd => read]
    } else if i <= SetupStep::ImportReadSemaphore.index() {
        map![read_fd => read]
    } else {
        Map::empty()
    }
}

/// The semaphores that the setup has imported into OpenGL so far.
pub open spec fn setup_gl_semaphores(setup: Setup) -> Map<u32, Option<u64>> {
    let write = setup.semaphores.gl_write_finished;
    let read = setup.semaphores.vk_read_finished;
    let gl_write = setup.semaphores.gl_gl_write_finished;
    let gl_read = setup.semaphores.gl_vk_read_finished;
    let i = setup.step.index();
    if i <= SetupStep::GenWriteSemaphore.index() {
        Map::empty()
    } else if i <= SetupStep::ImportWriteSemaphore.index() {
        map![gl_write => None::<u64>]
    } else if i <= SetupStep::GenReadSemaphore.index() {
        map![gl_write => Some(write)]
    } else if i <= SetupStep::ImportReadSemaphore.index() {
        map![gl_write => Some(write), gl_read => None::<u64>]
    } else {
        map![gl_write => Some(write), gl_read => Some(read)]
    }
}

/// Whether the world is as the setup has made it so far.
pub open spec fn setup_consistent(setup: Setup, device: Device) -> bool {
    let i = setup.step.index();
    let semaphores = setup.semaphores;
    &&& forall|object: Object| #[trigger] device.made.contains(object) <==> made_at(object) < i
    &&& i > SetupStep::CreateInstance.index() ==> {
        &&& device.validation
        &&& device.instance_extensions == spec_instance_extensions()@
    }
    &&& i > SetupStep::QueryFormats.index() ==> {
        &&& device.formats.len() > 0
        &&& setup.format == Some(device.formats[0])
    }
    &&& i > SetupStep::OpenDevice.index() ==> device.device_extensions
        == spec_device_extensions()@
    &&& i > SetupStep::CreatePlaceholderTexture.index() ==> device.placeholder == Some(
        spec_placeholder_texture(setup.format->0),
    )
    &&& i > SetupStep::BindApi.index() ==> device.api == Some(egl::OPENGL_API)
    &&& i > SetupStep::ChooseConfig.index() ==> device.config == egl::spec_config_attributes()@
    &&& i > SetupStep::CreateContext.index() ==> {
        &&& device.context == egl::spec_context_attributes()@
        &&& device.shared_context is None
    }
    &&& i > SetupStep::MakeCurrent.index() ==> device.current_surfaces == (
        None::<usize>,
        None::<usize>,
    )
    &&& i > SetupStep::QueryDisplay.index() ==> device.window_display == Some(setup.display)
    &&& i > SetupStep::CreateSurface.index() ==> device.surface_display == Some(setup.display)
    &&& i > SetupStep::RequestAdapter.index() ==> device.presents
    &&& i > SetupStep::CreateBindGroupLayout.index() ==> device.layout == Some(
        spec_group_layout(),
    )
    &&& i > SetupStep::CreatePipelineLayout.index() ==> device.bind_groups == Some(
        spec_pipeline_layout().bind_groups,
    )
    &&& i > SetupStep::CreatePipeline.index() ==> device.pipeline == Some(
        spec_render_pipeline(setup.format->0),
    )
    &&& i > SetupStep::GetDisplay.index() ==> one_display(device)
    &&& untouched(device)
    &&& device.signaled == Set::<u64>::empty()
    &&& device.pending_waits == Set::<u64>::empty()
    &&& device.pending_signals == if i <= SetupStep::AddSignal.index() {
        Set::<u64>::empty()
    } else {
        set![semaphores.vk_read_finished]
    }
    &&& device.semaphores == setup_semaphores(setup)
    &&& device.fds == setup_fds(setup)
    &&& device.gl_semaphores == setup_gl_semaphores(setup)
    &&& i > SetupStep::CreateReadSemaphore.index() ==> semaphores.gl_write_finished
        != semaphores.vk_read_finished
    &&& i > SetupStep::ExportReadSemaphore.index() ==> setup.gl_write_finished_fd
        != setup.vk_read_finished_fd
    &&& i > SetupStep::GenReadSemaphore.index() ==> semaphores.gl_gl_write_finished
        != semaphores.gl_vk_read_finished
}

/// Whether the surface and EGL are on the display of the window.
pub open spec fn one_display(device: Device) -> bool {
    &&& device.window_display is Some
    &&& device.surface_display == device.window_display
    &&& device.egl_display is Some
    &&& device.window_display == Some(DisplayHandle::Wayland(device.egl_display->0))
        || device.window_display == Some(DisplayHandle::Xlib(Some(device.egl_display->0)))
}

/// Whether wgpu, EGL and OpenGL are up, the pipeline draws to frames of the given format,
/// and OpenGL knows both semaphores.
pub open spec fn linked(
    format: wgpu::TextureFormat,
    semaphores: Semaphores,
    device: Device,
) -> bool {
    &&& forall|object: Object| #[trigger] device.made.contains(object)
    &&& device.validation
    &&& device.instance_extensions == spec_instance_extensions()@
    &&& device.device_extensions == spec_device_extensions()@
    &&& device.formats.len() > 0
    &&& device.formats[0] == format
    &&& device.placeholder == Some(spec_placeholder_texture(format))
    &&& device.api == Some(egl::OPENGL_API)
    &&& device.config == egl::spec_config_attributes()@
    &&& device.context == egl::spec_context_attributes()@
    &&& device.shared_context is None
    &&& device.current_surfaces == (None::<usize>, None::<usize>)
    &&& one_display(device)
    &&& device.presents
    &&& device.layout == Some(spec_group_layout())
    &&& device.bind_groups == Some(spec_pipeline_layout().bind_groups)
    &&& device.pipeline == Some(spec_render_pipeline(format))
    &&& semaphores.gl_write_finished != semaphores.vk_read_finished
    &&& semaphores.gl_gl_write_finished != semaphores.gl_vk_read_finished
    &&& device.semaphores == set![semaphores.gl_write_finished, semaphores.vk_read_finished]
    &&& device.gl_semaphores == map![
        semaphores.gl_gl_write_finished => Some(semaphores.gl_write_finished),
        semaphores.gl_vk_read_finished => Some(semaphores.vk_read_finished),
    ]
}

/// Whether it is OpenGL's turn: Vulkan has finished reading, and nothing else has
/// been signaled or is about to be.
pub open spec fn gl_turn(semaphores: Semaphores, device: Device) -> bool {
    &&& device.signaled == set![semaphores.vk_read_finished]
    &&& device.pending_waits == Set::<u64>::empty()
    &&& device.pending_signals == Set::<u64>::empty()
    &&& device.gl_owns is None
}

/// Whether the shared texture is all there is, at the given size: one image, bound to
/// one piece of memory, which one OpenGL memory object has imported and one OpenGL
/// texture is stored in.
pub open spec fn holds_texture(
    texture: SharedTexture,
    width: u32,
    height: u32,
    format: wgpu::TextureFormat,
    device: Device,
) -> bool {
    &&& device.texture is Some
    &&& ({
        let image = device.texture->0;
        let memory = device.bindings[image];
        &&& holds_image(image, memory, width, height, format, device)
        &&& device.memory_objects == map![
            texture.gl_mem_object => MemoryObject { dedicated: true, memory: Some(memory) },
        ]
        &&& device.textures == map![
            texture.gl_texture => stored_texture(memory, width, height, format),
        ]
    })
}

/// Whether Vulkan holds one image, bound to one piece of memory.
pub open spec fn holds_image(
    image: u64,
    memory: u64,
    width: u32,
    height: u32,
    format: wgpu::TextureFormat,
    device: Device,
) -> bool {
    let formats = rgba8_formats(texture_format_is_srgb(format));
    &&& device.images == map![image => spec_shared_image(width, height, formats.image)]
    &&& device.requirements.dom() == set![image]
    &&& device.allocations.dom() == set![memory]
    &&& device.allocations[memory].image == image
    &&& device.bindings == map![image => memory]
}

/// Whether Vulkan holds the image behind the wgpu texture, of whatever size, and its
/// memory.
pub open spec fn holds_old_image(format: wgpu::TextureFormat, device: Device) -> bool {
    &&& device.texture is Some
    &&& exists|width: u32, height: u32| #[trigger]
        holds_image(
            device.texture->0,
            device.bindings[device.texture->0],
            width,
            height,
            format,
            device,
        )
}

/// An OpenGL texture in the given memory, at the given size.
pub open spec fn stored_texture(
    memory: u64,
    width: u32,
    height: u32,
    format: wgpu::TextureFormat,
) -> GlTexture {
    GlTexture {
        optimal_tiling: true,
        storage: Some(
            Storage {
                memory,
                internal_format: rgba8_formats(texture_format_is_srgb(format)).storage,
                width: width as int,
                height: height as int,
            },
        ),
    }
}

/// Whether OpenGL draws to the shared texture and the shader samples it, all of it
/// and nothing else.
pub open spec fn shares(
    texture: SharedTexture,
    width: u32,
    height: u32,
    format: wgpu::TextureFormat,
    device: Device,
) -> bool {
    &&& holds_texture(texture, width, height, format, device)
    &&& draws_to(texture.gl_texture, width, height, device)
    &&& device.texture_descriptor == Some(
        spec_target_texture(width, height, rgba8_formats(texture_format_is_srgb(format)).texture),
    )
    &&& device.view == device.texture
    &&& device.sampled == device.texture
}

/// Whether OpenGL draws to the whole of a texture.
pub open spec fn draws_to(texture: u32, width: u32, height: u32, device: Device) -> bool {
    &&& device.bound_framebuffer is Some
    &&& device.framebuffers.dom().contains(device.bound_framebuffer->0)
    &&& device.framebuffers[device.bound_framebuffer->0] == Some(texture)
    &&& device.viewport == Some((0int, 0int, width as int, height as int))
}

/// Whether the world is as a resize has made it so far.
pub open spec fn resize_consistent(job: Resize, device: Device) -> bool {
    let i = job.step.index();
    let format = job.surface_format;
    &&& no_frame(device)
    &&& device.hal_texture == if i == ResizeStep::WrapTexture.index() {
        Some(
            spec_hal_texture(
                job.image,
                job.memory,
                job.width,
                job.height,
                job.formats.texture,
            ),
        )
    } else {
        None
    }
    &&& device.fds == if ResizeStep::ExportMemory.index() < i <= ResizeStep::ImportMemory.index() {
        map![job.fd => Exported::Memory(job.memory)]
    } else {
        Map::<i32, Exported>::empty()
    }
    &&& i == ResizeStep::DeleteTexture.index() ==> {
        exists|width: u32, height: u32| #[trigger]
            holds_texture(job.old->0, width, height, format, device)
    }
    &&& i == ResizeStep::DeleteMemoryObject.index() ==> {
        &&& device.textures == Map::<u32, GlTexture>::empty()
        &&& device.memory_objects.dom() == set![job.old->0.gl_mem_object]
        &&& holds_old_image(format, device)
    }
    &&& i == ResizeStep::DestroyTexture.index() ==> {
        &&& device.textures == Map::<u32, GlTexture>::empty()
        &&& device.memory_objects == Map::<u32, MemoryObject>::empty()
        &&& holds_old_image(format, device)
    }
    &&& i == ResizeStep::CreateImage.index() ==> no_memory(device) && device.texture is None
    &&& ResizeStep::CreateImage.index() < i ==> rebuild_consistent(job, device)
}

/// Whether the world is as a resize has made it since it created the image.
pub open spec fn rebuild_consistent(job: Resize, device: Device) -> bool {
    let i = job.step.index();
    let format = job.surface_format;
    &&& device.images == map![
        job.image => spec_shared_image(job.width, job.height, job.formats.image),
    ]
    &&& device.requirements == if i <= ResizeStep::QueryRequirements.index() {
        Map::<u64, MemoryRequirements>::empty()
    } else {
        map![job.image => job.requirements]
    }
    &&& i == ResizeStep::AllocateMemory.index() ==> {
        &&& device.properties is Some
        &&& device.properties->0.suitable(
            job.requirements.memory_type_bits,
            job.memory_type_index,
        )
    }
    &&& device.allocations == if i <= ResizeStep::AllocateMemory.index() {
        Map::<u64, Allocation>::empty()
    } else {
        map![job.memory => Allocation { size: job.requirements.size, image: job.image }]
    }
    &&& device.bindings == if i <= ResizeStep::BindImageMemory.index() {
        Map::<u64, u64>::empty()
    } else {
        map![job.image => job.memory]
    }
    &&& device.memory_objects == if i <= ResizeStep::CreateMemoryObject.index() {
        Map::<u32, MemoryObject>::empty()
    } else if i <= ResizeStep::SetDedicated.index() {
        map![job.gl_mem_object => MemoryObject { dedicated: false, memory: None }]
    } else if i <= ResizeStep::ImportMemory.index() {
        map![job.gl_mem_object => MemoryObject { dedicated: true, memory: None }]
    } else {
        map![job.gl_mem_object => MemoryObject { dedicated: true, memory: Some(job.memory) }]
    }
    &&& device.textures == if i <= ResizeStep::GenTexture.index() {
        Map::<u32, GlTexture>::empty()
    } else if i <= ResizeStep::SetTiling.index() {
        map![job.gl_texture => GlTexture { optimal_tiling: false, storage: None }]
    } else if i <= ResizeStep::TextureStorage.index() {
        map![job.gl_texture => GlTexture { optimal_tiling: true, storage: None }]
    } else {
        map![job.gl_texture => stored_texture(job.memory, job.width, job.height, format)]
    }
    &&& i == ResizeStep::SetTiling.index() ==> device.bound_texture == Some(job.gl_texture)
    &&& ResizeStep::GenFramebuffer.index() < i ==> device.framebuffers.dom().contains(
        job.framebuffer,
    )
    &&& ResizeStep::BindFramebuffer.index() < i ==> device.bound_framebuffer == Some(
        job.framebuffer,
    )
    &&& ResizeStep::AttachTexture.index() < i ==> device.framebuffers[job.framebuffer] == Some(
        job.gl_texture,
    )
    &&& ResizeStep::Viewport.index() < i ==> device.viewport == Some(
        (0int, 0int, job.width as int, job.height as int),
    )
    &&& device.texture == if i <= ResizeStep::WrapTexture.index() {
        None
    } else {
        Some(job.image)
    }
    &&& ResizeStep::WrapTexture.index() < i ==> device.texture_descriptor == Some(
        spec_target_texture(job.width, job.height, job.formats.texture),
    )
    &&& ResizeStep::CreateTextureView.index() < i ==> device.view == Some(job.image)
}

/// Whether the world is as a frame has made it so far.
pub open spec fn render_consistent(job: Render, device: Device) -> bool {
    let j = job.step.index();
    let write = job.semaphores.gl_write_finished;
    let read = job.semaphores.vk_read_finished;
    &&& device.signaled == if j <= RenderStep::WaitSemaphore.index() {
        set![read]
    } else if j <= RenderStep::SignalSemaphore.index() {
        Set::<u64>::empty()
    } else if j <= RenderStep::SubmitFrame.index() {
        set![write]
    } else {
        set![read]
    }
    &&& device.pending_waits == if RenderStep::AddWait.index() < j
        <= RenderStep::SubmitFrame.index() {
        set![write]
    } else {
        Set::<u64>::empty()
    }
    &&& device.pending_signals == if RenderStep::AddSignal.index() < j
        <= RenderStep::SubmitFrame.index() {
        set![read]
    } else {
        Set::<u64>::empty()
    }
    &&& device.gl_owns == if RenderStep::WaitSemaphore.index() < j
        <= RenderStep::SignalSemaphore.index() {
        Some(job.gl_texture)
    } else {
        None
    }
    &&& RenderStep::ClearColor.index() < j ==> device.clear_color == Some(spec_background())
    &&& RenderStep::Clear.index() < j ==> {
        &&& device.drawing is Some
        &&& device.drawing->0.background == Some(spec_background())
    }
    &&& RenderStep::DrawScene.index() < j ==> {
        &&& device.drawing is Some
        &&& device.drawing->0.mode == Some(gl::TRIANGLES)
        &&& device.drawing->0.vertices == spec_scene()@
    }
    &&& RenderStep::Flush.index() < j ==> device.flushed
    &&& device.frame == (RenderStep::AcquireFrame.index() < j)
    &&& device.frame_view == (RenderStep::CreateFrameView.index() < j)
    &&& device.encoded == if RenderStep::EncodePass.index() < j
        <= RenderStep::SubmitFrame.index() {
        Some(spec_frame_pass())
    } else {
        None
    }
    &&& device.submitted == if RenderStep::SubmitFrame.index() < j {
        Some(spec_frame_pass())
    } else {
        None
    }
}

/// Whether the world is as the running demo has made it so far.
pub open spec fn state_consistent(state: State, device: Device) -> bool {
    &&& linked(state.format, state.semaphores, device)
    &&& match state.task {
        Task::Idle => {
            &&& gl_turn(state.semaphores, device)
            &&& no_frame(device)
            &&& device.hal_texture is None
            &&& device.fds == Map::<i32, Exported>::empty()
            &&& match state.shared_texture {
                Some(texture) => {
                    &&& shares(texture, state.width, state.height, state.format, device)
                    &&& device.surface == Some(
                        spec_surface_configuration(state.format, state.width, state.height),
                    )
                },
                None => no_memory(device) && device.texture is None && device.surface is None,
            }
        },
        Task::Resize(job) => {
            &&& gl_turn(state.semaphores, device)
            &&& resize_consistent(job, device)
            &&& job.step is ConfigureSurface ==> shares(
                state.shared_texture->0,
                state.width,
                state.height,
                state.format,
                device,
            )
        },
        Task::Render(job) => {
            &&& device.hal_texture is None
            &&& device.fds == Map::<i32, Exported>::empty()
            &&& shares(
                state.shared_texture->0,
                state.width,
                state.height,
                state.format,
                device,
            )
            &&& device.surface == Some(
                spec_surface_configuration(state.format, state.width, state.height),
            )
            &&& render_consistent(job, device)
        },
    }
}

/// Whether the world is as the application has made it so far. One that has stopped
/// expects nothing of it.
pub open spec fn consistent(app: App, device: Device) -> bool {
    &&& app.wf()
    &&& match app.phase {
        Phase::Suspended => device == Device::initial(),
        Phase::Starting(setup) => setup_consistent(setup, device),
        Phase::Running(state) => state_consistent(state, device),
        Phase::Stopped(_) => true,
    }
}

/// The extensions that sharing memory and semaphores takes are among those that are added.
proof fn lemma_extensions()
    ensures
        spec_instance_extensions()@.contains(InstanceExtension::ExternalMemoryCapabilities),
        spec_instance_extensions()@.contains(InstanceExtension::ExternalSemaphoreCapabilities),
        spec_device_extensions()@.contains(DeviceExtension::ExternalSemaphoreFd),
{
    assert(spec_instance_extensions()@[0] is ExternalMemoryCapabilities);
    assert(spec_instance_extensions()@[1] is ExternalSemaphoreCapabilities);
    assert(spec_device_extensions()@[0] is ExternalSemaphoreFd);
}

/// Every command of the setup is a proper use of what the setup has made so far, and
/// leaves the world as the setup then expects it.
proof fn lemma_setup_step(setup: Setup, device: Device, reply: Reply)
    requires
        setup.wf(),
        setup.step !is Finished,
        setup_consistent(setup, device),
    ensures
        device.allows(setup.spec_command()->0),
        setup.fault(reply) is None && device.gives(setup.spec_command()->0, reply) ==> ({
            let next = device.after(setup.spec_command()->0, reply);
            if setup.step is SubmitEmpty {
                state_consistent(State::initial(setup.format->0, setup.semaphores), next)
            } else {
                setup_consistent(setup.after(reply), next)
            }
        }),
{
    lemma_extensions();
    placeholder_is_one_pixel(setup.format->0);
    let next = device.after(setup.spec_command()->0, reply);
    if setup.fault(reply) is None && device.gives(setup.spec_command()->0, reply) {
        if setup.step is SubmitEmpty {
            assert(next.signaled =~= set![setup.semaphores.vk_read_finished]);
        } else {
            let after = setup.after(reply);
            assert(next.semaphores =~= setup_semaphores(after));
            assert(next.fds =~= setup_fds(after));
            assert(next.gl_semaphores =~= setup_gl_semaphores(after));
            if setup.step is AddSignal {
                assert(next.pending_signals =~= set![setup.semaphores.vk_read_finished]);
            }
        }
    }
}

/// Every command of a resize is a proper use of what the resize has made so far, and
/// leaves the world as the resize then expects it.
proof fn lemma_resize_step(state: State, device: Device, reply: Reply)
    requires
        state.wf(),
        state.task is Resize,
        state_consistent(state, device),
    ensures
        device.allows(state.spec_command()->0),
        state.fault(reply) is None && device.gives(state.spec_command()->0, reply)
            ==> state_consistent(
            state.after(reply),
            device.after(state.spec_command()->0, reply),
        ),
{
    let job = state.task->Resize_0;
    let command = state.spec_command()->0;
    let next = device.after(command, reply);
    lemma_extensions();
    hal_texture_is_of_its_image(
        job.image,
        job.memory,
        job.width,
        job.height,
        job.formats.texture,
    );
    target_can_be_sampled_and_drawn_to(job.width, job.height, job.formats.texture);
    assert(USAGE_RENDER_ATTACHMENT & USAGE_RENDER_ATTACHMENT != 0) by (bit_vector);
    if state.fault(reply) is None && device.gives(command, reply) {
        let after = job.after(reply);
        match job.step {
            ResizeStep::DeleteTexture => {
                let (width, height) = choose|width: u32, height: u32| #[trigger]
                    holds_texture(job.old->0, width, height, state.format, device);
                assert(next.textures =~= Map::<u32, GlTexture>::empty());
                assert(next.memory_objects.dom() =~= set![job.old->0.gl_mem_object]);
                assert(holds_image(
                    next.texture->0,
                    next.bindings[next.texture->0],
                    width,
                    height,
                    after.surface_format,
                    next,
                ));
            },
            ResizeStep::DeleteMemoryObject => {
                let image = device.texture->0;
                let memory = device.bindings[image];
                let (width, height) = choose|width: u32, height: u32| #[trigger]
                    holds_image(image, memory, width, height, state.format, device);
                assert(next.memory_objects =~= Map::<u32, MemoryObject>::empty());
                assert(holds_image(image, memory, width, height, state.format, next));
            },
            ResizeStep::DestroyTexture => {
                assert(next.images =~= Map::<u64, ImageInfo>::empty());
                assert(next.requirements =~= Map::<u64, MemoryRequirements>::empty());
                assert(next.allocations =~= Map::<u64, Allocation>::empty());
                assert(next.bindings =~= Map::<u64, u64>::empty());
            },
            ResizeStep::QueryMemoryProperties => {
                reply->Properties_0.lowest_suitable_is_first(job.requirements.memory_type_bits);
            },
            ResizeStep::SetDedicated => {
                assert(next.memory_objects =~= map![
                    job.gl_mem_object => MemoryObject { dedicated: true, memory: None },
                ]);
            },
            ResizeStep::ImportMemory => {
                assert(next.fds =~= Map::<i32, Exported>::empty());
                assert(next.memory_objects =~= map![
                    job.gl_mem_object => MemoryObject {
                        dedicated: true,
                        memory: Some(job.memory),
                    },
                ]);
            },
            ResizeStep::SetTiling => {
                assert(next.textures =~= map![
                    job.gl_texture => GlTexture { optimal_tiling: true, storage: None },
                ]);
            },
            ResizeStep::TextureStorage => {
                assert(next.textures =~= map![
                    job.gl_texture => stored_texture(
                        job.memory,
                        job.width,
                        job.height,
                        state.format,
                    ),
                ]);
            },
            _ => {},
        }
    }
}

/// Every command of a frame is a proper use of what the frame has made so far, and
/// leaves the world as the frame then expects it.
proof fn lemma_render_step(state: State, device: Device, reply: Reply)
    requires
        state.wf(),
        state.task is Render,
        state_consistent(state, device),
    ensures
        device.allows(state.spec_command()->0),
        state.fault(reply) is None && device.gives(state.spec_command()->0, reply)
            ==> state_consistent(
            state.after(reply),
            device.after(state.spec_command()->0, reply),
        ),
{
    let job = state.task->Render_0;
    let command = state.spec_command()->0;
    let write = job.semaphores.gl_write_finished;
    let read = job.semaphores.vk_read_finished;
    let next = device.after(command, reply);
    if state.fault(reply) is None && device.gives(command, reply) {
        match job.step {
            RenderStep::WaitSemaphore => {
                assert(next.signaled =~= Set::<u64>::empty());
            },
            RenderStep::SignalSemaphore => {
                assert(next.signaled =~= set![write]);
            },
            RenderStep::AddWait => {
                assert(next.pending_waits =~= set![write]);
            },
            RenderStep::AddSignal => {
                assert(next.pending_signals =~= set![read]);
            },
            RenderStep::SubmitFrame => {
                assert(next.signaled =~= set![read]);
            },
            _ => {},
        }
    }
}

/// Neither the setup nor a resize presents anything, and a frame does so last.
proof fn lemma_only_frames_present(app: App)
    requires
        app.spec_command() == Some(Command::Present),
    ensures
        app.phase is Running,
        app.phase->Running_0.task is Render,
        app.phase->Running_0.task->Render_0.step is Present,
{
    match app.phase {
        Phase::Starting(setup) => {
            lemma_setup_does_not_present(setup);
        },
        Phase::Running(state) => {
            if let Task::Resize(job) = state.task {
                lemma_resize_does_not_present(job);
            }
        },
        _ => {},
    }
}

proof fn lemma_setup_does_not_present(setup: Setup)
    ensures
        setup.spec_command() != Some(Command::Present),
{
    let script = setup.script();
    assert(forall|k: int| 0 <= k < 32 ==> #[trigger] script[k] != Command::Present);
}

proof fn lemma_resize_does_not_present(job: Resize)
    ensures
        job.spec_command() != Some(Command::Present),
{
    let script = job.script();
    assert(forall|k: int| 0 <= k < 25 ==> #[trigger] script[k] != Command::Present);
}

/// What happens to the application from outside.
pub enum Input {
    Resumed,
    Event(Event),
    /// The running state is given a new size, of which a part may not be known.
    Resize((Option<u32>, Option<u32>)),
    Reply(Reply),
    /// The OpenGL call of the current command has come to its end.
    Call(GlCall, Reply),
}

/// The application and the world that its commands act on.
pub struct Session {
    pub app: App,
    pub device: Device,
}

impl Session {
    /// The session before anything has happened.
    pub open spec fn initial() -> Session {
        Session { app: App::initial(), device: Device::initial() }
    }

    /// Whether an input can come next: a reply is one that the world can give to the
    /// current command.
    pub open spec fn expects(self, input: Input) -> bool {
        match input {
            Input::Reply(reply) => {
                &&& self.app.spec_command() is Some
                &&& self.device.gives(self.app.spec_command()->0, reply)
            },
            Input::Call(call, reply) => {
                &&& self.app.spec_command() is Some
                &&& call.spec_action() == CallAction::Succeed ==> self.device.gives(
                    self.app.spec_command()->0,
                    reply,
                )
            },
            _ => true,
        }
    }

    /// The session after an input.
    pub open spec fn after(self, input: Input) -> Session {
        match input {
            Input::Resumed => Session { app: self.app.after_resumed(), ..self },
            Input::Event(event) => Session { app: self.app.after_event(event), ..self },
            Input::Resize(new_size) => match self.app.phase {
                Phase::Running(state) if state.task is Idle => Session {
                    app: App { phase: Phase::Running(state.resizing(new_size)) },
                    ..self
                },
                _ => self,
            },
            Input::Reply(reply) => Session {
                app: self.app.after(reply),
                device: self.device.after(self.app.spec_command()->0, reply),
            },
            Input::Call(call, reply) => Session {
                app: self.app.after_call(call, reply),
                device: self.device.after(self.app.spec_command()->0, reply),
            },
        }
    }

    /// The session after a run of inputs.
    pub open spec fn run(inputs: Seq<Input>) -> Session
        decreases inputs.len(),
    {
        if inputs.len() == 0 {
            Session::initial()
        } else {
            Session::run(inputs.drop_last()).after(inputs.last())
        }
    }

    /// Whether each of a run of inputs can come when it does.
    pub open spec fn possible(inputs: Seq<Input>) -> bool
        decreases inputs.len(),
    {
        inputs.len() > 0 ==> {
            &&& Session::possible(inputs.drop_last())
            &&& Session::run(inputs.drop_last()).expects(inputs.last())
        }
    }

    /// A reply that can come leaves the world as the application expects it.
    proof fn lemma_reply(self, reply: Reply)
        requires
            consistent(self.app, self.device),
            self.expects(Input::Reply(reply)),
        ensures
            consistent(
                self.after(Input::Reply(reply)).app,
                self.after(Input::Reply(reply)).device,
            ),
    {
        let next = self.after(Input::Reply(reply));
        match self.app.phase {
            Phase::Starting(setup) => {
                lemma_setup_step(setup, self.device, reply);
                assert(next.app.wf());
            },
            Phase::Running(state) => {
                match state.task {
                    Task::Idle => {},
                    Task::Resize(_) => {
                        lemma_resize_step(state, self.device, reply);
                        assert(next.app.wf());
                    },
                    Task::Render(_) => {
                        lemma_render_step(state, self.device, reply);
                        assert(next.app.wf());
                    },
                }
            },
            _ => {},
        }
    }

    /// Every input that can come leaves the world as the application expects it.
    pub proof fn input_keeps_consistent(self, input: Input)
        requires
            consistent(self.app, self.device),
            self.expects(input),
        ensures
            consistent(self.after(input).app, self.after(input).device),
    {
        let next = self.after(input);
        match input {
            Input::Resumed => {
                assert(next.app.wf());
            },
            Input::Event(event) => {
                assert(next.app.wf());
                if let Phase::Running(state) = self.app.phase {
                    if self.app.reaction(event) is Ok {
                        if let Event::Resized { .. } = event {
                            assert(state.shared_texture is Some ==> holds_texture(
                                state.shared_texture->0,
                                state.width,
                                state.height,
                                state.format,
                                self.device,
                            ));
                        }
                    }
                }
            },
            Input::Resize(_) => {
                assert(next.app.wf());
                if let Phase::Running(state) = self.app.phase {
                    assert(state.task is Idle && state.shared_texture is Some
                        ==> holds_texture(
                        state.shared_texture->0,
                        state.width,
                        state.height,
                        state.format,
                        self.device,
                    ));
                }
            },
            Input::Reply(reply) => {
                self.lemma_reply(reply);
            },
            Input::Call(call, reply) => {
                if call.spec_action() == CallAction::Succeed {
                    self.lemma_reply(reply);
                }
            },
        }
    }

    /// Whatever happens, the world is as the application expects it.
    pub proof fn session_is_consistent(inputs: Seq<Input>)
        requires
            Session::possible(inputs),
        ensures
            consistent(Session::run(inputs).app, Session::run(inputs).device),
        decreases inputs.len(),
    {
        if inputs.len() > 0 {
            Session::session_is_consistent(inputs.drop_last());
            Session::run(inputs.drop_last()).input_keeps_consistent(inputs.last());
        }
    }

    /// Whatever happens, every command that is carried out is a proper use of the
    /// world as it then is, in the sense of `Device::allows`, which is that of the model
    /// and bounds no sizes. No object is used before it is created or after it is
    /// deleted; OpenGL is not called before its context is current; memory is allocated
    /// as its image requires, and imported at the size that it was allocated with; no
    /// semaphore is waited for unless it has been signaled, nor signaled twice; and
    /// OpenGL draws only while it is its turn.
    pub proof fn every_command_is_proper(inputs: Seq<Input>)
        requires
            Session::possible(inputs),
        ensures
            Session::run(inputs).app.spec_command() matches Some(command) ==> Session::run(
                inputs,
            ).device.allows(command),
    {
        let session = Session::run(inputs);
        Session::session_is_consistent(inputs);
        match session.app.phase {
            Phase::Suspended | Phase::Stopped(_) => {},
            Phase::Starting(setup) => {
                lemma_setup_step(setup, session.device, Reply::Done);
            },
            Phase::Running(state) => {
                match state.task {
                    Task::Idle => {},
                    Task::Resize(_) => {
                        lemma_resize_step(state, session.device, Reply::Done);
                    },
                    Task::Render(_) => {
                        lemma_render_step(state, session.device, Reply::Done);
                    },
                }
            },
        }
    }

    /// A session ends with the first fault: a reply that the application cannot go on
    /// with, an OpenGL call that raised an error, or an event that it cannot serve.
    /// Whatever happens after it, no further command is handed out.
    pub proof fn fault_ends_session(inputs: Seq<Input>, later: Seq<Input>)
        requires
            Session::run(inputs).app.phase is Stopped,
        ensures
            Session::run(inputs + later).app == Session::run(inputs).app,
            Session::run(inputs + later).app.spec_command() is None,
        decreases later.len(),
    {
        if later.len() == 0 {
            assert(inputs + later =~= inputs);
        } else {
            Session::fault_ends_session(inputs, later.drop_last());
            assert((inputs + later).drop_last() =~= inputs + later.drop_last());
        }
    }

    /// During every frame, the memory that OpenGL draws to is the memory that the
    /// shader samples, OpenGL draws to all of it, and by the time Vulkan's pass is
    /// encoded OpenGL has drawn the scene there and given the texture up.
    pub proof fn frame_shows_what_was_drawn(inputs: Seq<Input>)
        requires
            Session::possible(inputs),
            Session::run(inputs).app.phase is Running,
            Session::run(inputs).app.phase->Running_0.task is Render,
        ensures
            ({
                let app = Session::run(inputs).app;
                let device = Session::run(inputs).device;
                &&& device.drawn_memory() is Some
                &&& device.drawn_memory() == device.sampled_memory()
                &&& device.viewport == Some(
                    (
                        0int,
                        0int,
                        device.images[device.sampled->0].width as int,
                        device.images[device.sampled->0].height as int,
                    ),
                )
                &&& app.spec_command() matches Some(Command::EncodePass(_)) ==> {
                    &&& device.drawing is Some && device.drawing->0.mode == Some(0x0004u32)
                    &&& device.drawing->0.vertices.len() == 3
                    &&& device.flushed && device.gl_owns is None
                }
            }),
    {
        Session::session_is_consistent(inputs);
    }

    /// Once the demo runs, the surface and EGL are on the same display, that of the window,
    /// and the adapter can present to the surface.
    pub proof fn surface_and_egl_share_display(inputs: Seq<Input>)
        requires
            Session::possible(inputs),
            Session::run(inputs).app.phase is Running,
        ensures
            ({
                let device = Session::run(inputs).device;
                &&& one_display(device)
                &&& device.presents
                &&& device.surface_display == device.window_display
                &&& forall|display: usize|
                    device.window_display == Some(DisplayHandle::Wayland(display))
                        || device.window_display == Some(DisplayHandle::Xlib(Some(display)))
                        ==> device.egl_display == Some(display)
            }),
    {
        Session::session_is_consistent(inputs);
    }

    /// Once the demo runs, it draws in the format that the surface prefers, of those that it
    /// supports; the instance validates, and sharing memory and semaphores is enabled.
    pub proof fn surface_has_its_preferred_format(inputs: Seq<Input>)
        requires
            Session::possible(inputs),
            Session::run(inputs).app.phase is Running,
        ensures
            ({
                let state = Session::run(inputs).app.phase->Running_0;
                let device = Session::run(inputs).device;
                &&& device.formats.len() > 0 && state.format == device.formats.first()
                &&& device.validation
                &&& device.instance_extensions == seq![
                    InstanceExtension::ExternalMemoryCapabilities,
                    InstanceExtension::ExternalSemaphoreCapabilities,
                ]
                &&& device.device_extensions == seq![DeviceExtension::ExternalSemaphoreFd]
            }),
    {
        Session::session_is_consistent(inputs);
    }

    /// Once the demo runs, there is a placeholder of one pixel in the surface's format to be
    /// sampled; the fragment shader sees a texture and a sampler, in the one bind group of
    /// the pipeline; and the pipeline draws triangles to frames of the surface's format.
    pub proof fn pipeline_is_there_for_the_surface(inputs: Seq<Input>)
        requires
            Session::possible(inputs),
            Session::run(inputs).app.phase is Running,
        ensures
            ({
                let format = Session::run(inputs).app.phase->Running_0.format;
                let device = Session::run(inputs).device;
                let placeholder = device.placeholder->0;
                let layout = device.layout->0;
                let pipeline = device.pipeline->0;
                &&& device.placeholder is Some && device.layout is Some && device.pipeline is Some
                &&& placeholder.width == 1 && placeholder.height == 1
                &&& placeholder.format == PixelFormat::Surface(format)
                &&& placeholder.usage & USAGE_TEXTURE_BINDING == USAGE_TEXTURE_BINDING
                &&& layout.texture.binding == 0 && layout.sampler.binding == 1
                &&& layout.texture.visibility == 0x2 && layout.sampler.visibility == 0x2
                &&& layout.texture.kind is Texture && layout.sampler.kind is Sampler
                &&& device.bind_groups == Some(1u32)
                &&& pipeline.target_format == format && pipeline.topology is TriangleList
                &&& pipeline.vertex_entry@ == "vs"@ && pipeline.fragment_entry@ == "fs"@
                &&& pipeline.write_mask == 0xF && pipeline.sample_count == 1
                &&& pipeline.depth_stencil is None && pipeline.vertex_buffers == 0
            }),
    {
        Session::session_is_consistent(inputs);
        placeholder_is_one_pixel(Session::run(inputs).app.phase->Running_0.format);
    }

    /// Once the demo runs, the current context is one of desktop OpenGL 4.6 with the
    /// compatibility profile, which shares with no other and has no surface of its own.
    pub proof fn context_is_opengl_compatibility(inputs: Seq<Input>)
        requires
            Session::possible(inputs),
            Session::run(inputs).app.phase is Running,
        ensures
            ({
                let device = Session::run(inputs).device;
                &&& device.gl_ready()
                &&& device.api == Some(0x30A2u32)
                &&& device.config == seq![
                    0x3033i32,
                    0x1,
                    0x3024,
                    8,
                    0x3023,
                    8,
                    0x3022,
                    8,
                    0x3025,
                    24,
                    0x3040,
                    0x8,
                    0x3038,
                ]
                &&& device.context == seq![0x3098i32, 4, 0x30FB, 6, 0x30FD, 0x2, 0x3038]
                &&& device.shared_context is None
                &&& device.current_surfaces == (None::<usize>, None::<usize>)
            }),
    {
        Session::session_is_consistent(inputs);
    }

    /// The running demo keeps its size, its format and its semaphores until it is given a new
    /// size, and then has that size, whichever of its dimensions are known.
    pub proof fn only_a_new_size_changes_the_size(self, input: Input)
        requires
            self.app.phase is Running,
            self.after(input).app.phase is Running,
        ensures
            ({
                let before = self.app.phase->Running_0;
                let after = self.after(input).app.phase->Running_0;
                &&& after.format == before.format && after.semaphores == before.semaphores
                &&& match input {
                    Input::Event(Event::Resized { width, height }) => {
                        after.width == width && after.height == height
                    },
                    Input::Resize(new_size) if before.task is Idle => {
                        &&& after.width == match new_size.0 {
                            Some(width) => width,
                            None => 256,
                        }
                        &&& after.height == match new_size.1 {
                            Some(height) => height,
                            None => 256,
                        }
                    },
                    _ => after.width == before.width && after.height == before.height,
                }
            }),
    {
    }

    /// Every frame that is presented shows the scene: one filled triangle, red at the top,
    /// green at the lower left and blue at the lower right, over opaque black, which OpenGL
    /// drew to the memory that the shader sampled; and the pass that sampled it covered the
    /// frame with two triangles over a dark blue, and was kept.
    pub proof fn presented_frame_shows_the_triangle(inputs: Seq<Input>)
        requires
            Session::possible(inputs),
            Session::run(inputs).app.spec_command() == Some(Command::Present),
        ensures
            ({
                let device = Session::run(inputs.push(Input::Reply(Reply::Done))).device;
                let shown = device.shown->0;
                &&& device.shown is Some
                &&& shown.drawing.mode == Some(0x0004u32)
                &&& shown.drawing.vertices == seq![
                    Vertex { red: 10, green: 0, blue: 0, x: 0, y: 1 },
                    Vertex { red: 0, green: 10, blue: 0, x: -1i8, y: -1i8 },
                    Vertex { red: 0, green: 0, blue: 10, x: 1, y: -1i8 },
                ]
                &&& shown.drawing.background == Some(
                    Color { red: 0, green: 0, blue: 0, alpha: 10 },
                )
                &&& shown.drawn_memory is Some && shown.drawn_memory == shown.sampled_memory
                &&& shown.pass.color_attachment is Frame && shown.pass.store is Store
                &&& shown.pass.clear == Color { red: 1, green: 2, blue: 3, alpha: 10 }
                &&& shown.pass.first_vertex == 0 && shown.pass.end_vertex == 6
                &&& shown.pass.first_instance == 0 && shown.pass.end_instance == 1
                &&& shown.pass.bind_group_index == 0 && shown.pass.dynamic_offset is None
                &&& shown.pass.resolve_target is None && shown.pass.depth_stencil is None
            }),
    {
        let session = Session::run(inputs);
        Session::session_is_consistent(inputs);
        lemma_only_frames_present(session.app);
        assert(inputs.push(Input::Reply(Reply::Done)).drop_last() =~= inputs);
        assert(Session::run(inputs.push(Input::Reply(Reply::Done))).device
            == session.device.after(Command::Present, Reply::Done));
        let state = session.app.phase->Running_0;
        let job = state.task->Render_0;
        assert(shares(
            state.shared_texture->0,
            state.width,
            state.height,
            state.format,
            session.device,
        ));
        assert(render_consistent(job, session.device));
    }

    /// Between tasks it is OpenGL's turn: Vulkan has signaled that it has finished
    /// reading, also before the first frame, and no other signal is pending.
    pub proof fn gl_can_proceed_at_rest(inputs: Seq<Input>)
        requires
            Session::possible(inputs),
            Session::run(inputs).app.phase is Running,
            Session::run(inputs).app.at_rest(),
        ensures
            gl_turn(
                Session::run(inputs).app.phase->Running_0.semaphores,
                Session::run(inputs).device,
            ),
    {
        Session::session_is_consistent(inputs);
    }

    /// Between tasks no file descriptor is left open, and what the drivers hold is the
    /// shared texture alone: as many resizes as there may have been, there is one
    /// image, one piece of memory, one memory object and one OpenGL texture, and none
    /// of these before the first resize.
    pub proof fn nothing_but_shared_texture_at_rest(inputs: Seq<Input>)
        requires
            Session::possible(inputs),
            Session::run(inputs).app.phase is Running,
            Session::run(inputs).app.at_rest(),
        ensures
            ({
                let state = Session::run(inputs).app.phase->Running_0;
                let device = Session::run(inputs).device;
                &&& device.fds == Map::<i32, Exported>::empty()
                &&& state.shared_texture is None ==> no_memory(device)
                &&& state.shared_texture matches Some(texture) ==> {
                    &&& device.texture is Some
                    &&& device.images.dom() == set![device.texture->0]
                    &&& device.allocations.dom() == set![device.bindings[device.texture->0]]
                    &&& device.memory_objects.dom() == set![texture.gl_mem_object]
                    &&& device.textures.dom() == set![texture.gl_texture]
                }
            }),
    {
        Session::session_is_consistent(inputs);
        let state = Session::run(inputs).app.phase->Running_0;
        let device = Session::run(inputs).device;
        if let Some(texture) = state.shared_texture {
            assert(device.images.dom() =~= set![device.texture->0]);
            assert(device.memory_objects.dom() =~= set![texture.gl_mem_object]);
            assert(device.textures.dom() =~= set![texture.gl_texture]);
        }
    }

    /// Between tasks a configured surface, the Vulkan image, the OpenGL texture and the wgpu
    /// texture all have the size that the demo was last given, be it known in whole or in
    /// part, and OpenGL draws to all of it; the pipeline draws to the format of the surface,
    /// which is the one that the demo found; the image and the textures are sRGB-encoded
    /// exactly if the surface is; and the wgpu texture can be sampled and drawn to.
    pub proof fn surface_and_texture_match_at_rest(inputs: Seq<Input>)
        requires
            Session::possible(inputs),
            Session::run(inputs).app.phase is Running,
            Session::run(inputs).app.at_rest(),
            Session::run(inputs).app.phase->Running_0.configured,
        ensures
            ({
                let state = Session::run(inputs).app.phase->Running_0;
                let device = Session::run(inputs).device;
                let srgb = texture_format_is_srgb(state.format);
                let surface = device.surface->0;
                let texture = device.texture_descriptor->0;
                let image = device.images[device.texture->0];
                let storage = device.textures[state.shared_texture->0.gl_texture].storage->0;
                &&& device.surface == Some(
                    spec_surface_configuration(state.format, state.width, state.height),
                )
                &&& device.pipeline == Some(spec_render_pipeline(state.format))
                &&& device.surface is Some && device.texture_descriptor is Some
                &&& surface.width == state.width && surface.height == state.height
                &&& surface.format == state.format && surface.view_format == state.format
                &&& surface.usage == USAGE_RENDER_ATTACHMENT
                &&& surface.desired_maximum_frame_latency == 2
                &&& device.pipeline->0.target_format == surface.format
                &&& device.images.dom().contains(device.texture->0)
                &&& image.width == state.width && image.height == state.height
                &&& image.depth == 1 && image.mip_levels == 1 && image.array_layers == 1
                &&& image.image_type == vk::IMAGE_TYPE_2D
                &&& image.samples == vk::SAMPLE_COUNT_1
                &&& image.tiling == vk::IMAGE_TILING_OPTIMAL
                &&& image.usage & vk::IMAGE_USAGE_SAMPLED == vk::IMAGE_USAGE_SAMPLED
                &&& image.format == if srgb {
                    vk::FORMAT_R8G8B8A8_SRGB
                } else {
                    vk::FORMAT_R8G8B8A8_UNORM
                }
                &&& storage.width == state.width && storage.height == state.height
                &&& storage.internal_format == if srgb {
                    gl::SRGB8_ALPHA8
                } else {
                    gl::RGBA8
                }
                &&& texture.width == state.width && texture.height == state.height
                &&& texture.depth_or_array_layers == 1 && texture.mip_level_count == 1
                &&& texture.sample_count == 1
                &&& texture.format is Rgba8UnormSrgb <==> srgb
                &&& texture.format is Rgba8Unorm <==> !srgb
                &&& texture.usage & USAGE_TEXTURE_BINDING == USAGE_TEXTURE_BINDING
                &&& texture.usage & USAGE_RENDER_ATTACHMENT == USAGE_RENDER_ATTACHMENT
                &&& texture.usage & !USAGE_RENDER_ATTACHMENT & !USAGE_TEXTURE_BINDING == 0
                &&& device.viewport == Some((0int, 0int, state.width as int, state.height as int))
            }),
    {
        Session::session_is_consistent(inputs);
        let state = Session::run(inputs).app.phase->Running_0;
        let formats = rgba8_formats(texture_format_is_srgb(state.format));
        image_has_the_size_and_can_be_sampled(state.width, state.height, formats.image);
        target_can_be_sampled_and_drawn_to(state.width, state.height, formats.texture);
    }
}

/// How many commands the setup or task under way has left.
pub open spec fn commands_left(app: App) -> int {
    match app.phase {
        Phase::Suspended | Phase::Stopped(_) => 0,
        Phase::Starting(setup) => SetupStep::Finished.index() - setup.step.index(),
        Phase::Running(state) => match state.task {
            Task::Idle => 0,
            Task::Resize(job) => ResizeStep::Finished.index() - job.step.index(),
            Task::Render(job) => RenderStep::Finished.index() - job.step.index(),
        },
    }
}

/// The setup and every task come to an end: each reply leaves one command less, and
/// the application is at rest when none is left.
pub proof fn replies_bring_work_to_its_end(app: App, reply: Reply)
    requires
        app.wf(),
        app.fault(reply) is None,
    ensures
        commands_left(app) > 0,
        commands_left(app.after(reply)) == commands_left(app) - 1,
        commands_left(app.after(reply)) == 0 <==> app.after(reply).at_rest(),
{
}

} // verus!
