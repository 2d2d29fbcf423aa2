//! A model of the world that the commands act on: which objects wgpu, Vulkan, EGL and
//! OpenGL hold, which memory and semaphore is behind each, and when a command is a
//! proper use of them.
use vstd::prelude::*;

use crate::command::{Color, Command, Reply, ViewSource};
use crate::egl;
use crate::egl::DisplayHandle;
use crate::format::PixelFormat;
use crate::gl;
use crate::memory::{MemoryProperties, MemoryRequirements};
use crate::pipeline::{GroupLayout, PassDescriptor, PipelineDescriptor};
use crate::render::Vertex;
use crate::setup::{DeviceExtension, InstanceExtension};
use crate::texture::{
    HalTextureDescriptor, ImageInfo, SurfaceConfiguration, TextureDescriptor,
    USAGE_RENDER_ATTACHMENT, USAGE_TEXTURE_BINDING, USE_COLOR_TARGET, USE_RESOURCE,
    USE_UNINITIALIZED,
};
use crate::vk;

verus! {

/// The objects of wgpu and EGL that exist once each.
pub enum Object {
    Instance,
    Surface,
    Adapter,
    OpenDevice,
    Device,
    Placeholder,
    PlaceholderView,
    Sampler,
    BindGroupLayout,
    Shader,
    PipelineLayout,
    Pipeline,
    Display,
    InitializedDisplay,
    Api,
    Config,
    Context,
    CurrentContext,
    Functions,
}

/// What a file descriptor was exported from.
pub enum Exported {
    Memory(u64),
    Semaphore(u64),
}

/// Vulkan memory, dedicated to an image.
pub struct Allocation {
    pub size: u64,
    pub image: u64,
}

/// An OpenGL memory object.
pub struct MemoryObject {
    pub dedicated: bool,
    /// The Vulkan memory that was imported into it.
    pub memory: Option<u64>,
}

/// What an OpenGL texture is stored in.
pub struct Storage {
    pub memory: u64,
    pub internal_format: u32,
    pub width: int,
    pub height: int,
}

/// An OpenGL texture.
pub struct GlTexture {
    /// Whether the texture was given the tiling that the image has.
    pub optimal_tiling: bool,
    pub storage: Option<Storage>,
}

/// What OpenGL has drawn.
pub struct Drawing {
    /// The color that everything was cleared to.
    pub background: Option<Color>,
    /// The primitives that were drawn over it: their mode and their vertices.
    pub mode: Option<u32>,
    pub vertices: Seq<Vertex>,
}

/// A frame that is shown in the window: what OpenGL had drawn, the memory that it had drawn
/// it to and the memory that the shader sampled, and the pass that sampled it.
pub struct Shown {
    pub drawing: Drawing,
    pub drawn_memory: Option<u64>,
    pub sampled_memory: Option<u64>,
    pub pass: PassDescriptor,
}

/// The world that the commands act on.
#[verifier::ext_equal]
pub struct Device {
    pub made: Set<Object>,
    /// Whether the instance validates what it is told.
    pub validation: bool,
    /// The extensions that were added to those of wgpu.
    pub instance_extensions: Seq<InstanceExtension>,
    pub device_extensions: Seq<DeviceExtension>,
    /// The formats that the surface supports, in the order of its preference.
    pub formats: Seq<wgpu::TextureFormat>,
    pub placeholder: Option<TextureDescriptor>,
    /// The API that EGL binds, the attributes of the configuration and of the context, the
    /// context that it shares with, and the surfaces that it is current with.
    pub api: Option<u32>,
    pub config: Seq<i32>,
    pub context: Seq<i32>,
    pub shared_context: Option<usize>,
    pub current_surfaces: (Option<usize>, Option<usize>),
    /// The native displays that the window has, that the surface was created with, and
    /// that EGL was opened on.
    pub window_display: Option<DisplayHandle>,
    pub surface_display: Option<DisplayHandle>,
    pub egl_display: Option<usize>,
    /// Whether the adapter can present to the surface.
    pub presents: bool,
    pub layout: Option<GroupLayout>,
    /// How many bind groups the pipeline layout has.
    pub bind_groups: Option<u32>,
    pub pipeline: Option<PipelineDescriptor>,
    /// The file descriptors that are open and owned by the demo.
    pub fds: Map<i32, Exported>,
    pub semaphores: Set<u64>,
    /// The semaphores that are signaled and not yet waited for.
    pub signaled: Set<u64>,
    /// The semaphore that was imported under each name of OpenGL.
    pub gl_semaphores: Map<u32, Option<u64>>,
    /// What the next submission waits for and signals.
    pub pending_waits: Set<u64>,
    pub pending_signals: Set<u64>,
    pub images: Map<u64, ImageInfo>,
    pub requirements: Map<u64, MemoryRequirements>,
    pub properties: Option<MemoryProperties>,
    pub allocations: Map<u64, Allocation>,
    /// The memory that each image is bound to.
    pub bindings: Map<u64, u64>,
    pub memory_objects: Map<u32, MemoryObject>,
    pub textures: Map<u32, GlTexture>,
    pub bound_texture: Option<u32>,
    /// The texture that is attached to each framebuffer.
    pub framebuffers: Map<u32, Option<u32>>,
    pub bound_framebuffer: Option<u32>,
    /// The corner and the size of the part that OpenGL draws to.
    pub viewport: Option<(int, int, int, int)>,
    /// The image that wgpu-hal has taken over and wgpu has not.
    pub hal_texture: Option<HalTextureDescriptor>,
    /// The images behind the shared wgpu texture, behind its view, and behind the
    /// texture that the shader samples. There is none behind the placeholder.
    pub texture: Option<u64>,
    pub texture_descriptor: Option<TextureDescriptor>,
    pub view: Option<u64>,
    pub sampled: Option<u64>,
    /// How the surface is configured.
    pub surface: Option<SurfaceConfiguration>,
    /// The texture that OpenGL may write to at the moment.
    pub gl_owns: Option<u32>,
    /// The color that OpenGL clears to, what it has drawn since it was last given the
    /// texture, and whether it has handed the drawing to the driver.
    pub clear_color: Option<Color>,
    pub drawing: Option<Drawing>,
    pub flushed: bool,
    /// How far the frame of the surface has come.
    pub frame: bool,
    pub frame_view: bool,
    pub encoded: Option<PassDescriptor>,
    pub submitted: Option<PassDescriptor>,
    /// What the window shows.
    pub shown: Option<Shown>,
}

impl Device {
    /// The world before anything has been created.
    pub open spec fn initial() -> Device {
        Device {
            made: Set::empty(),
            validation: false,
            instance_extensions: Seq::empty(),
            device_extensions: Seq::empty(),
            formats: Seq::empty(),
            placeholder: None,
            api: None,
            config: Seq::empty(),
            context: Seq::empty(),
            shared_context: None,
            current_surfaces: (None, None),
            window_display: None,
            surface_display: None,
            egl_display: None,
            presents: false,
            layout: None,
            bind_groups: None,
            pipeline: None,
            fds: Map::empty(),
            semaphores: Set::empty(),
            signaled: Set::empty(),
            gl_semaphores: Map::empty(),
            pending_waits: Set::empty(),
            pending_signals: Set::empty(),
            images: Map::empty(),
            requirements: Map::empty(),
            properties: None,
            allocations: Map::empty(),
            bindings: Map::empty(),
            memory_objects: Map::empty(),
            textures: Map::empty(),
            bound_texture: None,
            framebuffers: Map::empty(),
            bound_framebuffer: None,
            viewport: None,
            hal_texture: None,
            texture: None,
            texture_descriptor: None,
            view: None,
            sampled: None,
            surface: None,
            gl_owns: None,
            clear_color: None,
            drawing: None,
            flushed: false,
            frame: false,
            frame_view: false,
            encoded: None,
            submitted: None,
            shown: None,
        }
    }

    /// Whether OpenGL can be called.
    pub open spec fn gl_ready(self) -> bool {
        self.made.contains(Object::CurrentContext) && self.made.contains(Object::Functions)
    }

    /// The texture that OpenGL draws to, if it draws to one that has storage.
    pub open spec fn draw_target(self) -> Option<u32> {
        match self.bound_framebuffer {
            Some(framebuffer) => if self.framebuffers.dom().contains(framebuffer) {
                match self.framebuffers[framebuffer] {
                    Some(texture) => if self.textures.dom().contains(texture)
                        && self.textures[texture].storage is Some {
                        Some(texture)
                    } else {
                        None
                    },
                    None => None,
                }
            } else {
                None
            },
            None => None,
        }
    }

    /// The memory that OpenGL draws to.
    pub open spec fn drawn_memory(self) -> Option<u64> {
        match self.draw_target() {
            Some(texture) => Some(self.textures[texture].storage->0.memory),
            None => None,
        }
    }

    /// The memory that the shader samples.
    pub open spec fn sampled_memory(self) -> Option<u64> {
        match self.sampled {
            Some(image) => if self.images.dom().contains(image)
                && self.bindings.dom().contains(image) {
                Some(self.bindings[image])
            } else {
                None
            },
            None => None,
        }
    }

    /// Whether OpenGL may write to what it draws to.
    pub open spec fn may_draw(self) -> bool {
        self.gl_ready() && self.draw_target() is Some && self.gl_owns == self.draw_target()
    }

    /// Whether a texture of the given format can wrap a Vulkan image.
    pub open spec fn format_matches(image: ImageInfo, format: PixelFormat) -> bool {
        ||| image.format == vk::FORMAT_R8G8B8A8_SRGB && format is Rgba8UnormSrgb
        ||| image.format == vk::FORMAT_R8G8B8A8_UNORM && format is Rgba8Unorm
    }

    /// Whether an OpenGL texture of the given format can be stored in the memory of a
    /// Vulkan image.
    pub open spec fn storage_matches(image: ImageInfo, internal_format: u32) -> bool {
        ||| image.format == vk::FORMAT_R8G8B8A8_SRGB && internal_format == gl::SRGB8_ALPHA8
        ||| image.format == vk::FORMAT_R8G8B8A8_UNORM && internal_format == gl::RGBA8
    }

    /// Whether a texture of wgpu can be bound for a shader that samples it.
    pub open spec fn can_be_sampled(texture: TextureDescriptor) -> bool {
        texture.usage & USAGE_TEXTURE_BINDING != 0 && texture.sample_count == 1
    }

    /// Whether the pending waits and signals of a submission can take effect: what is
    /// waited for is signaled, and what is signaled is not signaled already.
    pub open spec fn may_submit(self) -> bool {
        &&& self.made.contains(Object::Device)
        &&& self.pending_waits.subset_of(self.signaled)
        &&& self.pending_signals.disjoint(self.signaled.difference(self.pending_waits))
    }

    /// Whether the pipeline can draw in a pass: the frame has the format that the pipeline
    /// draws to, both have a depth attachment or neither has, and the bind group is set
    /// where the pipeline has one, which has no buffers that an offset could be for.
    pub open spec fn fits_pipeline(self, pass: PassDescriptor) -> bool {
        &&& self.pipeline is Some
        &&& self.surface is Some
        &&& self.surface->0.format == self.pipeline->0.target_format
        &&& pass.depth_stencil is Some <==> self.pipeline->0.depth_stencil is Some
        &&& self.pipeline->0.sample_count == 1 ==> pass.resolve_target is None
        &&& self.bind_groups is Some
        &&& pass.bind_group_index < self.bind_groups->0
        &&& pass.dynamic_offset is None
    }

    /// Whether carrying out a command is a proper use of the world as it is: what it
    /// names is there, in a state in which the command can act on it. Sizes are not
    /// bounded; the drivers themselves refuse an image or a surface that is empty or too
    /// large for them.
    pub open spec fn allows(self, command: Command) -> bool {
        let made = self.made;
        match command {
            Command::CreateInstance { .. } => true,
            Command::QueryDisplay => true,
            Command::CreateSurface { display } => {
                &&& made.contains(Object::Instance)
                &&& self.window_display == Some(display)
            },
            Command::RequestAdapter { .. } => made.contains(Object::Instance) && made.contains(
                Object::Surface,
            ),
            Command::QueryFormats => made.contains(Object::Surface) && made.contains(
                Object::Adapter,
            ),
            Command::OpenDevice { device_extensions } => {
                &&& made.contains(Object::Adapter)
                &&& device_extensions@.contains(DeviceExtension::ExternalSemaphoreFd)
                    ==> self.instance_extensions.contains(
                    InstanceExtension::ExternalSemaphoreCapabilities,
                )
            },
            Command::CreateDevice => made.contains(Object::OpenDevice),
            Command::CreatePlaceholderTexture(_) => made.contains(Object::Device),
            Command::CreatePlaceholderView => made.contains(Object::Placeholder),
            Command::CreateSampler => made.contains(Object::Device),
            Command::CreateBindGroupLayout(layout) => {
                &&& made.contains(Object::Device)
                &&& layout.texture.binding != layout.sampler.binding
            },
            Command::CreateBindGroup { texture_binding, sampler_binding, view } => {
                &&& made.contains(Object::BindGroupLayout)
                &&& made.contains(Object::Sampler)
                &&& self.layout is Some
                &&& self.layout->0.texture.binding == texture_binding
                &&& self.layout->0.sampler.binding == sampler_binding
                &&& match view {
                    ViewSource::Placeholder => {
                        &&& made.contains(Object::PlaceholderView)
                        &&& self.placeholder is Some
                        &&& Device::can_be_sampled(self.placeholder->0)
                    },
                    ViewSource::Shared => {
                        &&& self.view is Some && self.view == self.texture
                        &&& self.texture_descriptor is Some
                        &&& Device::can_be_sampled(self.texture_descriptor->0)
                    },
                }
            },
            Command::CreateShader => made.contains(Object::Device),
            Command::CreatePipelineLayout(_) => made.contains(Object::BindGroupLayout),
            Command::CreatePipeline(_) => made.contains(Object::Shader) && made.contains(
                Object::PipelineLayout,
            ),
            Command::GetDisplay { address } => {
                ||| self.surface_display == Some(DisplayHandle::Wayland(address))
                ||| self.surface_display == Some(DisplayHandle::Xlib(Some(address)))
            },
            Command::InitializeDisplay => made.contains(Object::Display),
            Command::BindApi { .. } => made.contains(Object::InitializedDisplay),
            Command::ChooseConfig { .. } => made.contains(Object::InitializedDisplay),
            Command::CreateContext { share_with, .. } => {
                &&& made.contains(Object::Config)
                &&& made.contains(Object::Api)
                &&& self.api == Some(egl::OPENGL_API)
                &&& share_with is None
            },
            Command::MakeCurrent { .. } => made.contains(Object::Context),
            Command::LoadFunctions => made.contains(Object::CurrentContext),
            Command::CreateSemaphore { handle_types } => {
                &&& made.contains(Object::Device)
                &&& handle_types == vk::EXTERNAL_SEMAPHORE_OPAQUE_FD
            },
            Command::ExportSemaphore { semaphore, handle_type } => {
                &&& self.semaphores.contains(semaphore)
                &&& self.device_extensions.contains(DeviceExtension::ExternalSemaphoreFd)
                &&& handle_type == vk::EXTERNAL_SEMAPHORE_OPAQUE_FD
            },
            Command::GenSemaphore => self.gl_ready(),
            Command::ImportSemaphore { name, handle_type, fd } => {
                &&& self.gl_ready()
                &&& handle_type == gl::HANDLE_TYPE_OPAQUE_FD_EXT
                &&& self.gl_semaphores.dom().contains(name)
                &&& self.gl_semaphores[name] is None
                &&& self.fds.dom().contains(fd)
                &&& self.fds[fd] is Semaphore
            },
            Command::AddSignal { semaphore } => {
                &&& self.semaphores.contains(semaphore)
                &&& !self.pending_signals.contains(semaphore)
            },
            Command::AddWait { semaphore, stages } => {
                &&& stages == vk::PIPELINE_STAGE_FRAGMENT_SHADER
                &&& self.semaphores.contains(semaphore)
                &&& !self.pending_waits.contains(semaphore)
            },
            Command::SubmitEmpty => self.may_submit(),
            Command::DeleteTexture { name } => self.gl_ready() && self.textures.dom().contains(
                name,
            ),
            Command::DeleteMemoryObject { name } => self.gl_ready()
                && self.memory_objects.dom().contains(name),
            Command::DestroyTexture => self.texture is Some,
            Command::CreateImage(info) => {
                &&& made.contains(Object::Device)
                &&& self.instance_extensions.contains(
                    InstanceExtension::ExternalMemoryCapabilities,
                )
                &&& info.handle_types == vk::EXTERNAL_MEMORY_OPAQUE_FD
            },
            Command::QueryRequirements { image } => self.images.dom().contains(image),
            Command::QueryMemoryProperties => made.contains(Object::Adapter),
            Command::AllocateMemory { size, memory_type_index, handle_types, image } => {
                &&& self.images.dom().contains(image)
                &&& self.images[image].handle_types == handle_types
                &&& self.requirements.dom().contains(image)
                &&& self.requirements[image].size == size
                &&& self.properties is Some
                &&& memory_type_index < vk::MAX_MEMORY_TYPES
                &&& memory_type_index < self.properties->0.memory_type_count
                &&& self.requirements[image].memory_type_bits & (1u32 << memory_type_index) != 0
                &&& self.properties->0.property_flags@[memory_type_index as int]
                    & vk::MEMORY_PROPERTY_DEVICE_LOCAL == vk::MEMORY_PROPERTY_DEVICE_LOCAL
            },
            Command::BindImageMemory { image, memory, offset } => {
                &&& offset == 0
                &&& self.images.dom().contains(image)
                &&& !self.bindings.dom().contains(image)
                &&& self.allocations.dom().contains(memory)
                &&& self.allocations[memory].image == image
            },
            Command::ExportMemory { memory, handle_type } => {
                &&& self.allocations.dom().contains(memory)
                &&& handle_type == vk::EXTERNAL_MEMORY_OPAQUE_FD
            },
            Command::CreateMemoryObject => self.gl_ready(),
            Command::MemoryObjectParameter { name, .. } => {
                &&& self.gl_ready()
                &&& self.memory_objects.dom().contains(name)
                &&& self.memory_objects[name].memory is None
            },
            Command::ImportMemory { name, size, handle_type, fd } => {
                &&& self.gl_ready()
                &&& handle_type == gl::HANDLE_TYPE_OPAQUE_FD_EXT
                &&& self.memory_objects.dom().contains(name)
                &&& self.memory_objects[name].memory is None
                &&& self.memory_objects[name].dedicated
                &&& self.fds.dom().contains(fd)
                &&& self.fds[fd] is Memory
                &&& self.allocations.dom().contains(self.fds[fd]->Memory_0)
                &&& self.allocations[self.fds[fd]->Memory_0].size == size
            },
            Command::GenTexture => self.gl_ready(),
            Command::BindTexture { target, name } => {
                &&& self.gl_ready()
                &&& target == gl::TEXTURE_2D
                &&& self.textures.dom().contains(name)
            },
            Command::TexParameter { target, .. } => {
                &&& self.gl_ready()
                &&& target == gl::TEXTURE_2D
                &&& self.bound_texture is Some
                &&& self.textures.dom().contains(self.bound_texture->0)
                &&& self.textures[self.bound_texture->0].storage is None
            },
            Command::TextureStorage {
                name,
                levels,
                internal_format,
                width,
                height,
                memory_object,
                offset,
            } => {
                &&& self.gl_ready()
                &&& offset == 0
                &&& self.textures.dom().contains(name)
                &&& self.textures[name].storage is None
                &&& self.textures[name].optimal_tiling
                &&& self.memory_objects.dom().contains(memory_object)
                &&& self.memory_objects[memory_object].memory is Some
                &&& ({
                    let memory = self.memory_objects[memory_object].memory->0;
                    let image = self.allocations[memory].image;
                    &&& self.allocations.dom().contains(memory)
                    &&& self.images.dom().contains(image)
                    &&& self.bindings.dom().contains(image)
                    &&& self.bindings[image] == memory
                    &&& self.images[image].tiling == vk::IMAGE_TILING_OPTIMAL
                    &&& self.images[image].mip_levels == levels
                    &&& self.images[image].width == width
                    &&& self.images[image].height == height
                    &&& Device::storage_matches(self.images[image], internal_format)
                })
            },
            Command::GenFramebuffer => self.gl_ready(),
            Command::BindFramebuffer { target, name } => {
                &&& self.gl_ready()
                &&& target == gl::FRAMEBUFFER
                &&& self.framebuffers.dom().contains(name)
            },
            Command::FramebufferTexture {
                target,
                attachment,
                texture_target,
                texture,
                level,
            } => {
                &&& self.gl_ready()
                &&& target == gl::FRAMEBUFFER
                &&& attachment == gl::COLOR_ATTACHMENT0
                &&& texture_target == gl::TEXTURE_2D
                &&& level == 0
                &&& self.bound_framebuffer is Some
                &&& self.framebuffers.dom().contains(self.bound_framebuffer->0)
                &&& self.textures.dom().contains(texture)
                &&& self.textures[texture].storage is Some
            },
            Command::Viewport { .. } => self.gl_ready(),
            Command::WrapImage(descriptor) => {
                &&& self.hal_texture is None
                &&& self.images.dom().contains(descriptor.image)
                &&& self.bindings.dom().contains(descriptor.image)
                &&& self.bindings[descriptor.image] == descriptor.memory
                &&& self.images[descriptor.image].width == descriptor.width
                &&& self.images[descriptor.image].height == descriptor.height
                &&& self.images[descriptor.image].array_layers == descriptor.depth_or_array_layers
                &&& self.images[descriptor.image].mip_levels == descriptor.mip_level_count
                &&& Device::format_matches(self.images[descriptor.image], descriptor.format)
            },
            Command::WrapTexture { descriptor, state } => {
                &&& state == USE_UNINITIALIZED
                &&& self.texture is None
                &&& self.hal_texture is Some
                &&& self.hal_texture->0.width == descriptor.width
                &&& self.hal_texture->0.height == descriptor.height
                &&& self.hal_texture->0.depth_or_array_layers == descriptor.depth_or_array_layers
                &&& self.hal_texture->0.mip_level_count == descriptor.mip_level_count
                &&& self.hal_texture->0.sample_count == descriptor.sample_count
                &&& self.hal_texture->0.format == descriptor.format
                &&& descriptor.usage & USAGE_TEXTURE_BINDING != 0 ==> self.hal_texture->0.usage
                    & USE_RESOURCE != 0
                &&& descriptor.usage & USAGE_RENDER_ATTACHMENT != 0 ==> self.hal_texture->0.usage
                    & USE_COLOR_TARGET != 0
            },
            Command::CreateTextureView => self.texture is Some,
            Command::ConfigureSurface(surface) => {
                &&& self.formats.contains(surface.format)
                &&& surface.usage & USAGE_RENDER_ATTACHMENT != 0
                &&& made.contains(Object::Surface)
                &&& made.contains(Object::Device)
                &&& self.presents
                &&& !self.frame
            },
            Command::WaitSemaphore { name, texture, layout } => {
                &&& self.gl_ready()
                &&& layout == gl::LAYOUT_GENERAL_EXT
                &&& self.gl_semaphores.dom().contains(name)
                &&& self.gl_semaphores[name] is Some
                &&& self.signaled.contains(self.gl_semaphores[name]->0)
                &&& self.textures.dom().contains(texture)
                &&& self.gl_owns is None
            },
            Command::ClearColor(_) => self.gl_ready(),
            Command::Clear { .. } => self.may_draw() && self.clear_color is Some,
            Command::DrawScene { .. } => self.may_draw() && self.drawing is Some,
            Command::Flush => self.gl_ready(),
            Command::SignalSemaphore { name, texture, layout } => {
                &&& self.gl_ready()
                &&& layout == gl::LAYOUT_COLOR_ATTACHMENT_EXT
                &&& self.gl_semaphores.dom().contains(name)
                &&& self.gl_semaphores[name] is Some
                &&& !self.signaled.contains(self.gl_semaphores[name]->0)
                &&& self.gl_owns == Some(texture)
                &&& self.flushed
            },
            Command::AcquireFrame => self.surface is Some && !self.frame,
            Command::CreateFrameView => self.frame,
            Command::EncodePass(pass) => {
                &&& made.contains(Object::Pipeline)
                &&& self.fits_pipeline(pass)
                &&& self.frame_view
                &&& self.gl_owns is None
                &&& self.drawing is Some && self.drawing->0.mode is Some
                &&& self.sampled_memory() is Some
            },
            Command::SubmitFrame => self.may_submit() && self.encoded is Some,
            Command::Present => self.frame && self.submitted is Some,
        }
    }

    /// Whether the world can give this reply to a command: new objects get handles,
    /// names and file descriptors that are not in use.
    pub open spec fn gives(self, command: Command, reply: Reply) -> bool {
        match command {
            Command::CreateSemaphore { .. } => reply is Handle ==> !self.semaphores.contains(
                reply->Handle_0,
            ),
            Command::ExportSemaphore { .. } => reply is Fd ==> !self.fds.dom().contains(
                reply->Fd_0,
            ),
            Command::GenSemaphore => reply is Name ==> !self.gl_semaphores.dom().contains(
                reply->Name_0,
            ),
            Command::CreateImage(_) => reply is Handle ==> !self.images.dom().contains(
                reply->Handle_0,
            ),
            Command::AllocateMemory { .. } => reply is Handle
                ==> !self.allocations.dom().contains(reply->Handle_0),
            Command::ExportMemory { .. } => reply is Fd ==> !self.fds.dom().contains(reply->Fd_0),
            Command::CreateMemoryObject => reply is Name
                ==> !self.memory_objects.dom().contains(reply->Name_0),
            Command::GenTexture => reply is Name ==> !self.textures.dom().contains(reply->Name_0),
            Command::GenFramebuffer => reply is Name ==> !self.framebuffers.dom().contains(
                reply->Name_0,
            ),
            _ => true,
        }
    }

    /// The world with one more object of wgpu or EGL.
    pub open spec fn with(self, object: Object) -> Device {
        Device { made: self.made.insert(object), ..self }
    }

    /// The world after a submission.
    pub open spec fn after_submission(self) -> Device {
        Device {
            signaled: self.signaled.difference(self.pending_waits).union(self.pending_signals),
            pending_waits: Set::empty(),
            pending_signals: Set::empty(),
            ..self
        }
    }

    /// The world after a command that gave the reply.
    pub open spec fn after(self, command: Command, reply: Reply) -> Device {
        match command {
            Command::CreateInstance { validation, instance_extensions } => Device {
                validation,
                instance_extensions: instance_extensions@,
                ..self.with(Object::Instance)
            },
            Command::QueryDisplay => Device { window_display: Some(reply->Display_0), ..self },
            Command::CreateSurface { display } => Device {
                surface_display: Some(display),
                ..self.with(Object::Surface)
            },
            Command::RequestAdapter { compatible_surface } => Device {
                presents: compatible_surface,
                ..self.with(Object::Adapter)
            },
            Command::QueryFormats => Device { formats: reply->Formats_0@, ..self },
            Command::OpenDevice { device_extensions } => Device {
                device_extensions: device_extensions@,
                ..self.with(Object::OpenDevice)
            },
            Command::CreateDevice => self.with(Object::Device),
            Command::CreatePlaceholderTexture(texture) => Device {
                placeholder: Some(texture),
                ..self.with(Object::Placeholder)
            },
            Command::CreatePlaceholderView => self.with(Object::PlaceholderView),
            Command::CreateSampler => self.with(Object::Sampler),
            Command::CreateBindGroupLayout(layout) => Device {
                layout: Some(layout),
                ..self.with(Object::BindGroupLayout)
            },
            Command::CreateBindGroup { view, .. } => match view {
                ViewSource::Placeholder => Device { sampled: None, ..self },
                ViewSource::Shared => Device { sampled: self.view, ..self },
            },
            Command::CreateShader => self.with(Object::Shader),
            Command::CreatePipelineLayout(layout) => Device {
                bind_groups: Some(layout.bind_groups),
                ..self.with(Object::PipelineLayout)
            },
            Command::CreatePipeline(pipeline) => Device {
                pipeline: Some(pipeline),
                ..self.with(Object::Pipeline)
            },
            Command::GetDisplay { address } => Device {
                egl_display: Some(address),
                ..self.with(Object::Display)
            },
            Command::InitializeDisplay => self.with(Object::InitializedDisplay),
            Command::BindApi { api } => Device { api: Some(api), ..self.with(Object::Api) },
            Command::ChooseConfig { config_attributes } => Device {
                config: config_attributes@,
                ..self.with(Object::Config)
            },
            Command::CreateContext { context_attributes, share_with } => Device {
                context: context_attributes@,
                shared_context: share_with,
                ..self.with(Object::Context)
            },
            Command::MakeCurrent { draw, read } => Device {
                current_surfaces: (draw, read),
                ..self.with(Object::CurrentContext)
            },
            Command::LoadFunctions => self.with(Object::Functions),
            Command::CreateSemaphore { .. } => Device {
                semaphores: self.semaphores.insert(reply->Handle_0),
                ..self
            },
            Command::ExportSemaphore { semaphore, .. } => Device {
                fds: self.fds.insert(reply->Fd_0, Exported::Semaphore(semaphore)),
                ..self
            },
            Command::GenSemaphore => Device {
                gl_semaphores: self.gl_semaphores.insert(reply->Name_0, None),
                ..self
            },
            Command::ImportSemaphore { name, fd, .. } => Device {
                gl_semaphores: self.gl_semaphores.insert(
                    name,
                    Some(self.fds[fd]->Semaphore_0),
                ),
                fds: self.fds.remove(fd),
                ..self
            },
            Command::AddSignal { semaphore } => Device {
                pending_signals: self.pending_signals.insert(semaphore),
                ..self
            },
            Command::AddWait { semaphore, .. } => Device {
                pending_waits: self.pending_waits.insert(semaphore),
                ..self
            },
            Command::SubmitEmpty => self.after_submission(),
            Command::DeleteTexture { name } => Device {
                textures: self.textures.remove(name),
                framebuffers: match self.bound_framebuffer {
                    Some(framebuffer) => if self.framebuffers.dom().contains(framebuffer)
                        && self.framebuffers[framebuffer] == Some(name) {
                        self.framebuffers.insert(framebuffer, None)
                    } else {
                        self.framebuffers
                    },
                    None => self.framebuffers,
                },
                ..self
            },
            Command::DeleteMemoryObject { name } => Device {
                memory_objects: self.memory_objects.remove(name),
                ..self
            },
            Command::DestroyTexture => {
                let image = self.texture->0;
                Device {
                    texture: None,
                    texture_descriptor: None,
                    images: self.images.remove(image),
                    requirements: self.requirements.remove(image),
                    allocations: self.allocations.remove(self.bindings[image]),
                    bindings: self.bindings.remove(image),
                    ..self
                }
            },
            Command::CreateImage(info) => Device {
                images: self.images.insert(reply->Handle_0, info),
                ..self
            },
            Command::QueryRequirements { image } => Device {
                requirements: self.requirements.insert(image, reply->Requirements_0),
                ..self
            },
            Command::QueryMemoryProperties => Device {
                properties: Some(reply->Properties_0),
                ..self
            },
            Command::AllocateMemory { size, image, .. } => Device {
                allocations: self.allocations.insert(
                    reply->Handle_0,
                    Allocation { size, image },
                ),
                ..self
            },
            Command::BindImageMemory { image, memory, .. } => Device {
                bindings: self.bindings.insert(image, memory),
                ..self
            },
            Command::ExportMemory { memory, .. } => Device {
                fds: self.fds.insert(reply->Fd_0, Exported::Memory(memory)),
                ..self
            },
            Command::CreateMemoryObject => Device {
                memory_objects: self.memory_objects.insert(
                    reply->Name_0,
                    MemoryObject { dedicated: false, memory: None },
                ),
                ..self
            },
            Command::MemoryObjectParameter { name, parameter, value } => if parameter
                == gl::DEDICATED_MEMORY_OBJECT_EXT {
                Device {
                    memory_objects: self.memory_objects.insert(
                        name,
                        MemoryObject { dedicated: value == gl::TRUE, memory: None },
                    ),
                    ..self
                }
            } else {
                self
            },
            Command::ImportMemory { name, fd, .. } => Device {
                memory_objects: self.memory_objects.insert(
                    name,
                    MemoryObject {
                        dedicated: self.memory_objects[name].dedicated,
                        memory: Some(self.fds[fd]->Memory_0),
                    },
                ),
                fds: self.fds.remove(fd),
                ..self
            },
            Command::GenTexture => Device {
                textures: self.textures.insert(
                    reply->Name_0,
                    GlTexture { optimal_tiling: false, storage: None },
                ),
                ..self
            },
            Command::BindTexture { name, .. } => Device { bound_texture: Some(name), ..self },
            Command::TexParameter { parameter, value, .. } => if parameter
                == gl::TEXTURE_TILING_EXT {
                Device {
                    textures: self.textures.insert(
                        self.bound_texture->0,
                        GlTexture {
                            optimal_tiling: value == gl::OPTIMAL_TILING_EXT,
                            storage: None,
                        },
                    ),
                    ..self
                }
            } else {
                self
            },
            Command::TextureStorage {
                name,
                internal_format,
                width,
                height,
                memory_object,
                ..
            } => Device {
                textures: self.textures.insert(
                    name,
                    GlTexture {
                        optimal_tiling: self.textures[name].optimal_tiling,
                        storage: Some(
                            Storage {
                                memory: self.memory_objects[memory_object].memory->0,
                                internal_format,
                                width: width as int,
                                height: height as int,
                            },
                        ),
                    },
                ),
                ..self
            },
            Command::GenFramebuffer => Device {
                framebuffers: self.framebuffers.insert(reply->Name_0, None),
                ..self
            },
            Command::BindFramebuffer { name, .. } => Device {
                bound_framebuffer: Some(name),
                ..self
            },
            Command::FramebufferTexture { texture, .. } => Device {
                framebuffers: self.framebuffers.insert(self.bound_framebuffer->0, Some(texture)),
                ..self
            },
            Command::Viewport { x, y, width, height } => Device {
                viewport: Some((x as int, y as int, width as int, height as int)),
                ..self
            },
            Command::WrapImage(descriptor) => Device { hal_texture: Some(descriptor), ..self },
            Command::WrapTexture { descriptor, .. } => Device {
                hal_texture: None,
                texture_descriptor: Some(descriptor),
                texture: Some(self.hal_texture->0.image),
                ..self
            },
            Command::CreateTextureView => Device { view: self.texture, ..self },
            Command::ConfigureSurface(configuration) => Device {
                surface: Some(configuration),
                ..self
            },
            Command::WaitSemaphore { name, texture, .. } => Device {
                signaled: self.signaled.remove(self.gl_semaphores[name]->0),
                gl_owns: Some(texture),
                drawing: None,
                flushed: false,
                ..self
            },
            Command::ClearColor(color) => Device { clear_color: Some(color), ..self },
            Command::Clear { mask } => if mask == gl::COLOR_BUFFER_BIT {
                Device {
                    drawing: Some(
                        Drawing {
                            background: self.clear_color,
                            mode: None,
                            vertices: Seq::empty(),
                        },
                    ),
                    flushed: false,
                    ..self
                }
            } else {
                self
            },
            Command::DrawScene { mode, vertices } => Device {
                drawing: Some(
                    Drawing {
                        background: self.drawing->0.background,
                        mode: Some(mode),
                        vertices: vertices@,
                    },
                ),
                flushed: false,
                ..self
            },
            Command::Flush => Device { flushed: true, ..self },
            Command::SignalSemaphore { name, .. } => Device {
                signaled: self.signaled.insert(self.gl_semaphores[name]->0),
                gl_owns: None,
                ..self
            },
            Command::AcquireFrame => Device { frame: true, ..self },
            Command::CreateFrameView => Device { frame_view: true, ..self },
            Command::EncodePass(pass) => Device { encoded: Some(pass), ..self },
            Command::SubmitFrame => Device {
                encoded: None,
                submitted: self.encoded,
                ..self.after_submission()
            },
            Command::Present => Device {
                frame: false,
                frame_view: false,
                submitted: None,
                shown: Some(
                    Shown {
                        drawing: self.drawing->0,
                        drawn_memory: self.drawn_memory(),
                        sampled_memory: self.sampled_memory(),
                        pass: self.submitted->0,
                    },
                ),
                ..self
            },
        }
    }

    /// The commands that need OpenGL's functions are those around which the error flag is
    /// checked, and the drawing in immediate mode, which alone may not be interrupted. Every
    /// other command can do without them, and is not checked.
    pub proof fn opengl_calls_are_checked(self, command: Command)
        ensures
            ({
                let without = Device { made: self.made.remove(Object::Functions), ..self };
                &&& command.spec_is_checked() || command is DrawScene ==> !without.allows(command)
                &&& !command.spec_is_checked() && command !is DrawScene ==> without.allows(command)
                    == self.allows(command)
                &&& command is DrawScene ==> !command.spec_is_checked()
            }),
    {
    }
}

} // verus!
