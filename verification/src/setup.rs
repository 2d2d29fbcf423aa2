//! Bringing up wgpu, EGL, OpenGL and the semaphores, from the window to the first
//! state of the demo.
use vstd::prelude::*;

use crate::command::{lemma_one_more_command, Command, Fault, Reply, ViewSource};
use crate::egl;
use crate::egl::DisplayHandle;
use crate::format::{preferred_format, PixelFormat};
use crate::gl;
use crate::pipeline::{
    group_layout, pipeline_layout, render_pipeline, spec_group_layout, spec_pipeline_layout,
    spec_render_pipeline, SAMPLER_BINDING, TEXTURE_BINDING,
};
use crate::render::Semaphores;
use crate::state::State;
use crate::texture::{placeholder_texture, spec_placeholder_texture};
use crate::vk;

verus! {

/// A Vulkan instance extension.
#[derive(Clone, Copy, Debug, PartialEq, Eq, Structural)]
pub enum InstanceExtension {
    ExternalMemoryCapabilities,
    ExternalSemaphoreCapabilities,
}

impl InstanceExtension {
    /// The name by which Vulkan knows the extension.
    pub open spec fn spec_name(self) -> Seq<char> {
        match self {
            InstanceExtension::ExternalMemoryCapabilities => {
                "VK_KHR_external_memory_capabilities"@
            },
            InstanceExtension::ExternalSemaphoreCapabilities => {
                "VK_KHR_external_semaphore_capabilities"@
            },
        }
    }

    /// The name by which Vulkan knows the extension.
    pub fn name(&self) -> (name: &'static str)
        ensures
            name@ == self.spec_name(),
    {
        match *self {
            InstanceExtension::ExternalMemoryCapabilities => {
                "VK_KHR_external_memory_capabilities"
            },
            InstanceExtension::ExternalSemaphoreCapabilities => {
                "VK_KHR_external_semaphore_capabilities"
            },
        }
    }
}

/// A Vulkan device extension.
#[derive(Clone, Copy, Debug, PartialEq, Eq, Structural)]
pub enum DeviceExtension {
    ExternalSemaphoreFd,
}

impl DeviceExtension {
    /// The name by which Vulkan knows the extension.
    pub open spec fn spec_name(self) -> Seq<char> {
        match self {
            DeviceExtension::ExternalSemaphoreFd => "VK_KHR_external_semaphore_fd"@,
        }
    }

    /// The name by which Vulkan knows the extension.
    pub fn name(&self) -> (name: &'static str)
        ensures
            name@ == self.spec_name(),
    {
        match *self {
            DeviceExtension::ExternalSemaphoreFd => "VK_KHR_external_semaphore_fd",
        }
    }
}

/// The instance extensions that sharing memory and semaphores takes.
pub open spec fn spec_instance_extensions() -> [InstanceExtension; 2] {
    [
        InstanceExtension::ExternalMemoryCapabilities,
        InstanceExtension::ExternalSemaphoreCapabilities,
    ]
}

/// The instance extensions that sharing memory and semaphores takes.
pub fn instance_extensions() -> (extensions: [InstanceExtension; 2])
    ensures
        extensions == spec_instance_extensions(),
{
    [
        InstanceExtension::ExternalMemoryCapabilities,
        InstanceExtension::ExternalSemaphoreCapabilities,
    ]
}

/// The device extensions that sharing semaphores takes.
pub open spec fn spec_device_extensions() -> [DeviceExtension; 1] {
    [DeviceExtension::ExternalSemaphoreFd]
}

/// The device extensions that sharing semaphores takes.
pub fn device_extensions() -> (extensions: [DeviceExtension; 1])
    ensures
        extensions == spec_device_extensions(),
{
    [DeviceExtension::ExternalSemaphoreFd]
}

/// Adds extensions to those that wgpu asks for, which stay as they are. `name` gives the
/// name of an extension.
pub fn add_extensions<E: Copy, T, F: Fn(E) -> T>(
    requested: &mut Vec<T>,
    added: &[E],
    name: F,
)
    requires
        forall|extension: E| name.requires((extension,)),
    ensures
        final(requested)@.len() == old(requested)@.len() + added@.len(),
        final(requested)@.take(old(requested)@.len() as int) == old(requested)@,
        forall|i: int|
            0 <= i < added@.len() ==> name.ensures(
                (#[trigger] added@[i],),
                final(requested)@[old(requested)@.len() + i],
            ),
{
    let ghost before = requested@;
    let mut i: usize = 0;
    while i < added.len()
        invariant
            i <= added@.len(),
            forall|extension: E| name.requires((extension,)),
            requested@.len() == before.len() + i,
            requested@.take(before.len() as int) == before,
            forall|k: int|
                0 <= k < i ==> name.ensures(
                    (#[trigger] added@[k],),
                    requested@[before.len() + k],
                ),
        decreases added@.len() - i,
    {
        let ghost so_far = requested@;
        requested.push(name(added[i]));
        assert(requested@.take(before.len() as int) =~= so_far.take(before.len() as int));
        i = i + 1;
    }
}

/// The commands of the setup, in order.
#[derive(Clone, Copy, Debug, PartialEq, Eq, Structural)]
pub enum SetupStep {
    CreateInstance,
    QueryDisplay,
    CreateSurface,
    RequestAdapter,
    QueryFormats,
    OpenDevice,
    CreateDevice,
    CreatePlaceholderTexture,
    CreatePlaceholderView,
    CreateSampler,
    CreateBindGroupLayout,
    CreateBindGroup,
    CreateShader,
    CreatePipelineLayout,
    CreatePipeline,
    GetDisplay,
    InitializeDisplay,
    BindApi,
    ChooseConfig,
    CreateContext,
    MakeCurrent,
    LoadFunctions,
    CreateWriteSemaphore,
    CreateReadSemaphore,
    ExportWriteSemaphore,
    ExportReadSemaphore,
    GenWriteSemaphore,
    ImportWriteSemaphore,
    GenReadSemaphore,
    ImportReadSemaphore,
    AddSignal,
    SubmitEmpty,
    Finished,
}

impl SetupStep {
    /// The position of the step's command in the order of the setup.
    pub open spec fn index(self) -> int {
        match self {
            SetupStep::CreateInstance => 0,
            SetupStep::QueryDisplay => 1,
            SetupStep::CreateSurface => 2,
            SetupStep::RequestAdapter => 3,
            SetupStep::QueryFormats => 4,
            SetupStep::OpenDevice => 5,
            SetupStep::CreateDevice => 6,
            SetupStep::CreatePlaceholderTexture => 7,
            SetupStep::CreatePlaceholderView => 8,
            SetupStep::CreateSampler => 9,
            SetupStep::CreateBindGroupLayout => 10,
            SetupStep::CreateBindGroup => 11,
            SetupStep::CreateShader => 12,
            SetupStep::CreatePipelineLayout => 13,
            SetupStep::CreatePipeline => 14,
            SetupStep::GetDisplay => 15,
            SetupStep::InitializeDisplay => 16,
            SetupStep::BindApi => 17,
            SetupStep::ChooseConfig => 18,
            SetupStep::CreateContext => 19,
            SetupStep::MakeCurrent => 20,
            SetupStep::LoadFunctions => 21,
            SetupStep::CreateWriteSemaphore => 22,
            SetupStep::CreateReadSemaphore => 23,
            SetupStep::ExportWriteSemaphore => 24,
            SetupStep::ExportReadSemaphore => 25,
            SetupStep::GenWriteSemaphore => 26,
            SetupStep::ImportWriteSemaphore => 27,
            SetupStep::GenReadSemaphore => 28,
            SetupStep::ImportReadSemaphore => 29,
            SetupStep::AddSignal => 30,
            SetupStep::SubmitEmpty => 31,
            SetupStep::Finished => 32,
        }
    }

    /// The step after this one.
    pub open spec fn spec_next(self) -> SetupStep {
        match self {
            SetupStep::CreateInstance => SetupStep::QueryDisplay,
            SetupStep::QueryDisplay => SetupStep::CreateSurface,
            SetupStep::CreateSurface => SetupStep::RequestAdapter,
            SetupStep::RequestAdapter => SetupStep::QueryFormats,
            SetupStep::QueryFormats => SetupStep::OpenDevice,
            SetupStep::OpenDevice => SetupStep::CreateDevice,
            SetupStep::CreateDevice => SetupStep::CreatePlaceholderTexture,
            SetupStep::CreatePlaceholderTexture => SetupStep::CreatePlaceholderView,
            SetupStep::CreatePlaceholderView => SetupStep::CreateSampler,
            SetupStep::CreateSampler => SetupStep::CreateBindGroupLayout,
            SetupStep::CreateBindGroupLayout => SetupStep::CreateBindGroup,
            SetupStep::CreateBindGroup => SetupStep::CreateShader,
            SetupStep::CreateShader => SetupStep::CreatePipelineLayout,
            SetupStep::CreatePipelineLayout => SetupStep::CreatePipeline,
            SetupStep::CreatePipeline => SetupStep::GetDisplay,
            SetupStep::GetDisplay => SetupStep::InitializeDisplay,
            SetupStep::InitializeDisplay => SetupStep::BindApi,
            SetupStep::BindApi => SetupStep::ChooseConfig,
            SetupStep::ChooseConfig => SetupStep::CreateContext,
            SetupStep::CreateContext => SetupStep::MakeCurrent,
            SetupStep::MakeCurrent => SetupStep::LoadFunctions,
            SetupStep::LoadFunctions => SetupStep::CreateWriteSemaphore,
            SetupStep::CreateWriteSemaphore => SetupStep::CreateReadSemaphore,
            SetupStep::CreateReadSemaphore => SetupStep::ExportWriteSemaphore,
            SetupStep::ExportWriteSemaphore => SetupStep::ExportReadSemaphore,
            SetupStep::ExportReadSemaphore => SetupStep::GenWriteSemaphore,
            SetupStep::GenWriteSemaphore => SetupStep::ImportWriteSemaphore,
            SetupStep::ImportWriteSemaphore => SetupStep::GenReadSemaphore,
            SetupStep::GenReadSemaphore => SetupStep::ImportReadSemaphore,
            SetupStep::ImportReadSemaphore => SetupStep::AddSignal,
            SetupStep::AddSignal => SetupStep::SubmitEmpty,
            SetupStep::SubmitEmpty => SetupStep::Finished,
            SetupStep::Finished => SetupStep::Finished,
        }
    }

    /// The step after this one.
    pub fn next(&self) -> (next: SetupStep)
        ensures
            next == self.spec_next(),
            *self !is Finished ==> next.index() == self.index() + 1,
    {
        match *self {
            SetupStep::CreateInstance => SetupStep::QueryDisplay,
            SetupStep::QueryDisplay => SetupStep::CreateSurface,
            SetupStep::CreateSurface => SetupStep::RequestAdapter,
            SetupStep::RequestAdapter => SetupStep::QueryFormats,
            SetupStep::QueryFormats => SetupStep::OpenDevice,
            SetupStep::OpenDevice => SetupStep::CreateDevice,
            SetupStep::CreateDevice => SetupStep::CreatePlaceholderTexture,
            SetupStep::CreatePlaceholderTexture => SetupStep::CreatePlaceholderView,
            SetupStep::CreatePlaceholderView => SetupStep::CreateSampler,
            SetupStep::CreateSampler => SetupStep::CreateBindGroupLayout,
            SetupStep::CreateBindGroupLayout => SetupStep::CreateBindGroup,
            SetupStep::CreateBindGroup => SetupStep::CreateShader,
            SetupStep::CreateShader => SetupStep::CreatePipelineLayout,
            SetupStep::CreatePipelineLayout => SetupStep::CreatePipeline,
            SetupStep::CreatePipeline => SetupStep::GetDisplay,
            SetupStep::GetDisplay => SetupStep::InitializeDisplay,
            SetupStep::InitializeDisplay => SetupStep::BindApi,
            SetupStep::BindApi => SetupStep::ChooseConfig,
            SetupStep::ChooseConfig => SetupStep::CreateContext,
            SetupStep::CreateContext => SetupStep::MakeCurrent,
            SetupStep::MakeCurrent => SetupStep::LoadFunctions,
            SetupStep::LoadFunctions => SetupStep::CreateWriteSemaphore,
            SetupStep::CreateWriteSemaphore => SetupStep::CreateReadSemaphore,
            SetupStep::CreateReadSemaphore => SetupStep::ExportWriteSemaphore,
            SetupStep::ExportWriteSemaphore => SetupStep::ExportReadSemaphore,
            SetupStep::ExportReadSemaphore => SetupStep::GenWriteSemaphore,
            SetupStep::GenWriteSemaphore => SetupStep::ImportWriteSemaphore,
            SetupStep::ImportWriteSemaphore => SetupStep::GenReadSemaphore,
            SetupStep::GenReadSemaphore => SetupStep::ImportReadSemaphore,
            SetupStep::ImportReadSemaphore => SetupStep::AddSignal,
            SetupStep::AddSignal => SetupStep::SubmitEmpty,
            SetupStep::SubmitEmpty => SetupStep::Finished,
            SetupStep::Finished => SetupStep::Finished,
        }
    }
}

/// The setup under way, with what its commands have given back so far.
#[derive(Clone, Copy, Debug, PartialEq, Eq)]
pub struct Setup {
    pub step: SetupStep,
    /// The surface's preferred format, once it is known.
    pub format: Option<wgpu::TextureFormat>,
    pub display: DisplayHandle,
    pub semaphores: Semaphores,
    pub gl_write_finished_fd: i32,
    pub vk_read_finished_fd: i32,
}

impl Setup {
    /// The format is there once the surface has been asked, and the display is one
    /// that EGL can be opened on once EGL's turn has come.
    pub open spec fn wf(self) -> bool {
        &&& self.step.index() > SetupStep::QueryFormats.index() ==> self.format is Some
        &&& self.step.index() > SetupStep::CreatePipeline.index()
            ==> self.display.spec_address() is Ok
    }

    /// The setup before its first command.
    pub open spec fn initial() -> Setup {
        Setup {
            step: SetupStep::CreateInstance,
            format: None,
            display: DisplayHandle::Other,
            semaphores: Semaphores {
                gl_write_finished: 0,
                gl_gl_write_finished: 0,
                vk_read_finished: 0,
                gl_vk_read_finished: 0,
            },
            gl_write_finished_fd: 0,
            vk_read_finished_fd: 0,
        }
    }

    /// The setup before its first command.
    pub fn new() -> (setup: Setup)
        ensures
            setup == Setup::initial(),
            setup.wf(),
    {
        Setup {
            step: SetupStep::CreateInstance,
            format: None,
            display: DisplayHandle::Other,
            semaphores: Semaphores {
                gl_write_finished: 0,
                gl_gl_write_finished: 0,
                vk_read_finished: 0,
                gl_vk_read_finished: 0,
            },
            gl_write_finished_fd: 0,
            vk_read_finished_fd: 0,
        }
    }

    /// The commands of the setup: wgpu comes up, from its instance to the pipeline
    /// that draws the shared texture, with a placeholder bound; EGL, on the display of
    /// the surface, makes an OpenGL context current, which shares with no other and has
    /// no surface; both semaphores are created, exported and imported into
    /// OpenGL; and Vulkan signals that it has finished reading, so that OpenGL can
    /// proceed on the first frame.
    pub open spec fn script(self) -> Seq<Command> {
        seq![
            Command::CreateInstance {
                validation: true,
                instance_extensions: spec_instance_extensions(),
            },
            Command::QueryDisplay,
            Command::CreateSurface { display: self.display },
            Command::RequestAdapter { compatible_surface: true },
            Command::QueryFormats,
            Command::OpenDevice { device_extensions: spec_device_extensions() },
            Command::CreateDevice,
            Command::CreatePlaceholderTexture(spec_placeholder_texture(self.format->0)),
            Command::CreatePlaceholderView,
            Command::CreateSampler,
            Command::CreateBindGroupLayout(spec_group_layout()),
            Command::CreateBindGroup {
                texture_binding: TEXTURE_BINDING,
                sampler_binding: SAMPLER_BINDING,
                view: ViewSource::Placeholder,
            },
            Command::CreateShader,
            Command::CreatePipelineLayout(spec_pipeline_layout()),
            Command::CreatePipeline(spec_render_pipeline(self.format->0)),
            Command::GetDisplay { address: self.display.spec_address()->Ok_0 },
            Command::InitializeDisplay,
            Command::BindApi { api: egl::OPENGL_API },
            Command::ChooseConfig { config_attributes: egl::spec_config_attributes() },
            Command::CreateContext {
                context_attributes: egl::spec_context_attributes(),
                share_with: None,
            },
            Command::MakeCurrent { draw: None, read: None },
            Command::LoadFunctions,
            Command::CreateSemaphore { handle_types: vk::EXTERNAL_SEMAPHORE_OPAQUE_FD },
            Command::CreateSemaphore { handle_types: vk::EXTERNAL_SEMAPHORE_OPAQUE_FD },
            Command::ExportSemaphore {
                semaphore: self.semaphores.gl_write_finished,
                handle_type: vk::EXTERNAL_SEMAPHORE_OPAQUE_FD,
            },
            Command::ExportSemaphore {
                semaphore: self.semaphores.vk_read_finished,
                handle_type: vk::EXTERNAL_SEMAPHORE_OPAQUE_FD,
            },
            Command::GenSemaphore,
            Command::ImportSemaphore {
                name: self.semaphores.gl_gl_write_finished,
                handle_type: gl::HANDLE_TYPE_OPAQUE_FD_EXT,
                fd: self.gl_write_finished_fd,
            },
            Command::GenSemaphore,
            Command::ImportSemaphore {
                name: self.semaphores.gl_vk_read_finished,
                handle_type: gl::HANDLE_TYPE_OPAQUE_FD_EXT,
                fd: self.vk_read_finished_fd,
            },
            Command::AddSignal { semaphore: self.semaphores.vk_read_finished },
            Command::SubmitEmpty,
        ]
    }

    /// The command to carry out next, if any is left.
    pub open spec fn spec_command(self) -> Option<Command> {
        if self.step is Finished {
            None
        } else {
            Some(self.script()[self.step.index()])
        }
    }

    /// The command to carry out next, if any is left.
    pub fn command(&self) -> (command: Option<Command>)
        requires
            self.wf(),
        ensures
            command == self.spec_command(),
    {
        match self.step {
            SetupStep::CreateInstance => Some(
                Command::CreateInstance {
                    validation: true,
                    instance_extensions: instance_extensions(),
                },
            ),
            SetupStep::QueryDisplay => Some(Command::QueryDisplay),
            SetupStep::CreateSurface => Some(Command::CreateSurface { display: self.display }),
            SetupStep::RequestAdapter => Some(
                Command::RequestAdapter { compatible_surface: true },
            ),
            SetupStep::QueryFormats => Some(Command::QueryFormats),
            SetupStep::OpenDevice => Some(
                Command::OpenDevice { device_extensions: device_extensions() },
            ),
            SetupStep::CreateDevice => Some(Command::CreateDevice),
            SetupStep::CreatePlaceholderTexture => match self.format {
                Some(format) => Some(
                    Command::CreatePlaceholderTexture(placeholder_texture(format)),
                ),
                None => None,
            },
            SetupStep::CreatePlaceholderView => Some(Command::CreatePlaceholderView),
            SetupStep::CreateSampler => Some(Command::CreateSampler),
            SetupStep::CreateBindGroupLayout => Some(
                Command::CreateBindGroupLayout(group_layout()),
            ),
            SetupStep::CreateBindGroup => Some(
                Command::CreateBindGroup {
                    texture_binding: TEXTURE_BINDING,
                    sampler_binding: SAMPLER_BINDING,
                    view: ViewSource::Placeholder,
                },
            ),
            SetupStep::CreateShader => Some(Command::CreateShader),
            SetupStep::CreatePipelineLayout => Some(
                Command::CreatePipelineLayout(pipeline_layout()),
            ),
            SetupStep::CreatePipeline => match self.format {
                Some(format) => Some(Command::CreatePipeline(render_pipeline(format))),
                None => None,
            },
            SetupStep::GetDisplay => match self.display.address() {
                Ok(address) => Some(Command::GetDisplay { address }),
                Err(_) => None,
            },
            SetupStep::InitializeDisplay => Some(Command::InitializeDisplay),
            SetupStep::BindApi => Some(Command::BindApi { api: egl::OPENGL_API }),
            SetupStep::ChooseConfig => Some(
                Command::ChooseConfig { config_attributes: egl::config_attributes() },
            ),
            SetupStep::CreateContext => Some(
                Command::CreateContext {
                    context_attributes: egl::context_attributes(),
                    share_with: None,
                },
            ),
            SetupStep::MakeCurrent => Some(Command::MakeCurrent { draw: None, read: None }),
            SetupStep::LoadFunctions => Some(Command::LoadFunctions),
            SetupStep::CreateWriteSemaphore => Some(
                Command::CreateSemaphore { handle_types: vk::EXTERNAL_SEMAPHORE_OPAQUE_FD },
            ),
            SetupStep::CreateReadSemaphore => Some(
                Command::CreateSemaphore { handle_types: vk::EXTERNAL_SEMAPHORE_OPAQUE_FD },
            ),
            SetupStep::ExportWriteSemaphore => Some(
                Command::ExportSemaphore {
                    semaphore: self.semaphores.gl_write_finished,
                    handle_type: vk::EXTERNAL_SEMAPHORE_OPAQUE_FD,
                },
            ),
            SetupStep::ExportReadSemaphore => Some(
                Command::ExportSemaphore {
                    semaphore: self.semaphores.vk_read_finished,
                    handle_type: vk::EXTERNAL_SEMAPHORE_OPAQUE_FD,
                },
            ),
            SetupStep::GenWriteSemaphore => Some(Command::GenSemaphore),
            SetupStep::ImportWriteSemaphore => Some(
                Command::ImportSemaphore {
                    name: self.semaphores.gl_gl_write_finished,
                    handle_type: gl::HANDLE_TYPE_OPAQUE_FD_EXT,
                    fd: self.gl_write_finished_fd,
                },
            ),
            SetupStep::GenReadSemaphore => Some(Command::GenSemaphore),
            SetupStep::ImportReadSemaphore => Some(
                Command::ImportSemaphore {
                    name: self.semaphores.gl_vk_read_finished,
                    handle_type: gl::HANDLE_TYPE_OPAQUE_FD_EXT,
                    fd: self.vk_read_finished_fd,
                },
            ),
            SetupStep::AddSignal => Some(
                Command::AddSignal { semaphore: self.semaphores.vk_read_finished },
            ),
            SetupStep::SubmitEmpty => Some(Command::SubmitEmpty),
            SetupStep::Finished => None,
        }
    }

    /// Whether the current command can give this reply.
    pub open spec fn accepts(self, reply: Reply) -> bool {
        match self.step {
            SetupStep::QueryDisplay => reply is Display,
            SetupStep::QueryFormats => reply is Formats,
            SetupStep::CreateWriteSemaphore | SetupStep::CreateReadSemaphore => reply is Handle,
            SetupStep::ExportWriteSemaphore | SetupStep::ExportReadSemaphore => reply is Fd,
            SetupStep::GenWriteSemaphore | SetupStep::GenReadSemaphore => reply is Name,
            SetupStep::Finished => false,
            _ => reply is Done,
        }
    }

    /// Why the setup cannot go on with this reply, if it cannot.
    pub open spec fn fault(self, reply: Reply) -> Option<Fault> {
        if !self.accepts(reply) {
            Some(Fault::UnexpectedReply)
        } else if self.step is QueryFormats && reply->Formats_0@.len() == 0 {
            Some(Fault::NoSurfaceFormat)
        } else if self.step is CreatePipeline && self.display.spec_address() is Err {
            Some(self.display.spec_address()->Err_0)
        } else {
            None
        }
    }

    /// The setup with the reply noted, and the next step reached.
    pub open spec fn after(self, reply: Reply) -> Setup {
        let noted = match self.step {
            SetupStep::QueryDisplay => Setup { display: reply->Display_0, ..self },
            SetupStep::QueryFormats => Setup { format: Some(reply->Formats_0@[0]), ..self },
            SetupStep::CreateWriteSemaphore => Setup {
                semaphores: Semaphores { gl_write_finished: reply->Handle_0, ..self.semaphores },
                ..self
            },
            SetupStep::CreateReadSemaphore => Setup {
                semaphores: Semaphores { vk_read_finished: reply->Handle_0, ..self.semaphores },
                ..self
            },
            SetupStep::ExportWriteSemaphore => Setup {
                gl_write_finished_fd: reply->Fd_0,
                ..self
            },
            SetupStep::ExportReadSemaphore => Setup { vk_read_finished_fd: reply->Fd_0, ..self },
            SetupStep::GenWriteSemaphore => Setup {
                semaphores: Semaphores { gl_gl_write_finished: reply->Name_0, ..self.semaphores },
                ..self
            },
            SetupStep::GenReadSemaphore => Setup {
                semaphores: Semaphores { gl_vk_read_finished: reply->Name_0, ..self.semaphores },
                ..self
            },
            _ => self,
        };
        Setup { step: self.step.spec_next(), ..noted }
    }

    /// Notes the reply to the current command and moves on to the next.
    pub fn complete(&mut self, reply: &Reply) -> (result: Result<(), Fault>)
        requires
            old(self).wf(),
        ensures
            match old(self).fault(*reply) {
                Some(fault) => result == Err::<(), Fault>(fault) && *final(self) == *old(self),
                None => result is Ok && *final(self) == old(self).after(*reply),
            },
            final(self).wf(),
    {
        match self.step {
            SetupStep::QueryDisplay => match *reply {
                Reply::Display(display) => {
                    self.display = display;
                },
                _ => {
                    return Err(Fault::UnexpectedReply);
                },
            },
            SetupStep::QueryFormats => match reply {
                Reply::Formats(formats) => match preferred_format(formats) {
                    Some(format) => {
                        self.format = Some(format);
                    },
                    None => {
                        return Err(Fault::NoSurfaceFormat);
                    },
                },
                _ => {
                    return Err(Fault::UnexpectedReply);
                },
            },
            SetupStep::CreateWriteSemaphore => match *reply {
                Reply::Handle(semaphore) => {
                    self.semaphores.gl_write_finished = semaphore;
                },
                _ => {
                    return Err(Fault::UnexpectedReply);
                },
            },
            SetupStep::CreateReadSemaphore => match *reply {
                Reply::Handle(semaphore) => {
                    self.semaphores.vk_read_finished = semaphore;
                },
                _ => {
                    return Err(Fault::UnexpectedReply);
                },
            },
            SetupStep::ExportWriteSemaphore => match *reply {
                Reply::Fd(fd) => {
                    self.gl_write_finished_fd = fd;
                },
                _ => {
                    return Err(Fault::UnexpectedReply);
                },
            },
            SetupStep::ExportReadSemaphore => match *reply {
                Reply::Fd(fd) => {
                    self.vk_read_finished_fd = fd;
                },
                _ => {
                    return Err(Fault::UnexpectedReply);
                },
            },
            SetupStep::GenWriteSemaphore => match *reply {
                Reply::Name(name) => {
                    self.semaphores.gl_gl_write_finished = name;
                },
                _ => {
                    return Err(Fault::UnexpectedReply);
                },
            },
            SetupStep::GenReadSemaphore => match *reply {
                Reply::Name(name) => {
                    self.semaphores.gl_vk_read_finished = name;
                },
                _ => {
                    return Err(Fault::UnexpectedReply);
                },
            },
            SetupStep::CreatePipeline => {
                match *reply {
                    Reply::Done => {},
                    _ => {
                        return Err(Fault::UnexpectedReply);
                    },
                }
                match self.display.address() {
                    Ok(_) => {},
                    Err(fault) => {
                        return Err(fault);
                    },
                }
            },
            SetupStep::Finished => {
                return Err(Fault::UnexpectedReply);
            },
            _ => match *reply {
                Reply::Done => {},
                _ => {
                    return Err(Fault::UnexpectedReply);
                },
            },
        }
        self.step = self.step.next();
        Ok(())
    }

    /// The demo's first state, once the setup has finished.
    pub fn state(&self) -> (state: Option<State>)
        requires
            self.wf(),
        ensures
            match state {
                Some(state) => {
                    &&& self.step is Finished
                    &&& state == State::initial(self.format->0, self.semaphores)
                    &&& state.wf()
                },
                None => self.step !is Finished,
            },
    {
        match self.step {
            SetupStep::Finished => match self.format {
                Some(format) => Some(State::new(format, self.semaphores)),
                None => None,
            },
            _ => None,
        }
    }

    /// The setup after a run of replies.
    pub open spec fn run(self, replies: Seq<Reply>) -> Setup
        decreases replies.len(),
    {
        if replies.len() == 0 {
            self
        } else {
            self.run(replies.drop_last()).after(replies.last())
        }
    }

    /// Whether the setup can go on with each of a run of replies.
    pub open spec fn goes_through(self, replies: Seq<Reply>) -> bool
        decreases replies.len(),
    {
        replies.len() > 0 ==> {
            &&& self.goes_through(replies.drop_last())
            &&& self.run(replies.drop_last()).fault(replies.last()) is None
        }
    }

    /// The commands that a run of replies answers.
    pub open spec fn trace(self, replies: Seq<Reply>) -> Seq<Command>
        decreases replies.len(),
    {
        if replies.len() == 0 {
            Seq::empty()
        } else {
            self.trace(replies.drop_last()).push(
                self.run(replies.drop_last()).spec_command()->0,
            )
        }
    }

    /// The setup carries out the commands of its script, in order and without leaving
    /// any out, with the handles, names and file descriptors that the replies gave.
    pub proof fn commands_follow_script(self, replies: Seq<Reply>)
        requires
            self.goes_through(replies),
        ensures
            self.run(replies).step.index() == self.step.index() + replies.len(),
            self.trace(replies) == self.run(replies).script().subrange(
                self.step.index(),
                self.run(replies).step.index(),
            ),
        decreases replies.len(),
    {
        if replies.len() == 0 {
            assert(self.trace(replies) =~= self.script().subrange(
                self.step.index(),
                self.step.index(),
            ));
        } else {
            let before = self.run(replies.drop_last());
            let after = self.run(replies);
            self.commands_follow_script(replies.drop_last());
            before.lemma_script_is_stable(replies.last());
            lemma_one_more_command(
                before.script(),
                after.script(),
                self.step.index(),
                before.step.index(),
            );
        }
    }

    /// A reply changes no command up to the one that it answers.
    proof fn lemma_script_is_stable(self, reply: Reply)
        requires
            self.fault(reply) is None,
        ensures
            self.step.index() < self.script().len(),
            self.script().len() == self.after(reply).script().len(),
            forall|k: int|
                0 <= k <= self.step.index() ==> self.after(reply).script()[k]
                    == #[trigger] self.script()[k],
    {
    }

    /// The setup hands out what it was told, and nothing else: the surface and EGL get the
    /// display of the window, the placeholder and the pipeline the first format of the
    /// surface, and each semaphore is exported by its handle and imported by its file
    /// descriptor under the name that OpenGL gave.
    pub proof fn setup_hands_on_what_it_was_told(self)
        requires
            self.wf(),
        ensures
            self.step is CreateSurface ==> self.spec_command() == Some(
                Command::CreateSurface { display: self.display },
            ),
            self.step is GetDisplay ==> {
                &&& self.spec_command() matches Some(Command::GetDisplay { address })
                &&& self.display == DisplayHandle::Wayland(address) || self.display
                    == DisplayHandle::Xlib(Some(address))
            },
            self.step is CreatePlaceholderTexture ==> {
                &&& self.spec_command() matches Some(Command::CreatePlaceholderTexture(texture))
                &&& texture.format == PixelFormat::Surface(self.format->0)
                &&& texture.width == 1 && texture.height == 1
            },
            self.step is CreatePipeline ==> {
                &&& self.spec_command() matches Some(Command::CreatePipeline(pipeline))
                &&& pipeline.target_format == self.format->0
            },
            self.step is ExportWriteSemaphore ==> {
                &&& self.spec_command() matches Some(
                    Command::ExportSemaphore { semaphore, handle_type },
                )
                &&& semaphore == self.semaphores.gl_write_finished && handle_type == 0x1
            },
            self.step is ExportReadSemaphore ==> {
                &&& self.spec_command() matches Some(
                    Command::ExportSemaphore { semaphore, handle_type },
                )
                &&& semaphore == self.semaphores.vk_read_finished && handle_type == 0x1
            },
            self.step is ImportWriteSemaphore ==> {
                &&& self.spec_command() matches Some(
                    Command::ImportSemaphore { name, handle_type, fd },
                )
                &&& name == self.semaphores.gl_gl_write_finished && handle_type == 0x9586
                &&& fd == self.gl_write_finished_fd
            },
            self.step is ImportReadSemaphore ==> {
                &&& self.spec_command() matches Some(
                    Command::ImportSemaphore { name, handle_type, fd },
                )
                &&& name == self.semaphores.gl_vk_read_finished && handle_type == 0x9586
                &&& fd == self.vk_read_finished_fd
            },
            self.step is AddSignal ==> {
                &&& self.spec_command() matches Some(Command::AddSignal { semaphore })
                &&& semaphore == self.semaphores.vk_read_finished
            },
    {
    }

    /// The other commands are the same in every setup, whatever the window, the surface and
    /// the drivers gave.
    pub proof fn setups_differ_by_replies_alone(self, other: Setup)
        requires
            self.step == other.step,
        ensures
            match self.step {
                SetupStep::CreateSurface
                | SetupStep::GetDisplay
                | SetupStep::CreatePlaceholderTexture
                | SetupStep::CreatePipeline
                | SetupStep::ExportWriteSemaphore
                | SetupStep::ExportReadSemaphore
                | SetupStep::ImportWriteSemaphore
                | SetupStep::ImportReadSemaphore
                | SetupStep::AddSignal => true,
                _ => self.spec_command() == other.spec_command(),
            },
    {
    }

    /// What a reply gives is noted as it is, for the command that it answers, and nothing
    /// else changes; of the surface's formats it is the first.
    pub proof fn reply_is_noted_as_it_is(self, reply: Reply)
        requires
            self.fault(reply) is None,
        ensures
            ({
                let after = self.after(reply);
                let sems = self.semaphores;
                &&& after.display == if self.step is QueryDisplay {
                    reply->Display_0
                } else {
                    self.display
                }
                &&& after.format == if self.step is QueryFormats {
                    Some(reply->Formats_0@.first())
                } else {
                    self.format
                }
                &&& after.semaphores.gl_write_finished == if self.step is CreateWriteSemaphore {
                    reply->Handle_0
                } else {
                    sems.gl_write_finished
                }
                &&& after.semaphores.vk_read_finished == if self.step is CreateReadSemaphore {
                    reply->Handle_0
                } else {
                    sems.vk_read_finished
                }
                &&& after.semaphores.gl_gl_write_finished == if self.step is GenWriteSemaphore {
                    reply->Name_0
                } else {
                    sems.gl_gl_write_finished
                }
                &&& after.semaphores.gl_vk_read_finished == if self.step is GenReadSemaphore {
                    reply->Name_0
                } else {
                    sems.gl_vk_read_finished
                }
                &&& after.gl_write_finished_fd == if self.step is ExportWriteSemaphore {
                    reply->Fd_0
                } else {
                    self.gl_write_finished_fd
                }
                &&& after.vk_read_finished_fd == if self.step is ExportReadSemaphore {
                    reply->Fd_0
                } else {
                    self.vk_read_finished_fd
                }
            }),
    {
    }
}

} // verus!
