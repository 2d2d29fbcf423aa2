//! Giving the surface a new size, and with it a new shared texture.
use vstd::prelude::*;

use crate::command::{lemma_one_more_command, Command, Fault, Reply, ViewSource};
use crate::format::SharedFormats;
use crate::gl;
use crate::memory::{find_memory_type, MemoryRequirements};
use crate::pipeline::{SAMPLER_BINDING, TEXTURE_BINDING};
use crate::texture::{
    hal_texture, shared_image, spec_hal_texture, spec_shared_image, spec_surface_configuration,
    spec_target_texture, surface_configuration, target_texture, USE_UNINITIALIZED,
};
use crate::vk;

verus! {

/// The OpenGL side of the texture memory that OpenGL and Vulkan share.
#[derive(Clone, Copy, Debug, PartialEq, Eq, Structural)]
pub struct SharedTexture {
    /// The memory object that stands for the Vulkan memory.
    pub gl_mem_object: u32,
    /// The texture stored in that memory.
    pub gl_texture: u32,
}

/// The commands of a resize, in order.
#[derive(Clone, Copy, Debug, PartialEq, Eq, Structural)]
pub enum ResizeStep {
    DeleteTexture,
    DeleteMemoryObject,
    DestroyTexture,
    CreateImage,
    QueryRequirements,
    QueryMemoryProperties,
    AllocateMemory,
    BindImageMemory,
    ExportMemory,
    CreateMemoryObject,
    SetDedicated,
    ImportMemory,
    GenTexture,
    BindTexture,
    SetTiling,
    TextureStorage,
    GenFramebuffer,
    BindFramebuffer,
    AttachTexture,
    Viewport,
    WrapImage,
    WrapTexture,
    CreateTextureView,
    CreateBindGroup,
    ConfigureSurface,
    Finished,
}

impl ResizeStep {
    /// The position of the step's command in the order of a resize.
    pub open spec fn index(self) -> int {
        match self {
            ResizeStep::DeleteTexture => 0,
            ResizeStep::DeleteMemoryObject => 1,
            ResizeStep::DestroyTexture => 2,
            ResizeStep::CreateImage => 3,
            ResizeStep::QueryRequirements => 4,
            ResizeStep::QueryMemoryProperties => 5,
            ResizeStep::AllocateMemory => 6,
            ResizeStep::BindImageMemory => 7,
            ResizeStep::ExportMemory => 8,
            ResizeStep::CreateMemoryObject => 9,
            ResizeStep::SetDedicated => 10,
            ResizeStep::ImportMemory => 11,
            ResizeStep::GenTexture => 12,
            ResizeStep::BindTexture => 13,
            ResizeStep::SetTiling => 14,
            ResizeStep::TextureStorage => 15,
            ResizeStep::GenFramebuffer => 16,
            ResizeStep::BindFramebuffer => 17,
            ResizeStep::AttachTexture => 18,
            ResizeStep::Viewport => 19,
            ResizeStep::WrapImage => 20,
            ResizeStep::WrapTexture => 21,
            ResizeStep::CreateTextureView => 22,
            ResizeStep::CreateBindGroup => 23,
            ResizeStep::ConfigureSurface => 24,
            ResizeStep::Finished => 25,
        }
    }

    /// The step after this one.
    pub open spec fn spec_next(self) -> ResizeStep {
        match self {
            ResizeStep::DeleteTexture => ResizeStep::DeleteMemoryObject,
            ResizeStep::DeleteMemoryObject => ResizeStep::DestroyTexture,
            ResizeStep::DestroyTexture => ResizeStep::CreateImage,
            ResizeStep::CreateImage => ResizeStep::QueryRequirements,
            ResizeStep::QueryRequirements => ResizeStep::QueryMemoryProperties,
            ResizeStep::QueryMemoryProperties => ResizeStep::AllocateMemory,
            ResizeStep::AllocateMemory => ResizeStep::BindImageMemory,
            ResizeStep::BindImageMemory => ResizeStep::ExportMemory,
            ResizeStep::ExportMemory => ResizeStep::CreateMemoryObject,
            ResizeStep::CreateMemoryObject => ResizeStep::SetDedicated,
            ResizeStep::SetDedicated => ResizeStep::ImportMemory,
            ResizeStep::ImportMemory => ResizeStep::GenTexture,
            ResizeStep::GenTexture => ResizeStep::BindTexture,
            ResizeStep::BindTexture => ResizeStep::SetTiling,
            ResizeStep::SetTiling => ResizeStep::TextureStorage,
            ResizeStep::TextureStorage => ResizeStep::GenFramebuffer,
            ResizeStep::GenFramebuffer => ResizeStep::BindFramebuffer,
            ResizeStep::BindFramebuffer => ResizeStep::AttachTexture,
            ResizeStep::AttachTexture => ResizeStep::Viewport,
            ResizeStep::Viewport => ResizeStep::WrapImage,
            ResizeStep::WrapImage => ResizeStep::WrapTexture,
            ResizeStep::WrapTexture => ResizeStep::CreateTextureView,
            ResizeStep::CreateTextureView => ResizeStep::CreateBindGroup,
            ResizeStep::CreateBindGroup => ResizeStep::ConfigureSurface,
            ResizeStep::ConfigureSurface => ResizeStep::Finished,
            ResizeStep::Finished => ResizeStep::Finished,
        }
    }

    /// The step after this one.
    pub fn next(&self) -> (next: ResizeStep)
        ensures
            next == self.spec_next(),
            *self !is Finished ==> next.index() == self.index() + 1,
    {
        match *self {
            ResizeStep::DeleteTexture => ResizeStep::DeleteMemoryObject,
            ResizeStep::DeleteMemoryObject => ResizeStep::DestroyTexture,
            ResizeStep::DestroyTexture => ResizeStep::CreateImage,
            ResizeStep::CreateImage => ResizeStep::QueryRequirements,
            ResizeStep::QueryRequirements => ResizeStep::QueryMemoryProperties,
            ResizeStep::QueryMemoryProperties => ResizeStep::AllocateMemory,
            ResizeStep::AllocateMemory => ResizeStep::BindImageMemory,
            ResizeStep::BindImageMemory => ResizeStep::ExportMemory,
            ResizeStep::ExportMemory => ResizeStep::CreateMemoryObject,
            ResizeStep::CreateMemoryObject => ResizeStep::SetDedicated,
            ResizeStep::SetDedicated => ResizeStep::ImportMemory,
            ResizeStep::ImportMemory => ResizeStep::GenTexture,
            ResizeStep::GenTexture => ResizeStep::BindTexture,
            ResizeStep::BindTexture => ResizeStep::SetTiling,
            ResizeStep::SetTiling => ResizeStep::TextureStorage,
            ResizeStep::TextureStorage => ResizeStep::GenFramebuffer,
            ResizeStep::GenFramebuffer => ResizeStep::BindFramebuffer,
            ResizeStep::BindFramebuffer => ResizeStep::AttachTexture,
            ResizeStep::AttachTexture => ResizeStep::Viewport,
            ResizeStep::Viewport => ResizeStep::WrapImage,
            ResizeStep::WrapImage => ResizeStep::WrapTexture,
            ResizeStep::WrapTexture => ResizeStep::CreateTextureView,
            ResizeStep::CreateTextureView => ResizeStep::CreateBindGroup,
            ResizeStep::CreateBindGroup => ResizeStep::ConfigureSurface,
            ResizeStep::ConfigureSurface => ResizeStep::Finished,
            ResizeStep::Finished => ResizeStep::Finished,
        }
    }
}

/// A resize under way: what it is for, and what its commands have given back so far.
#[derive(Clone, Copy, Debug, PartialEq, Eq)]
pub struct Resize {
    pub step: ResizeStep,
    /// The new size of the surface and of the shared texture.
    pub width: u32,
    pub height: u32,
    pub surface_format: wgpu::TextureFormat,
    pub formats: SharedFormats,
    /// The shared texture that is replaced, if there was one.
    pub old: Option<SharedTexture>,
    pub image: u64,
    pub requirements: MemoryRequirements,
    pub memory_type_index: u32,
    pub memory: u64,
    pub fd: i32,
    pub gl_mem_object: u32,
    pub gl_texture: u32,
    pub framebuffer: u32,
}

/// Whether a size fits the signed integers that OpenGL takes it in.
pub open spec fn fits_gl(width: u32, height: u32) -> bool {
    width <= i32::MAX && height <= i32::MAX
}

impl Resize {
    /// Texture names are there while they are deleted, and the size fits OpenGL once
    /// it has been handed over.
    pub open spec fn wf(self) -> bool {
        &&& self.step.index() < ResizeStep::CreateImage.index() ==> self.old is Some
        &&& self.step.index() >= ResizeStep::TextureStorage.index() ==> fits_gl(
            self.width,
            self.height,
        )
    }

    /// The commands that replace the shared texture and configure the surface: the
    /// old texture goes; a Vulkan image is created, and memory is allocated for it
    /// and bound; a file descriptor exports that memory; an OpenGL memory object
    /// imports it; an OpenGL texture is stored in it, and a framebuffer draws to that
    /// texture; wgpu takes the image over, and binds it to be sampled.
    pub open spec fn script(self) -> Seq<Command> {
        seq![
            Command::DeleteTexture { name: self.old->0.gl_texture },
            Command::DeleteMemoryObject { name: self.old->0.gl_mem_object },
            Command::DestroyTexture,
            Command::CreateImage(spec_shared_image(self.width, self.height, self.formats.image)),
            Command::QueryRequirements { image: self.image },
            Command::QueryMemoryProperties,
            Command::AllocateMemory {
                size: self.requirements.size,
                memory_type_index: self.memory_type_index,
                handle_types: vk::EXTERNAL_MEMORY_OPAQUE_FD,
                image: self.image,
            },
            Command::BindImageMemory { image: self.image, memory: self.memory, offset: 0 },
            Command::ExportMemory {
                memory: self.memory,
                handle_type: vk::EXTERNAL_MEMORY_OPAQUE_FD,
            },
            Command::CreateMemoryObject,
            Command::MemoryObjectParameter {
                name: self.gl_mem_object,
                parameter: gl::DEDICATED_MEMORY_OBJECT_EXT,
                value: gl::TRUE,
            },
            Command::ImportMemory {
                name: self.gl_mem_object,
                size: self.requirements.size,
                handle_type: gl::HANDLE_TYPE_OPAQUE_FD_EXT,
                fd: self.fd,
            },
            Command::GenTexture,
            Command::BindTexture { target: gl::TEXTURE_2D, name: self.gl_texture },
            Command::TexParameter {
                target: gl::TEXTURE_2D,
                parameter: gl::TEXTURE_TILING_EXT,
                value: gl::OPTIMAL_TILING_EXT,
            },
            Command::TextureStorage {
                name: self.gl_texture,
                levels: 1,
                internal_format: self.formats.storage,
                width: self.width as i32,
                height: self.height as i32,
                memory_object: self.gl_mem_object,
                offset: 0,
            },
            Command::GenFramebuffer,
            Command::BindFramebuffer { target: gl::FRAMEBUFFER, name: self.framebuffer },
            Command::FramebufferTexture {
                target: gl::FRAMEBUFFER,
                attachment: gl::COLOR_ATTACHMENT0,
                texture_target: gl::TEXTURE_2D,
                texture: self.gl_texture,
                level: 0,
            },
            Command::Viewport {
                x: 0,
                y: 0,
                width: self.width as i32,
                height: self.height as i32,
            },
            Command::WrapImage(
                spec_hal_texture(
                    self.image,
                    self.memory,
                    self.width,
                    self.height,
                    self.formats.texture,
                ),
            ),
            Command::WrapTexture {
                descriptor: spec_target_texture(self.width, self.height, self.formats.texture),
                state: USE_UNINITIALIZED,
            },
            Command::CreateTextureView,
            Command::CreateBindGroup {
                texture_binding: TEXTURE_BINDING,
                sampler_binding: SAMPLER_BINDING,
                view: ViewSource::Shared,
            },
            Command::ConfigureSurface(
                spec_surface_configuration(self.surface_format, self.width, self.height),
            ),
        ]
    }

    /// The command to carry out next, if any is left.
    pub open spec fn spec_command(self) -> Option<Command> {
        if self.step is Finished {
            None
        } else {
            Some(self.script()[self.step.index()])
        }
    }

    /// The command to carry out next, if any is left.
    pub fn command(&self) -> (command: Option<Command>)
        requires
            self.wf(),
        ensures
            command == self.spec_command(),
    {
        match self.step {
            ResizeStep::DeleteTexture => match self.old {
                Some(old) => Some(Command::DeleteTexture { name: old.gl_texture }),
                None => None,
            },
            ResizeStep::DeleteMemoryObject => match self.old {
                Some(old) => Some(Command::DeleteMemoryObject { name: old.gl_mem_object }),
                None => None,
            },
            ResizeStep::DestroyTexture => Some(Command::DestroyTexture),
            ResizeStep::CreateImage => Some(
                Command::CreateImage(shared_image(self.width, self.height, self.formats.image)),
            ),
            ResizeStep::QueryRequirements => Some(
                Command::QueryRequirements { image: self.image },
            ),
            ResizeStep::QueryMemoryProperties => Some(Command::QueryMemoryProperties),
            ResizeStep::AllocateMemory => Some(
                Command::AllocateMemory {
                    size: self.requirements.size,
                    memory_type_index: self.memory_type_index,
                    handle_types: vk::EXTERNAL_MEMORY_OPAQUE_FD,
                    image: self.image,
                },
            ),
            ResizeStep::BindImageMemory => Some(
                Command::BindImageMemory { image: self.image, memory: self.memory, offset: 0 },
            ),
            ResizeStep::ExportMemory => Some(
                Command::ExportMemory {
                    memory: self.memory,
                    handle_type: vk::EXTERNAL_MEMORY_OPAQUE_FD,
                },
            ),
            ResizeStep::CreateMemoryObject => Some(Command::CreateMemoryObject),
            ResizeStep::SetDedicated => Some(
                Command::MemoryObjectParameter {
                    name: self.gl_mem_object,
                    parameter: gl::DEDICATED_MEMORY_OBJECT_EXT,
                    value: gl::TRUE,
                },
            ),
            ResizeStep::ImportMemory => Some(
                Command::ImportMemory {
                    name: self.gl_mem_object,
                    size: self.requirements.size,
                    handle_type: gl::HANDLE_TYPE_OPAQUE_FD_EXT,
                    fd: self.fd,
                },
            ),
            ResizeStep::GenTexture => Some(Command::GenTexture),
            ResizeStep::BindTexture => Some(
                Command::BindTexture { target: gl::TEXTURE_2D, name: self.gl_texture },
            ),
            ResizeStep::SetTiling => Some(
                Command::TexParameter {
                    target: gl::TEXTURE_2D,
                    parameter: gl::TEXTURE_TILING_EXT,
                    value: gl::OPTIMAL_TILING_EXT,
                },
            ),
            ResizeStep::TextureStorage => Some(
                Command::TextureStorage {
                    name: self.gl_texture,
                    levels: 1,
                    internal_format: self.formats.storage,
                    width: self.width as i32,
                    height: self.height as i32,
                    memory_object: self.gl_mem_object,
                    offset: 0,
                },
            ),
            ResizeStep::GenFramebuffer => Some(Command::GenFramebuffer),
            ResizeStep::BindFramebuffer => Some(
                Command::BindFramebuffer { target: gl::FRAMEBUFFER, name: self.framebuffer },
            ),
            ResizeStep::AttachTexture => Some(
                Command::FramebufferTexture {
                    target: gl::FRAMEBUFFER,
                    attachment: gl::COLOR_ATTACHMENT0,
                    texture_target: gl::TEXTURE_2D,
                    texture: self.gl_texture,
                    level: 0,
                },
            ),
            ResizeStep::Viewport => Some(
                Command::Viewport {
                    x: 0,
                    y: 0,
                    width: self.width as i32,
                    height: self.height as i32,
                },
            ),
            ResizeStep::WrapImage => Some(
                Command::WrapImage(
                    hal_texture(
                        self.image,
                        self.memory,
                        self.width,
                        self.height,
                        self.formats.texture,
                    ),
                ),
            ),
            ResizeStep::WrapTexture => Some(
                Command::WrapTexture {
                    descriptor: target_texture(self.width, self.height, self.formats.texture),
                    state: USE_UNINITIALIZED,
                },
            ),
            ResizeStep::CreateTextureView => Some(Command::CreateTextureView),
            ResizeStep::CreateBindGroup => Some(
                Command::CreateBindGroup {
                    texture_binding: TEXTURE_BINDING,
                    sampler_binding: SAMPLER_BINDING,
                    view: ViewSource::Shared,
                },
            ),
            ResizeStep::ConfigureSurface => Some(
                Command::ConfigureSurface(
                    surface_configuration(self.surface_format, self.width, self.height),
                ),
            ),
            ResizeStep::Finished => None,
        }
    }

    /// Whether the current command can give this reply.
    pub open spec fn accepts(self, reply: Reply) -> bool {
        match self.step {
            ResizeStep::CreateImage | ResizeStep::AllocateMemory => reply is Handle,
            ResizeStep::QueryRequirements => reply is Requirements,
            ResizeStep::QueryMemoryProperties => reply is Properties,
            ResizeStep::ExportMemory => reply is Fd,
            ResizeStep::CreateMemoryObject
            | ResizeStep::GenTexture
            | ResizeStep::GenFramebuffer => reply is Name,
            ResizeStep::Finished => false,
            _ => reply is Done,
        }
    }

    /// Why the resize cannot go on with this reply, if it cannot.
    pub open spec fn fault(self, reply: Reply) -> Option<Fault> {
        if !self.accepts(reply) {
            Some(Fault::UnexpectedReply)
        } else if self.step is QueryMemoryProperties && reply->Properties_0.lowest_suitable(
            self.requirements.memory_type_bits,
        ) is None {
            Some(Fault::NoMemoryType)
        } else if self.step is SetTiling && !fits_gl(self.width, self.height) {
            Some(Fault::SizeOutOfRange)
        } else {
            None
        }
    }

    /// The resize with the reply noted, and the next step reached.
    pub open spec fn after(self, reply: Reply) -> Resize {
        let noted = match self.step {
            ResizeStep::CreateImage => Resize { image: reply->Handle_0, ..self },
            ResizeStep::QueryRequirements => Resize {
                requirements: reply->Requirements_0,
                ..self
            },
            ResizeStep::QueryMemoryProperties => Resize {
                memory_type_index: reply->Properties_0.lowest_suitable(
                    self.requirements.memory_type_bits,
                )->0,
                ..self
            },
            ResizeStep::AllocateMemory => Resize { memory: reply->Handle_0, ..self },
            ResizeStep::ExportMemory => Resize { fd: reply->Fd_0, ..self },
            ResizeStep::CreateMemoryObject => Resize { gl_mem_object: reply->Name_0, ..self },
            ResizeStep::GenTexture => Resize { gl_texture: reply->Name_0, ..self },
            ResizeStep::GenFramebuffer => Resize { framebuffer: reply->Name_0, ..self },
            _ => self,
        };
        Resize { step: self.step.spec_next(), ..noted }
    }

    /// Notes the reply to the current command and moves on to the next.
    pub fn complete(&mut self, reply: &Reply) -> (result: Result<(), Fault>)
        requires
            old(self).wf(),
        ensures
            match old(self).fault(*reply) {
                Some(fault) => result == Err::<(), Fault>(fault) && *final(self) == *old(self),
                None => result is Ok && *final(self) == old(self).after(*reply),
            },
            final(self).wf(),
    {
        match self.step {
            ResizeStep::CreateImage => match *reply {
                Reply::Handle(image) => {
                    self.image = image;
                },
                _ => {
                    return Err(Fault::UnexpectedReply);
                },
            },
            ResizeStep::QueryRequirements => match *reply {
                Reply::Requirements(requirements) => {
                    self.requirements = requirements;
                },
                _ => {
                    return Err(Fault::UnexpectedReply);
                },
            },
            ResizeStep::QueryMemoryProperties => match reply {
                Reply::Properties(properties) => {
                    let found = find_memory_type(self.requirements.memory_type_bits, properties);
                    match found {
                        Some(index) => {
                            self.memory_type_index = index;
                        },
                        None => {
                            return Err(Fault::NoMemoryType);
                        },
                    }
                },
                _ => {
                    return Err(Fault::UnexpectedReply);
                },
            },
            ResizeStep::AllocateMemory => match *reply {
                Reply::Handle(memory) => {
                    self.memory = memory;
                },
                _ => {
                    return Err(Fault::UnexpectedReply);
                },
            },
            ResizeStep::ExportMemory => match *reply {
                Reply::Fd(fd) => {
                    self.fd = fd;
                },
                _ => {
                    return Err(Fault::UnexpectedReply);
                },
            },
            ResizeStep::CreateMemoryObject => match *reply {
                Reply::Name(name) => {
                    self.gl_mem_object = name;
                },
                _ => {
                    return Err(Fault::UnexpectedReply);
                },
            },
            ResizeStep::GenTexture => match *reply {
                Reply::Name(name) => {
                    self.gl_texture = name;
                },
                _ => {
                    return Err(Fault::UnexpectedReply);
                },
            },
            ResizeStep::GenFramebuffer => match *reply {
                Reply::Name(name) => {
                    self.framebuffer = name;
                },
                _ => {
                    return Err(Fault::UnexpectedReply);
                },
            },
            ResizeStep::Finished => {
                return Err(Fault::UnexpectedReply);
            },
            _ => {
                match *reply {
                    Reply::Done => {},
                    _ => {
                        return Err(Fault::UnexpectedReply);
                    },
                }
                let set_tiling = match self.step {
                    ResizeStep::SetTiling => true,
                    _ => false,
                };
                if set_tiling && (self.width > 0x7FFF_FFFF || self.height > 0x7FFF_FFFF) {
                    return Err(Fault::SizeOutOfRange);
                }
            },
        }
        self.step = self.step.next();
        Ok(())
    }

    /// The resize after a run of replies.
    pub open spec fn run(self, replies: Seq<Reply>) -> Resize
        decreases replies.len(),
    {
        if replies.len() == 0 {
            self
        } else {
            self.run(replies.drop_last()).after(replies.last())
        }
    }

    /// Whether the resize can go on with each of a run of replies.
    pub open spec fn goes_through(self, replies: Seq<Reply>) -> bool
        decreases replies.len(),
    {
        replies.len() > 0 ==> {
            &&& self.goes_through(replies.drop_last())
            &&& self.run(replies.drop_last()).fault(replies.last()) is None
        }
    }

    /// The commands that a run of replies answers.
    pub open spec fn trace(self, replies: Seq<Reply>) -> Seq<Command>
        decreases replies.len(),
    {
        if replies.len() == 0 {
            Seq::empty()
        } else {
            self.trace(replies.drop_last()).push(
                self.run(replies.drop_last()).spec_command()->0,
            )
        }
    }

    /// A resize carries out the commands of its script, in order and without leaving any
    /// out, from the one that it began with, with the handles, names and file
    /// descriptors that the replies gave.
    pub proof fn commands_follow_script(self, replies: Seq<Reply>)
        requires
            self.goes_through(replies),
        ensures
            self.run(replies).step.index() == self.step.index() + replies.len(),
            self.trace(replies) == self.run(replies).script().subrange(
                self.step.index(),
                self.run(replies).step.index(),
            ),
        decreases replies.len(),
    {
        if replies.len() == 0 {
            assert(self.trace(replies) =~= self.script().subrange(
                self.step.index(),
                self.step.index(),
            ));
        } else {
            let before = self.run(replies.drop_last());
            let after = self.run(replies);
            self.commands_follow_script(replies.drop_last());
            before.lemma_script_is_stable(replies.last());
            lemma_one_more_command(
                before.script(),
                after.script(),
                self.step.index(),
                before.step.index(),
            );
        }
    }

    /// A reply changes no command up to the one that it answers.
    proof fn lemma_script_is_stable(self, reply: Reply)
        requires
            self.fault(reply) is None,
        ensures
            self.step.index() < self.script().len(),
            self.script().len() == self.after(reply).script().len(),
            forall|k: int|
                0 <= k <= self.step.index() ==> self.after(reply).script()[k]
                    == #[trigger] self.script()[k],
    {
    }

    /// Every command of a resize gets the size that the resize is to, and the names, handles
    /// and file descriptors that earlier commands gave: the image and what is wrapped around
    /// it, the storage, the viewport and the surface all have that one size, and memory is
    /// bound whole.
    pub proof fn resize_hands_on_size_and_names(self)
        requires
            self.wf(),
        ensures
            self.step is CreateImage ==> {
                &&& self.spec_command() matches Some(Command::CreateImage(image))
                &&& image.width == self.width && image.height == self.height
                &&& image.format == self.formats.image
            },
            self.step is QueryRequirements ==> self.spec_command() == Some(
                Command::QueryRequirements { image: self.image },
            ),
            self.step is AllocateMemory ==> {
                &&& self.spec_command() matches Some(
                    Command::AllocateMemory { size, memory_type_index, handle_types, image },
                )
                &&& size == self.requirements.size && image == self.image
                &&& memory_type_index == self.memory_type_index && handle_types == 0x1
            },
            self.step is BindImageMemory ==> {
                &&& self.spec_command() matches Some(
                    Command::BindImageMemory { image, memory, offset },
                )
                &&& image == self.image && memory == self.memory && offset == 0
            },
            self.step is ExportMemory ==> {
                &&& self.spec_command() matches Some(Command::ExportMemory { memory, handle_type })
                &&& memory == self.memory && handle_type == 0x1
            },
            self.step is SetDedicated ==> {
                &&& self.spec_command() matches Some(
                    Command::MemoryObjectParameter { name, parameter, value },
                )
                &&& name == self.gl_mem_object && parameter == 0x9581 && value == 1
            },
            self.step is ImportMemory ==> {
                &&& self.spec_command() matches Some(
                    Command::ImportMemory { name, size, handle_type, fd },
                )
                &&& name == self.gl_mem_object && size == self.requirements.size
                &&& handle_type == 0x9586 && fd == self.fd
            },
            self.step is BindTexture ==> {
                &&& self.spec_command() matches Some(Command::BindTexture { target, name })
                &&& target == 0x0DE1 && name == self.gl_texture
            },
            self.step is TextureStorage ==> {
                &&& self.spec_command() matches Some(
                    Command::TextureStorage {
                        name,
                        levels,
                        internal_format,
                        width,
                        height,
                        memory_object,
                        offset,
                    },
                )
                &&& name == self.gl_texture && memory_object == self.gl_mem_object
                &&& internal_format == self.formats.storage && levels == 1 && offset == 0
                &&& width == self.width && height == self.height
            },
            self.step is BindFramebuffer ==> {
                &&& self.spec_command() matches Some(Command::BindFramebuffer { target, name })
                &&& target == 0x8D40 && name == self.framebuffer
            },
            self.step is AttachTexture ==> {
                &&& self.spec_command() matches Some(
                    Command::FramebufferTexture {
                        target,
                        attachment,
                        texture_target,
                        texture,
                        level,
                    },
                )
                &&& target == 0x8D40 && attachment == 0x8CE0 && texture_target == 0x0DE1
                &&& texture == self.gl_texture && level == 0
            },
            self.step is Viewport ==> {
                &&& self.spec_command() matches Some(Command::Viewport { x, y, width, height })
                &&& x == 0 && y == 0 && width == self.width && height == self.height
            },
            self.step is WrapImage ==> {
                &&& self.spec_command() matches Some(Command::WrapImage(texture))
                &&& texture.image == self.image && texture.memory == self.memory
                &&& texture.width == self.width && texture.height == self.height
                &&& texture.format == self.formats.texture
            },
            self.step is WrapTexture ==> {
                &&& self.spec_command() matches Some(Command::WrapTexture { descriptor, state })
                &&& descriptor.width == self.width && descriptor.height == self.height
                &&& descriptor.format == self.formats.texture && state == 0x1
            },
            self.step is ConfigureSurface ==> {
                &&& self.spec_command() matches Some(Command::ConfigureSurface(surface))
                &&& surface.width == self.width && surface.height == self.height
                &&& surface.format == self.surface_format
            },
    {
    }

    /// A resize deletes the texture and the memory object that it replaces, by their own
    /// names, and the other commands are the same in every resize.
    pub proof fn resizes_differ_by_size_and_replies_alone(self, other: Resize)
        requires
            self.step == other.step,
            self.wf(),
        ensures
            self.step is DeleteTexture ==> self.old is Some && self.spec_command() == Some(
                Command::DeleteTexture { name: self.old->0.gl_texture },
            ),
            self.step is DeleteMemoryObject ==> self.old is Some && self.spec_command() == Some(
                Command::DeleteMemoryObject { name: self.old->0.gl_mem_object },
            ),
            match self.step {
                ResizeStep::DestroyTexture
                | ResizeStep::QueryMemoryProperties
                | ResizeStep::CreateMemoryObject
                | ResizeStep::GenTexture
                | ResizeStep::SetTiling
                | ResizeStep::GenFramebuffer
                | ResizeStep::CreateTextureView
                | ResizeStep::CreateBindGroup => self.spec_command() == other.spec_command(),
                _ => true,
            },
    {
    }

    /// What a reply gives is noted as it is, for the command that it answers, and the size,
    /// the formats and the texture that is replaced stay.
    pub proof fn reply_is_noted_as_it_is(self, reply: Reply)
        requires
            self.fault(reply) is None,
        ensures
            ({
                let after = self.after(reply);
                &&& after.width == self.width && after.height == self.height
                &&& after.surface_format == self.surface_format && after.formats == self.formats
                &&& after.old == self.old
                &&& after.image == if self.step is CreateImage {
                    reply->Handle_0
                } else {
                    self.image
                }
                &&& after.requirements == if self.step is QueryRequirements {
                    reply->Requirements_0
                } else {
                    self.requirements
                }
                &&& after.memory == if self.step is AllocateMemory {
                    reply->Handle_0
                } else {
                    self.memory
                }
                &&& after.fd == if self.step is ExportMemory {
                    reply->Fd_0
                } else {
                    self.fd
                }
                &&& after.gl_mem_object == if self.step is CreateMemoryObject {
                    reply->Name_0
                } else {
                    self.gl_mem_object
                }
                &&& after.gl_texture == if self.step is GenTexture {
                    reply->Name_0
                } else {
                    self.gl_texture
                }
                &&& after.framebuffer == if self.step is GenFramebuffer {
                    reply->Name_0
                } else {
                    self.framebuffer
                }
                &&& self.step is QueryMemoryProperties ==> {
                    let types = reply->Properties_0;
                    let index = after.memory_type_index;
                    &&& index < 32 && index < types.memory_type_count
                    &&& self.requirements.memory_type_bits & (1u32 << index) != 0
                    &&& types.property_flags@[index as int] & 0x1 == 0x1
                }
                &&& self.step !is QueryMemoryProperties ==> after.memory_type_index
                    == self.memory_type_index
            }),
    {
        if self.step is QueryMemoryProperties {
            reply->Properties_0.every_device_local_type_can_be_found(
                self.requirements.memory_type_bits,
                0,
            );
        }
    }

    /// The memory object and the texture that a resize ends with have the names that OpenGL
    /// gave when it was asked for them.
    pub proof fn names_are_those_that_opengl_gave(self, replies: Seq<Reply>)
        requires
            self.goes_through(replies),
            self.step.index() <= ResizeStep::CreateImage.index(),
        ensures
            ({
                let start = self.step.index();
                let object = ResizeStep::CreateMemoryObject.index() - start;
                let texture = ResizeStep::GenTexture.index() - start;
                &&& replies.len() > object ==> replies[object] == Reply::Name(
                    self.run(replies).gl_mem_object,
                )
                &&& replies.len() > texture ==> replies[texture] == Reply::Name(
                    self.run(replies).gl_texture,
                )
            }),
        decreases replies.len(),
    {
        if replies.len() > 0 {
            self.names_are_those_that_opengl_gave(replies.drop_last());
            self.commands_follow_script(replies.drop_last());
        }
    }
}

} // verus!
