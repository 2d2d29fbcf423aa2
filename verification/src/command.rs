//! What the core asks of the outside world, what it is told in return, and why it
//! may give up.
use vstd::prelude::*;

use crate::egl::DisplayHandle;
use crate::memory::{MemoryProperties, MemoryRequirements};
use crate::pipeline::{GroupLayout, PassDescriptor, PipelineDescriptor, PipelineLayout};
use crate::render::Vertex;
use crate::setup::{DeviceExtension, InstanceExtension};
use crate::texture::{HalTextureDescriptor, ImageInfo, SurfaceConfiguration, TextureDescriptor};

verus! {

/// The texture view that a bind group makes available to the shader.
#[derive(Clone, Copy, Debug, PartialEq, Eq, Structural)]
pub enum ViewSource {
    Placeholder,
    Shared,
}

/// A color with its channels in tenths of full intensity.
#[derive(Clone, Copy, Debug, PartialEq, Eq, Structural)]
pub struct Color {
    pub red: u8,
    pub green: u8,
    pub blue: u8,
    pub alpha: u8,
}

/// One call into wgpu, Vulkan, EGL or OpenGL, with its arguments. Vulkan objects are
/// named by their raw handles, OpenGL objects by their names; the objects of wgpu
/// and EGL exist once each and need no name.
#[derive(Clone, Copy, Debug, PartialEq, Eq)]
pub enum Command {
    /// Starts wgpu's Vulkan instance, with or without validation, and with extensions
    /// that `setup::add_extensions` adds to those that wgpu asks for.
    CreateInstance { validation: bool, instance_extensions: [InstanceExtension; 2] },
    /// Asks the window for its native display.
    QueryDisplay,
    /// Creates the surface on the window, with the given native display.
    CreateSurface { display: DisplayHandle },
    /// Picks an adapter, which may have to be able to present to the surface.
    RequestAdapter { compatible_surface: bool },
    /// Asks which formats the surface supports, in the order of its preference.
    QueryFormats,
    /// Opens the Vulkan device with wgpu's default features and limits, and with
    /// extensions that `setup::add_extensions` adds to those that wgpu asks for.
    OpenDevice { device_extensions: [DeviceExtension; 1] },
    /// Hands the open device to wgpu.
    CreateDevice,
    CreatePlaceholderTexture(TextureDescriptor),
    /// Creates the view of the whole placeholder.
    CreatePlaceholderView,
    /// Creates a sampler with wgpu's defaults.
    CreateSampler,
    CreateBindGroupLayout(GroupLayout),
    /// Creates the bind group of a view and the sampler.
    CreateBindGroup { texture_binding: u32, sampler_binding: u32, view: ViewSource },
    CreateShader,
    CreatePipelineLayout(PipelineLayout),
    CreatePipeline(PipelineDescriptor),
    GetDisplay { address: usize },
    InitializeDisplay,
    BindApi { api: u32 },
    /// Chooses the first configuration that has the attributes.
    ChooseConfig { config_attributes: [i32; 13] },
    /// Creates a context with the attributes, which may share its objects with another
    /// one.
    CreateContext { context_attributes: [i32; 7], share_with: Option<usize> },
    /// Makes the context current, with the surfaces to draw to and to read from, if any.
    MakeCurrent { draw: Option<usize>, read: Option<usize> },
    /// Loads the OpenGL functions through the current context.
    LoadFunctions,
    CreateSemaphore { handle_types: u32 },
    ExportSemaphore { semaphore: u64, handle_type: u32 },
    GenSemaphore,
    ImportSemaphore { name: u32, handle_type: u32, fd: i32 },
    /// Has the next submission signal the semaphore.
    AddSignal { semaphore: u64 },
    /// Has the next submission wait for the semaphore at the given pipeline stages.
    AddWait { semaphore: u64, stages: u32 },
    /// Submits no work, so that only pending waits and signals take effect.
    SubmitEmpty,
    DeleteTexture { name: u32 },
    DeleteMemoryObject { name: u32 },
    /// Destroys the shared wgpu texture, with its image and memory.
    DestroyTexture,
    CreateImage(ImageInfo),
    QueryRequirements { image: u64 },
    QueryMemoryProperties,
    /// Allocates memory that can be exported and is dedicated to the image.
    AllocateMemory { size: u64, memory_type_index: u32, handle_types: u32, image: u64 },
    BindImageMemory { image: u64, memory: u64, offset: u64 },
    ExportMemory { memory: u64, handle_type: u32 },
    CreateMemoryObject,
    MemoryObjectParameter { name: u32, parameter: u32, value: i32 },
    ImportMemory { name: u32, size: u64, handle_type: u32, fd: i32 },
    GenTexture,
    BindTexture { target: u32, name: u32 },
    TexParameter { target: u32, parameter: u32, value: i32 },
    TextureStorage {
        name: u32,
        levels: i32,
        internal_format: u32,
        width: i32,
        height: i32,
        memory_object: u32,
        offset: u64,
    },
    GenFramebuffer,
    BindFramebuffer { target: u32, name: u32 },
    FramebufferTexture {
        target: u32,
        attachment: u32,
        texture_target: u32,
        texture: u32,
        level: i32,
    },
    Viewport { x: i32, y: i32, width: i32, height: i32 },
    /// Hands the image and its memory to wgpu-hal.
    WrapImage(HalTextureDescriptor),
    /// Makes the wrapped image a wgpu texture, in the given `wgpu::TextureUses` state.
    WrapTexture { descriptor: TextureDescriptor, state: u16 },
    /// Creates the view of the whole shared texture.
    CreateTextureView,
    ConfigureSurface(SurfaceConfiguration),
    /// Has OpenGL wait for the semaphore, which hands it the texture in the layout.
    WaitSemaphore { name: u32, texture: u32, layout: u32 },
    ClearColor(Color),
    Clear { mask: u32 },
    /// Draws the vertices in immediate mode.
    DrawScene { mode: u32, vertices: [Vertex; 3] },
    Flush,
    /// Has OpenGL signal the semaphore, which gives up the texture in the layout.
    SignalSemaphore { name: u32, texture: u32, layout: u32 },
    AcquireFrame,
    /// Creates the view of the whole frame.
    CreateFrameView,
    EncodePass(PassDescriptor),
    SubmitFrame,
    Present,
}

impl Command {
    /// Whether a reply is of the kind that the command gives.
    pub open spec fn answered_by(self, reply: Reply) -> bool {
        match self {
            Command::QueryDisplay => reply is Display,
            Command::QueryFormats => reply is Formats,
            Command::CreateSemaphore { .. }
            | Command::CreateImage(_)
            | Command::AllocateMemory { .. } => reply is Handle,
            Command::ExportSemaphore { .. } | Command::ExportMemory { .. } => reply is Fd,
            Command::GenSemaphore
            | Command::CreateMemoryObject
            | Command::GenTexture
            | Command::GenFramebuffer => reply is Name,
            Command::QueryRequirements { .. } => reply is Requirements,
            Command::QueryMemoryProperties => reply is Properties,
            Command::AcquireFrame => reply is Frame,
            _ => reply is Done,
        }
    }

    /// Whether the command is an OpenGL call after which the error flag is checked.
    /// Between the calls of immediate mode the flag may not be read.
    pub open spec fn spec_is_checked(self) -> bool {
        match self {
            Command::GenSemaphore => true,
            Command::ImportSemaphore { .. } => true,
            Command::DeleteTexture { .. } => true,
            Command::DeleteMemoryObject { .. } => true,
            Command::CreateMemoryObject => true,
            Command::MemoryObjectParameter { .. } => true,
            Command::ImportMemory { .. } => true,
            Command::GenTexture => true,
            Command::BindTexture { .. } => true,
            Command::TexParameter { .. } => true,
            Command::TextureStorage { .. } => true,
            Command::GenFramebuffer => true,
            Command::BindFramebuffer { .. } => true,
            Command::FramebufferTexture { .. } => true,
            Command::Viewport { .. } => true,
            Command::WaitSemaphore { .. } => true,
            Command::ClearColor(_) => true,
            Command::Clear { .. } => true,
            Command::Flush => true,
            Command::SignalSemaphore { .. } => true,
            _ => false,
        }
    }

    /// Whether the command is an OpenGL call after which the error flag is checked.
    pub fn is_checked(&self) -> (checked: bool)
        ensures
            checked == self.spec_is_checked(),
    {
        match *self {
            Command::GenSemaphore
            | Command::ImportSemaphore { .. }
            | Command::DeleteTexture { .. }
            | Command::DeleteMemoryObject { .. }
            | Command::CreateMemoryObject
            | Command::MemoryObjectParameter { .. }
            | Command::ImportMemory { .. }
            | Command::GenTexture
            | Command::BindTexture { .. }
            | Command::TexParameter { .. }
            | Command::TextureStorage { .. }
            | Command::GenFramebuffer
            | Command::BindFramebuffer { .. }
            | Command::FramebufferTexture { .. }
            | Command::Viewport { .. }
            | Command::WaitSemaphore { .. }
            | Command::ClearColor(_)
            | Command::Clear { .. }
            | Command::Flush
            | Command::SignalSemaphore { .. } => true,
            _ => false,
        }
    }
}

/// The outcome of asking the surface for its next frame.
#[derive(Clone, Copy, Debug, PartialEq, Eq, Structural)]
pub enum FrameStatus {
    Success,
    Suboptimal,
    Timeout,
    Occluded,
    Outdated,
    Lost,
    Validation,
}

impl FrameStatus {
    /// What the outcome is called.
    pub open spec fn spec_name(self) -> Seq<char> {
        match self {
            FrameStatus::Success => "Success"@,
            FrameStatus::Suboptimal => "Suboptimal"@,
            FrameStatus::Timeout => "Timeout"@,
            FrameStatus::Occluded => "Occluded"@,
            FrameStatus::Outdated => "Outdated"@,
            FrameStatus::Lost => "Lost"@,
            FrameStatus::Validation => "Validation"@,
        }
    }

    /// What the outcome is called.
    pub fn name(&self) -> (name: &'static str)
        ensures
            name@ == self.spec_name(),
    {
        match *self {
            FrameStatus::Success => "Success",
            FrameStatus::Suboptimal => "Suboptimal",
            FrameStatus::Timeout => "Timeout",
            FrameStatus::Occluded => "Occluded",
            FrameStatus::Outdated => "Outdated",
            FrameStatus::Lost => "Lost",
            FrameStatus::Validation => "Validation",
        }
    }
}

/// What carrying out a command gave back.
#[derive(Debug)]
pub enum Reply {
    Done,
    /// The raw handle of a new Vulkan object.
    Handle(u64),
    /// The name of a new OpenGL object.
    Name(u32),
    /// An exported file descriptor.
    Fd(i32),
    Display(DisplayHandle),
    Formats(Vec<wgpu::TextureFormat>),
    Requirements(MemoryRequirements),
    Properties(MemoryProperties),
    Frame(FrameStatus),
}

/// Why the demo cannot go on.
#[derive(Clone, Copy, Debug, PartialEq, Eq, Structural)]
pub enum Fault {
    /// The reply is not one that the current command gives.
    UnexpectedReply,
    /// Another resize or frame is under way.
    Busy,
    /// The surface supports no format.
    NoSurfaceFormat,
    /// The Xlib handle has no display.
    MissingDisplay,
    /// The window's display is neither a Wayland nor an Xlib one.
    UnsupportedDisplay,
    /// There is no texture to render to: the surface was never given a size.
    NoSharedTexture,
    /// No memory type fits the image and is local to the device.
    NoMemoryType,
    /// The size does not fit OpenGL's signed integers.
    SizeOutOfRange,
    /// The surface gave no frame, or none that is to be drawn to.
    FrameUnavailable(FrameStatus),
    /// An OpenGL call raised an error.
    GlError,
    /// An OpenGL call has not come to its end.
    CallUnfinished,
}

/// Where two scripts agree up to a command, a run that has followed the one up to that
/// command and then carries it out has followed the other.
pub(crate) proof fn lemma_one_more_command(
    before: Seq<Command>,
    after: Seq<Command>,
    first: int,
    current: int,
)
    requires
        0 <= first <= current < before.len(),
        before.len() == after.len(),
        forall|k: int| 0 <= k <= current ==> after[k] == #[trigger] before[k],
    ensures
        after.subrange(first, current + 1) == before.subrange(first, current).push(
            before[current],
        ),
{
    assert(after.subrange(first, current + 1) =~= before.subrange(first, current).push(
        before[current],
    ));
}

} // verus!
