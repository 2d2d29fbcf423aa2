//! Whole sessions, with the drivers played by `answer`.
use vulkan_opengl_demo::app::{App, Event, Phase, Reaction};
use vulkan_opengl_demo::command::{Color, Command, Fault, FrameStatus, Reply, ViewSource};
use vulkan_opengl_demo::egl::DisplayHandle;
use vulkan_opengl_demo::format::PixelFormat;
use vulkan_opengl_demo::gl_call::{CallAction, GlCall};
use vulkan_opengl_demo::memory::{MemoryProperties, MemoryRequirements};
use vulkan_opengl_demo::pipeline::{
    Attachment, BindingKind, Blend, GroupLayout, LayoutEntry, PassDescriptor, PipelineDescriptor,
    PipelineLayout, SampleType, SamplerKind, StoreOperation, Topology, ViewDimension,
};
use vulkan_opengl_demo::render::{frame_message, scene, Semaphores, Vertex};
use vulkan_opengl_demo::resize::SharedTexture;
use vulkan_opengl_demo::setup::{
    add_extensions, device_extensions, instance_extensions, DeviceExtension, InstanceExtension,
    Setup,
};
use vulkan_opengl_demo::state::{State, Task};
use vulkan_opengl_demo::texture::{
    AlphaMode, ColorSpace, HalTextureDescriptor, ImageInfo, PresentMode, SurfaceConfiguration,
    TextureDescriptor,
};

const FORMAT: wgpu::TextureFormat = wgpu::TextureFormat::Bgra8UnormSrgb;

const SEMAPHORES: Semaphores = Semaphores {
    gl_write_finished: 101,
    gl_gl_write_finished: 11,
    vk_read_finished: 102,
    gl_vk_read_finished: 12,
};

fn properties(flags: u32) -> MemoryProperties {
    let mut property_flags = [0u32; 32];
    property_flags[1] = flags;
    MemoryProperties { memory_type_count: 2, property_flags }
}

/// Answers a command with a number that no earlier answer had.
fn answer(command: &Command, next: &mut u32) -> Reply {
    *next += 1;
    match command {
        Command::QueryDisplay => Reply::Display(DisplayHandle::Wayland(0xD15)),
        Command::QueryFormats => {
            Reply::Formats(vec![FORMAT, wgpu::TextureFormat::Rgba8Unorm])
        }
        Command::CreateSemaphore { .. }
        | Command::CreateImage(_)
        | Command::AllocateMemory { .. } => Reply::Handle(*next as u64),
        Command::ExportSemaphore { .. } | Command::ExportMemory { .. } => Reply::Fd(*next as i32),
        Command::GenSemaphore
        | Command::CreateMemoryObject
        | Command::GenTexture
        | Command::GenFramebuffer => Reply::Name(*next),
        Command::QueryRequirements { .. } => {
            Reply::Requirements(MemoryRequirements { size: 4096, memory_type_bits: 0b11 })
        }
        Command::QueryMemoryProperties => Reply::Properties(properties(1)),
        Command::AcquireFrame => Reply::Frame(FrameStatus::Success),
        _ => Reply::Done,
    }
}

fn work(app: &mut App, next: &mut u32) -> Vec<Command> {
    let mut commands = vec![];
    while let Some(command) = app.command() {
        let reply = answer(&command, next);
        commands.push(command);
        assert_eq!(app.complete(&reply), Ok(()));
    }
    commands
}

fn work_on(state: &mut State, next: &mut u32) -> Vec<Command> {
    let mut commands = vec![];
    while let Some(command) = state.command() {
        let reply = answer(&command, next);
        commands.push(command);
        assert_eq!(state.complete(&reply), Ok(()));
    }
    commands
}

fn running(app: &App) -> State {
    match app.phase {
        Phase::Running(state) => state,
        _ => panic!("the setup has not finished"),
    }
}

fn started(next: &mut u32) -> App {
    let mut app = App::new();
    assert_eq!(app.resumed(), Some("Vulkan OpenGL Demo"));
    work(&mut app, next);
    app
}

#[test]
fn setup_brings_everything_up_in_order() {
    let mut app = App::new();
    app.resumed();
    let mut next = 0;
    let commands = work(&mut app, &mut next);
    assert_eq!(
        commands,
        vec![
            Command::CreateInstance {
                validation: true,
                instance_extensions: [
                    InstanceExtension::ExternalMemoryCapabilities,
                    InstanceExtension::ExternalSemaphoreCapabilities,
                ],
            },
            Command::QueryDisplay,
            Command::CreateSurface { display: DisplayHandle::Wayland(0xD15) },
            Command::RequestAdapter { compatible_surface: true },
            Command::QueryFormats,
            Command::OpenDevice { device_extensions: [DeviceExtension::ExternalSemaphoreFd] },
            Command::CreateDevice,
            Command::CreatePlaceholderTexture(TextureDescriptor {
                width: 1,
                height: 1,
                depth_or_array_layers: 1,
                mip_level_count: 1,
                sample_count: 1,
                format: PixelFormat::Surface(FORMAT),
                usage: 0b110,
            }),
            Command::CreatePlaceholderView,
            Command::CreateSampler,
            Command::CreateBindGroupLayout(GroupLayout {
                texture: LayoutEntry {
                    binding: 0,
                    visibility: 2,
                    kind: BindingKind::Texture {
                        multisampled: false,
                        dimension: ViewDimension::D2,
                        sample_type: SampleType::Float { filterable: true },
                    },
                    count: None,
                },
                sampler: LayoutEntry {
                    binding: 1,
                    visibility: 2,
                    kind: BindingKind::Sampler(SamplerKind::Filtering),
                    count: None,
                },
            }),
            Command::CreateBindGroup {
                texture_binding: 0,
                sampler_binding: 1,
                view: ViewSource::Placeholder,
            },
            Command::CreateShader,
            Command::CreatePipelineLayout(PipelineLayout { bind_groups: 1, immediate_size: 0 }),
            Command::CreatePipeline(PipelineDescriptor {
                vertex_entry: "vs",
                vertex_buffers: 0,
                fragment_entry: "fs",
                target_format: FORMAT,
                blend: Blend::Replace,
                write_mask: 0b1111,
                topology: Topology::TriangleList,
                sample_count: 1,
                depth_stencil: None,
                multiview_mask: None,
            }),
            Command::GetDisplay { address: 0xD15 },
            Command::InitializeDisplay,
            Command::BindApi { api: 0x30A2 },
            Command::ChooseConfig {
                config_attributes: [
                    0x3033, 1, 0x3024, 8, 0x3023, 8, 0x3022, 8, 0x3025, 24, 0x3040, 8, 0x3038,
                ],
            },
            Command::CreateContext {
                context_attributes: [0x3098, 4, 0x30FB, 6, 0x30FD, 2, 0x3038],
                share_with: None,
            },
            Command::MakeCurrent { draw: None, read: None },
            Command::LoadFunctions,
            Command::CreateSemaphore { handle_types: 1 },
            Command::CreateSemaphore { handle_types: 1 },
            Command::ExportSemaphore { semaphore: 23, handle_type: 1 },
            Command::ExportSemaphore { semaphore: 24, handle_type: 1 },
            Command::GenSemaphore,
            Command::ImportSemaphore { name: 27, handle_type: 0x9586, fd: 25 },
            Command::GenSemaphore,
            Command::ImportSemaphore { name: 29, handle_type: 0x9586, fd: 26 },
            Command::AddSignal { semaphore: 24 },
            Command::SubmitEmpty,
        ]
    );
    let state = running(&app);
    assert_eq!(
        state,
        State {
            configured: false,
            width: 256,
            height: 256,
            format: FORMAT,
            shared_texture: None,
            semaphores: Semaphores {
                gl_write_finished: 23,
                gl_gl_write_finished: 27,
                vk_read_finished: 24,
                gl_vk_read_finished: 29,
            },
            task: Task::Idle,
        }
    );
}

#[test]
fn extensions_are_added_to_those_of_wgpu() {
    let mut instance = vec!["VK_KHR_surface", "VK_EXT_debug_utils"];
    add_extensions(&mut instance, &instance_extensions(), |extension| extension.name());
    assert_eq!(
        instance,
        vec![
            "VK_KHR_surface",
            "VK_EXT_debug_utils",
            "VK_KHR_external_memory_capabilities",
            "VK_KHR_external_semaphore_capabilities",
        ]
    );
    let mut device = vec!["VK_KHR_swapchain"];
    add_extensions(&mut device, &device_extensions(), |extension| extension.name());
    assert_eq!(device, vec!["VK_KHR_swapchain", "VK_KHR_external_semaphore_fd"]);
}

#[test]
fn surface_without_formats_stops_the_setup() {
    let mut setup = Setup::new();
    let mut next = 0;
    while setup.command() != Some(Command::QueryFormats) {
        let command = setup.command().unwrap();
        assert_eq!(setup.complete(&answer(&command, &mut next)), Ok(()));
    }
    assert_eq!(setup.complete(&Reply::Formats(vec![])), Err(Fault::NoSurfaceFormat));
    assert_eq!(setup.command(), Some(Command::QueryFormats));
    assert_eq!(setup.state(), None);
}

#[test]
fn unsupported_displays_stop_the_setup_before_egl() {
    let displays = [
        (DisplayHandle::Other, Fault::UnsupportedDisplay),
        (DisplayHandle::Xlib(None), Fault::MissingDisplay),
    ];
    for (display, fault) in displays {
        let mut setup = Setup::new();
        let mut next = 0;
        loop {
            let command = setup.command().unwrap();
            let reply = if command == Command::QueryDisplay {
                Reply::Display(display)
            } else {
                answer(&command, &mut next)
            };
            match setup.complete(&reply) {
                Ok(()) => {}
                Err(found) => {
                    assert_eq!(found, fault);
                    assert!(matches!(command, Command::CreatePipeline(_)));
                    break;
                }
            }
        }
    }
}

#[test]
fn xlib_displays_are_supported() {
    let mut setup = Setup::new();
    let mut next = 0;
    while let Some(command) = setup.command() {
        let reply = if command == Command::QueryDisplay {
            Reply::Display(DisplayHandle::Xlib(Some(0x11B)))
        } else {
            answer(&command, &mut next)
        };
        match command {
            Command::CreateSurface { display } => {
                assert_eq!(display, DisplayHandle::Xlib(Some(0x11B)));
            }
            Command::GetDisplay { address } => assert_eq!(address, 0x11B),
            _ => {}
        }
        assert_eq!(setup.complete(&reply), Ok(()));
    }
    assert!(setup.state().is_some());
}

#[test]
fn first_resize_creates_the_shared_texture() {
    let mut state = State::new(FORMAT, SEMAPHORES);
    assert_eq!(state.resize((Some(640), Some(480))), Ok(()));
    let mut next = 0;
    let commands = work_on(&mut state, &mut next);
    assert_eq!(
        commands,
        vec![
            Command::CreateImage(ImageInfo {
                image_type: 1,
                format: 43,
                width: 640,
                height: 480,
                depth: 1,
                mip_levels: 1,
                array_layers: 1,
                samples: 1,
                tiling: 0,
                usage: 0b1100,
                handle_types: 1,
            }),
            Command::QueryRequirements { image: 1 },
            Command::QueryMemoryProperties,
            Command::AllocateMemory {
                size: 4096,
                memory_type_index: 1,
                handle_types: 1,
                image: 1,
            },
            Command::BindImageMemory { image: 1, memory: 4, offset: 0 },
            Command::ExportMemory { memory: 4, handle_type: 1 },
            Command::CreateMemoryObject,
            Command::MemoryObjectParameter { name: 7, parameter: 0x9581, value: 1 },
            Command::ImportMemory { name: 7, size: 4096, handle_type: 0x9586, fd: 6 },
            Command::GenTexture,
            Command::BindTexture { target: 0x0DE1, name: 10 },
            Command::TexParameter { target: 0x0DE1, parameter: 0x9580, value: 0x9584 },
            Command::TextureStorage {
                name: 10,
                levels: 1,
                internal_format: 0x8C43,
                width: 640,
                height: 480,
                memory_object: 7,
                offset: 0,
            },
            Command::GenFramebuffer,
            Command::BindFramebuffer { target: 0x8D40, name: 14 },
            Command::FramebufferTexture {
                target: 0x8D40,
                attachment: 0x8CE0,
                texture_target: 0x0DE1,
                texture: 10,
                level: 0,
            },
            Command::Viewport { x: 0, y: 0, width: 640, height: 480 },
            Command::WrapImage(HalTextureDescriptor {
                image: 1,
                memory: 4,
                width: 640,
                height: 480,
                depth_or_array_layers: 1,
                mip_level_count: 1,
                sample_count: 1,
                format: PixelFormat::Rgba8UnormSrgb,
                usage: 0x30,
            }),
            Command::WrapTexture {
                descriptor: TextureDescriptor {
                    width: 640,
                    height: 480,
                    depth_or_array_layers: 1,
                    mip_level_count: 1,
                    sample_count: 1,
                    format: PixelFormat::Rgba8UnormSrgb,
                    usage: 0x14,
                },
                state: 1,
            },
            Command::CreateTextureView,
            Command::CreateBindGroup {
                texture_binding: 0,
                sampler_binding: 1,
                view: ViewSource::Shared,
            },
            Command::ConfigureSurface(SurfaceConfiguration {
                usage: 0x10,
                format: FORMAT,
                view_format: FORMAT,
                alpha_mode: AlphaMode::Auto,
                width: 640,
                height: 480,
                desired_maximum_frame_latency: 2,
                present_mode: PresentMode::Fifo,
                color_space: ColorSpace::Auto,
            }),
        ]
    );
    assert_eq!(
        state,
        State {
            configured: true,
            width: 640,
            height: 480,
            format: FORMAT,
            shared_texture: Some(SharedTexture { gl_mem_object: 7, gl_texture: 10 }),
            semaphores: SEMAPHORES,
            task: Task::Idle,
        }
    );
}

#[test]
fn linear_surfaces_get_linear_textures() {
    let mut state = State::new(wgpu::TextureFormat::Bgra8Unorm, SEMAPHORES);
    assert_eq!(state.resize((Some(8), Some(8))), Ok(()));
    let mut next = 0;
    let mut seen = 0;
    for command in work_on(&mut state, &mut next) {
        match command {
            Command::CreateImage(info) => {
                assert_eq!(info.format, 37);
                seen += 1;
            }
            Command::TextureStorage { internal_format, .. } => {
                assert_eq!(internal_format, 0x8058);
                seen += 1;
            }
            Command::WrapTexture { descriptor, .. } => {
                assert_eq!(descriptor.format, PixelFormat::Rgba8Unorm);
                seen += 1;
            }
            _ => {}
        }
    }
    assert_eq!(seen, 3);
}

#[test]
fn later_resize_deletes_the_old_texture_first() {
    let mut state = State::new(FORMAT, SEMAPHORES);
    let mut next = 0;
    assert_eq!(state.resize((Some(640), Some(480))), Ok(()));
    work_on(&mut state, &mut next);
    let old = state.shared_texture.unwrap();
    assert_eq!(state.resize((Some(800), Some(600))), Ok(()));
    assert_eq!(state.shared_texture, None);
    let commands = work_on(&mut state, &mut next);
    assert_eq!(commands.len(), 25);
    assert_eq!(commands[0], Command::DeleteTexture { name: old.gl_texture });
    assert_eq!(commands[1], Command::DeleteMemoryObject { name: old.gl_mem_object });
    assert_eq!(commands[2], Command::DestroyTexture);
    let new = state.shared_texture.unwrap();
    assert_ne!(new, old);
    assert_eq!((state.width, state.height), (800, 600));
    assert!(state.configured);
}

#[test]
fn unknown_sizes_take_the_default() {
    let mut state = State::new(FORMAT, SEMAPHORES);
    let mut next = 0;
    assert_eq!(state.resize((None, Some(100))), Ok(()));
    let commands = work_on(&mut state, &mut next);
    assert_eq!(commands.len(), 22);
    assert_eq!((state.width, state.height), (256, 100));
    assert!(state.shared_texture.is_some());
}

#[test]
fn partly_known_sizes_replace_the_texture() {
    let mut state = State::new(FORMAT, SEMAPHORES);
    let mut next = 0;
    assert_eq!(state.resize((Some(800), Some(600))), Ok(()));
    work_on(&mut state, &mut next);
    let sizes = [
        ((Some(1024), None), (1024, 256)),
        ((None, Some(32)), (256, 32)),
        ((None, None), (256, 256)),
    ];
    for (size, (width, height)) in sizes {
        let old = state.shared_texture.unwrap();
        assert_eq!(state.resize(size), Ok(()));
        let commands = work_on(&mut state, &mut next);
        assert_eq!(commands.len(), 25);
        assert_eq!(commands[0], Command::DeleteTexture { name: old.gl_texture });
        match commands[3] {
            Command::CreateImage(info) => {
                assert_eq!((info.width, info.height), (width, height));
            }
            other => panic!("not an image: {:?}", other),
        }
        match commands[24] {
            Command::ConfigureSurface(surface) => {
                assert_eq!((surface.width, surface.height), (width, height));
            }
            other => panic!("not the surface: {:?}", other),
        }
        assert_ne!(state.shared_texture, Some(old));
        assert!(state.shared_texture.is_some());
        assert_eq!((state.width, state.height), (width, height));
    }
}

#[test]
fn no_memory_type_stops_the_resize() {
    let mut state = State::new(FORMAT, SEMAPHORES);
    let mut next = 0;
    assert_eq!(state.resize((Some(640), Some(480))), Ok(()));
    while state.command() != Some(Command::QueryMemoryProperties) {
        let command = state.command().unwrap();
        assert_eq!(state.complete(&answer(&command, &mut next)), Ok(()));
    }
    assert_eq!(state.complete(&Reply::Properties(properties(0b10))), Err(Fault::NoMemoryType));
    assert_eq!(state.command(), Some(Command::QueryMemoryProperties));
}

#[test]
fn sizes_beyond_opengl_stop_the_resize_at_the_storage() {
    for size in [(0x8000_0000u32, 1u32), (1, 0x8000_0000)] {
        let mut state = State::new(FORMAT, SEMAPHORES);
        let mut next = 0;
        assert_eq!(state.resize((Some(size.0), Some(size.1))), Ok(()));
        loop {
            let command = state.command().unwrap();
            match state.complete(&answer(&command, &mut next)) {
                Ok(()) => {}
                Err(fault) => {
                    assert_eq!(fault, Fault::SizeOutOfRange);
                    assert!(matches!(command, Command::TexParameter { .. }));
                    break;
                }
            }
        }
    }
    let mut state = State::new(FORMAT, SEMAPHORES);
    let mut next = 0;
    assert_eq!(state.resize((Some(0x7FFF_FFFF), Some(0x7FFF_FFFF))), Ok(()));
    work_on(&mut state, &mut next);
    assert!(state.configured);
}

#[test]
fn frame_takes_turns_with_the_semaphores() {
    let mut state = State::new(FORMAT, SEMAPHORES);
    let mut next = 0;
    assert_eq!(state.resize((Some(640), Some(480))), Ok(()));
    work_on(&mut state, &mut next);
    let before = state;
    let texture = state.shared_texture.unwrap().gl_texture;
    assert_eq!(state.render(), Ok(()));
    let commands = work_on(&mut state, &mut next);
    assert_eq!(
        commands,
        vec![
            Command::WaitSemaphore { name: 12, texture, layout: 0x958D },
            Command::ClearColor(Color { red: 0, green: 0, blue: 0, alpha: 10 }),
            Command::Clear { mask: 0x4000 },
            Command::DrawScene { mode: 4, vertices: scene() },
            Command::Flush,
            Command::SignalSemaphore { name: 11, texture, layout: 0x958E },
            Command::AcquireFrame,
            Command::CreateFrameView,
            Command::AddWait { semaphore: 101, stages: 0x80 },
            Command::EncodePass(PassDescriptor {
                color_attachment: Attachment::Frame,
                clear: Color { red: 1, green: 2, blue: 3, alpha: 10 },
                store: StoreOperation::Store,
                resolve_target: None,
                depth_slice: None,
                depth_stencil: None,
                bind_group_index: 0,
                dynamic_offset: None,
                first_vertex: 0,
                end_vertex: 6,
                first_instance: 0,
                end_instance: 1,
            }),
            Command::AddSignal { semaphore: 102 },
            Command::SubmitFrame,
            Command::Present,
        ]
    );
    assert_eq!(state, before);
}

#[test]
fn only_a_good_frame_is_drawn_to() {
    let statuses = [
        FrameStatus::Suboptimal,
        FrameStatus::Timeout,
        FrameStatus::Occluded,
        FrameStatus::Outdated,
        FrameStatus::Lost,
        FrameStatus::Validation,
    ];
    for status in statuses {
        let mut state = State::new(FORMAT, SEMAPHORES);
        let mut next = 0;
        assert_eq!(state.resize((Some(640), Some(480))), Ok(()));
        work_on(&mut state, &mut next);
        assert_eq!(state.render(), Ok(()));
        while state.command() != Some(Command::AcquireFrame) {
            assert_eq!(state.complete(&Reply::Done), Ok(()));
        }
        assert_eq!(state.complete(&Reply::Frame(status)), Err(Fault::FrameUnavailable(status)));
    }
}

#[test]
fn scene_is_one_triangle() {
    assert_eq!(
        scene(),
        [
            Vertex { red: 10, green: 0, blue: 0, x: 0, y: 1 },
            Vertex { red: 0, green: 10, blue: 0, x: -1, y: -1 },
            Vertex { red: 0, green: 0, blue: 10, x: 1, y: -1 },
        ]
    );
}

#[test]
fn colors_in_tenths_are_exact() {
    let tenths = [0.0, 0.1, 0.2, 0.3];
    for value in 0..4u8 {
        assert_eq!(f64::from(value) / 10.0, tenths[value as usize]);
    }
    assert_eq!(f32::from(10u8) / 10.0, 1.0f32);
}

#[test]
fn tasks_do_not_overlap() {
    let mut state = State::new(FORMAT, SEMAPHORES);
    assert_eq!(state.complete(&Reply::Done), Err(Fault::UnexpectedReply));
    assert_eq!(state.render(), Err(Fault::NoSharedTexture));
    assert_eq!(state.resize((Some(1), Some(1))), Ok(()));
    let before = state;
    assert_eq!(state.resize((Some(2), Some(2))), Err(Fault::Busy));
    assert_eq!(state.render(), Err(Fault::Busy));
    assert_eq!(state.complete(&Reply::Done), Err(Fault::UnexpectedReply));
    assert_eq!(state, before);
}

#[test]
fn application_is_set_up_once() {
    let mut next = 0;
    let mut app = started(&mut next);
    let before = app;
    assert_eq!(app.resumed(), None);
    assert_eq!(app, before);
    assert_eq!(app.command(), None);
}

#[test]
fn nothing_happens_before_the_state_is_there() {
    let events = [
        Event::CloseRequested,
        Event::Resized { width: 3, height: 4 },
        Event::RedrawRequested,
        Event::Other,
    ];
    let mut app = App::new();
    for event in events {
        assert_eq!(app.window_event(event), Ok(Reaction::Ignore));
    }
    assert_eq!(app, App::new());
    app.resumed();
    let starting = app;
    for event in events {
        assert_eq!(app.window_event(event), Ok(Reaction::Ignore));
    }
    assert_eq!(app, starting);
}

#[test]
fn close_exits_and_other_events_are_ignored() {
    let mut next = 0;
    let mut app = started(&mut next);
    let before = app;
    assert_eq!(app.window_event(Event::Other), Ok(Reaction::Ignore));
    assert_eq!(app.window_event(Event::CloseRequested), Ok(Reaction::Exit));
    assert_eq!(app, before);
}

#[test]
fn redraw_needs_a_size_first() {
    let mut next = 0;
    let mut app = started(&mut next);
    let mut early = app;
    assert_eq!(early.window_event(Event::RedrawRequested), Err(Fault::NoSharedTexture));
    assert_eq!(early.phase, Phase::Stopped(Fault::NoSharedTexture));
    assert_eq!(
        app.window_event(Event::Resized { width: 64, height: 32 }),
        Ok(Reaction::WorkThenRedraw)
    );
    let mut busy = app;
    assert_eq!(busy.window_event(Event::RedrawRequested), Err(Fault::Busy));
    assert_eq!(busy.phase, Phase::Stopped(Fault::Busy));
    work(&mut app, &mut next);
    assert_eq!(app.window_event(Event::RedrawRequested), Ok(Reaction::WorkThenRedraw));
    assert_eq!(work(&mut app, &mut next).len(), 13);
}

#[test]
fn refused_frames_are_named() {
    assert_eq!(frame_message(FrameStatus::Suboptimal), "unable to get frame: Suboptimal");
    assert_eq!(frame_message(FrameStatus::Timeout), "unable to get frame: Timeout");
    assert_eq!(frame_message(FrameStatus::Occluded), "unable to get frame: Occluded");
    assert_eq!(frame_message(FrameStatus::Outdated), "unable to get frame: Outdated");
    assert_eq!(frame_message(FrameStatus::Lost), "unable to get frame: Lost");
    assert_eq!(frame_message(FrameStatus::Validation), "unable to get frame: Validation");
    assert_eq!(frame_message(FrameStatus::Success), "unable to get frame: Success");
}

/// Makes the call of the current command, which raises the given errors.
fn call(app: &App, raised: &[u32]) -> GlCall {
    let mut call = GlCall::new(true, &app.command().unwrap());
    assert_eq!(call.error_read(0), None);
    call.invoked();
    for error in raised {
        assert_eq!(call.error_read(*error), Some(*error));
    }
    assert_eq!(call.error_read(0), None);
    call
}

#[test]
fn opengl_errors_stop_the_application() {
    let mut next = 0;
    let mut app = started(&mut next);
    app.window_event(Event::Resized { width: 64, height: 32 }).unwrap();
    work(&mut app, &mut next);
    app.window_event(Event::RedrawRequested).unwrap();

    let clean = call(&app, &[]);
    assert_eq!(app.complete_call(&clean, &Reply::Done), Ok(()));
    assert!(matches!(app.command(), Some(Command::ClearColor(_))));

    let mut unfinished = app;
    let begun = GlCall::new(true, &app.command().unwrap());
    assert_eq!(unfinished.complete_call(&begun, &Reply::Done), Err(Fault::CallUnfinished));
    assert_eq!(unfinished.command(), None);

    let failed = call(&app, &[0x502]);
    assert_eq!(failed.action(), CallAction::Fail);
    assert!(failed.reply(&Reply::Done).is_none());
    assert_eq!(app.complete_call(&failed, &Reply::Done), Err(Fault::GlError));
    assert_eq!(app.phase, Phase::Stopped(Fault::GlError));

    let stopped = app;
    assert_eq!(app.command(), None);
    assert_eq!(app.resumed(), None);
    assert_eq!(app.window_event(Event::RedrawRequested), Ok(Reaction::Ignore));
    assert_eq!(app.complete(&Reply::Done), Err(Fault::GlError));
    assert_eq!(app.complete_call(&clean, &Reply::Done), Err(Fault::GlError));
    assert_eq!(app, stopped);
}

/// The semaphores, file descriptors, textures and memory objects over a session of
/// several resizes and frames.
#[test]
fn resources_balance_over_a_long_session() {
    let mut next = 0;
    let mut app = App::new();
    app.resumed();
    let mut all = work(&mut app, &mut next);
    let sizes = [(64, 32), (64, 32), (1, 1), (1920, 1080)];
    for (width, height) in sizes {
        assert_eq!(
            app.window_event(Event::Resized { width, height }),
            Ok(Reaction::WorkThenRedraw)
        );
        all.extend(work(&mut app, &mut next));
        assert_eq!((running(&app).width, running(&app).height), (width, height));
        for _ in 0..2 {
            assert_eq!(app.window_event(Event::RedrawRequested), Ok(Reaction::WorkThenRedraw));
            all.extend(work(&mut app, &mut next));
        }
    }
    let semaphores = running(&app).semaphores;
    let mut read_signaled = false;
    let mut write_signaled = false;
    let mut pending_signal = false;
    let mut pending_wait = false;
    let mut textures = 0;
    let mut memory_objects = 0;
    let mut fds = 0;
    for command in all {
        match command {
            Command::GenTexture => textures += 1,
            Command::DeleteTexture { .. } => textures -= 1,
            Command::CreateMemoryObject => memory_objects += 1,
            Command::DeleteMemoryObject { .. } => memory_objects -= 1,
            Command::ExportMemory { .. } | Command::ExportSemaphore { .. } => fds += 1,
            Command::ImportMemory { .. } | Command::ImportSemaphore { .. } => fds -= 1,
            Command::WaitSemaphore { name, .. } => {
                assert_eq!(name, semaphores.gl_vk_read_finished);
                assert!(read_signaled);
                read_signaled = false;
            }
            Command::SignalSemaphore { name, .. } => {
                assert_eq!(name, semaphores.gl_gl_write_finished);
                assert!(!write_signaled);
                write_signaled = true;
            }
            Command::AddWait { semaphore, .. } => {
                assert_eq!(semaphore, semaphores.gl_write_finished);
                pending_wait = true;
            }
            Command::AddSignal { semaphore } => {
                assert_eq!(semaphore, semaphores.vk_read_finished);
                pending_signal = true;
            }
            Command::SubmitEmpty | Command::SubmitFrame => {
                if pending_wait {
                    assert!(write_signaled);
                    write_signaled = false;
                }
                if pending_signal {
                    assert!(!read_signaled);
                    read_signaled = true;
                }
                pending_wait = false;
                pending_signal = false;
            }
            _ => {}
        }
    }
    assert!(read_signaled);
    assert!(!write_signaled);
    assert_eq!((textures, memory_objects, fds), (1, 1, 0));
}
