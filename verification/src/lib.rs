//! The sequencing core of a demo that renders with OpenGL into a texture whose
//! memory Vulkan owns, and shows that texture in a window through wgpu.
pub mod app;
pub mod command;
pub mod device;
pub mod egl;
pub mod format;
pub mod gl;
pub mod gl_call;
pub mod memory;
pub mod pipeline;
pub mod render;
pub mod resize;
pub mod session;
pub mod setup;
pub mod state;
pub mod texture;
pub mod vk;
