# Vulkan/OpenGL interop demo

A demonstration of OpenGL (compatibility profile) rendering to a Vulkan texture, which
is then shown in a window through wgpu.

The library decides what is done, in which order and with which arguments, but for debug
labels and what is left to wgpu's defaults, and Verus proves that it does. It calls no
driver itself: it hands out commands, one outside call each, and takes the replies. With
the first fault, such as an OpenGL error or a frame that the surface does not give, it
stops, and no further command follows.

When the surface is reconfigured, a Vulkan RGBA image is created, memory is allocated
for it and bound, an opaque file descriptor exports that memory, and an OpenGL memory
object imports it; an OpenGL texture is stored in it and a framebuffer draws to it.

On every frame OpenGL waits until Vulkan has finished reading the texture, draws the
scene, and signals that it has finished writing; Vulkan then draws the texture to a
quad that fills the frame.

## Layout

- `src/app.rs`: what resuming the application and the events of its window lead to.
- `src/setup.rs`, `src/resize.rs`, `src/render.rs`: the commands of the setup, of a new
  size, and of a frame.
- `src/pipeline.rs`: the pipeline that draws the shared texture, and the pass it draws in.
- `src/state.rs`: the state of the running demo.
- `src/command.rs`: commands, replies, and the reasons to give up.
- `src/egl.rs`, `src/format.rs`, `src/memory.rs`, `src/texture.rs`, `src/gl.rs`,
  `src/vk.rs`: the choices and constants behind the arguments.
- `src/gl_call.rs`: checking OpenGL's error flag around a call.
- `src/device.rs`, `src/session.rs`: a model of the drivers, and what is proved of every
  session against it.
- `tests/`: the library on concrete values.
- `app/`: the window, and the calls into wgpu, Vulkan, EGL and OpenGL.
