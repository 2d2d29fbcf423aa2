//! The state of the running demo.
use vstd::prelude::*;

use crate::command::{Command, Fault, Reply};
use crate::format::{matching_formats, rgba8_formats, texture_format_is_srgb};
use crate::memory::MemoryRequirements;
use crate::render::{Render, RenderStep, Semaphores};
use crate::resize::{Resize, ResizeStep, SharedTexture};

verus! {

/// The width and height of a surface whose size is not known.
pub const DEFAULT_SIZE: u32 = 256;

/// What the demo is in the middle of.
#[derive(Clone, Copy, Debug, PartialEq, Eq)]
pub enum Task {
    Idle,
    Resize(Resize),
    Render(Render),
}

/// The state of the running demo.
#[derive(Clone, Copy, Debug, PartialEq, Eq)]
pub struct State {
    /// Whether the surface has been configured.
    pub configured: bool,
    pub width: u32,
    pub height: u32,
    /// The surface's format.
    pub format: wgpu::TextureFormat,
    pub shared_texture: Option<SharedTexture>,
    pub semaphores: Semaphores,
    pub task: Task,
}

impl State {
    /// A task is under way only while it has commands left, and is about this state.
    /// Whenever nothing is under way, the surface is configured exactly if there is a
    /// shared texture.
    pub open spec fn wf(self) -> bool {
        match self.task {
            Task::Idle => self.configured == (self.shared_texture is Some),
            Task::Resize(job) => {
                &&& job.wf()
                &&& job.step !is Finished
                &&& job.width == self.width
                &&& job.height == self.height
                &&& job.surface_format == self.format
                &&& job.formats == rgba8_formats(texture_format_is_srgb(self.format))
                &&& self.shared_texture == if job.step.index()
                    <= ResizeStep::CreateTextureView.index() {
                    None
                } else {
                    Some(
                        SharedTexture {
                            gl_mem_object: job.gl_mem_object,
                            gl_texture: job.gl_texture,
                        },
                    )
                }
            },
            Task::Render(job) => {
                &&& job.step !is Finished
                &&& job.semaphores == self.semaphores
                &&& self.shared_texture is Some
                &&& self.shared_texture->0.gl_texture == job.gl_texture
                &&& self.configured
            },
        }
    }

    /// The state in which the demo starts: nothing is configured, and there is no
    /// shared texture yet.
    pub open spec fn initial(format: wgpu::TextureFormat, semaphores: Semaphores) -> State {
        State {
            configured: false,
            width: DEFAULT_SIZE,
            height: DEFAULT_SIZE,
            format,
            shared_texture: None,
            semaphores,
            task: Task::Idle,
        }
    }

    /// The state in which the demo starts.
    pub fn new(format: wgpu::TextureFormat, semaphores: Semaphores) -> (state: State)
        ensures
            state == State::initial(format, semaphores),
            state.wf(),
    {
        State {
            configured: false,
            width: DEFAULT_SIZE,
            height: DEFAULT_SIZE,
            format,
            shared_texture: None,
            semaphores,
            task: Task::Idle,
        }
    }

    /// A dimension of the surface, by what is known of it.
    pub open spec fn dimension(known: Option<u32>) -> u32 {
        match known {
            Some(size) => size,
            None => DEFAULT_SIZE,
        }
    }

    /// The state after a resize has begun.
    pub open spec fn resizing(self, new_size: (Option<u32>, Option<u32>)) -> State {
        let width = State::dimension(new_size.0);
        let height = State::dimension(new_size.1);
        State {
            width,
            height,
            shared_texture: None,
            task: Task::Resize(
                Resize {
                    step: if self.shared_texture is Some {
                        ResizeStep::DeleteTexture
                    } else {
                        ResizeStep::CreateImage
                    },
                    width,
                    height,
                    surface_format: self.format,
                    formats: rgba8_formats(texture_format_is_srgb(self.format)),
                    old: self.shared_texture,
                    image: 0,
                    requirements: MemoryRequirements { size: 0, memory_type_bits: 0 },
                    memory_type_index: 0,
                    memory: 0,
                    fd: 0,
                    gl_mem_object: 0,
                    gl_texture: 0,
                    framebuffer: 0,
                },
            ),
            ..self
        }
    }

    /// Begins to give the surface a new size. What is not known of the size takes its
    /// default. With the surface, the shared texture always gets the new size: a texture
    /// of the old size is deleted, and a new one is created.
    pub fn resize(&mut self, new_size: (Option<u32>, Option<u32>)) -> (result: Result<(), Fault>)
        requires
            old(self).wf(),
        ensures
            match old(self).task {
                Task::Idle => result is Ok && *final(self) == old(self).resizing(new_size),
                _ => result == Err::<(), Fault>(Fault::Busy) && *final(self) == *old(self),
            },
            final(self).wf(),
    {
        match self.task {
            Task::Idle => {},
            _ => {
                return Err(Fault::Busy);
            },
        }
        let (new_width, new_height) = new_size;
        self.width = new_width.unwrap_or(DEFAULT_SIZE);
        self.height = new_height.unwrap_or(DEFAULT_SIZE);
        let old_texture = self.shared_texture;
        let step = if old_texture.is_some() {
            ResizeStep::DeleteTexture
        } else {
            ResizeStep::CreateImage
        };
        self.shared_texture = None;
        self.task = Task::Resize(
            Resize {
                step,
                width: self.width,
                height: self.height,
                surface_format: self.format,
                formats: matching_formats(self.format),
                old: old_texture,
                image: 0,
                requirements: MemoryRequirements { size: 0, memory_type_bits: 0 },
                memory_type_index: 0,
                memory: 0,
                fd: 0,
                gl_mem_object: 0,
                gl_texture: 0,
                framebuffer: 0,
            },
        );
        Ok(())
    }

    /// The state after a frame has begun.
    pub open spec fn rendering(self) -> State {
        State {
            task: Task::Render(
                Render {
                    step: RenderStep::WaitSemaphore,
                    semaphores: self.semaphores,
                    gl_texture: self.shared_texture->0.gl_texture,
                },
            ),
            ..self
        }
    }

    /// Begins a frame. There is nothing to render to before the first resize.
    pub fn render(&mut self) -> (result: Result<(), Fault>)
        requires
            old(self).wf(),
        ensures
            if old(self).task !is Idle {
                result == Err::<(), Fault>(Fault::Busy) && *final(self) == *old(self)
            } else if old(self).shared_texture is None {
                result == Err::<(), Fault>(Fault::NoSharedTexture) && *final(self) == *old(self)
            } else {
                result is Ok && *final(self) == old(self).rendering()
            },
            final(self).wf(),
    {
        match self.task {
            Task::Idle => {},
            _ => {
                return Err(Fault::Busy);
            },
        }
        match self.shared_texture {
            Some(shared_texture) => {
                self.task = Task::Render(
                    Render {
                        step: RenderStep::WaitSemaphore,
                        semaphores: self.semaphores,
                        gl_texture: shared_texture.gl_texture,
                    },
                );
                Ok(())
            },
            None => Err(Fault::NoSharedTexture),
        }
    }

    /// The command to carry out next, if a task is under way.
    pub open spec fn spec_command(self) -> Option<Command> {
        match self.task {
            Task::Idle => None,
            Task::Resize(job) => job.spec_command(),
            Task::Render(job) => job.spec_command(),
        }
    }

    /// The command to carry out next, if a task is under way.
    pub fn command(&self) -> (command: Option<Command>)
        requires
            self.wf(),
        ensures
            command == self.spec_command(),
            command is None <==> self.task is Idle,
    {
        match &self.task {
            Task::Idle => None,
            Task::Resize(job) => job.command(),
            Task::Render(job) => job.command(),
        }
    }

    /// Why the task under way cannot go on with this reply, if it cannot.
    pub open spec fn fault(self, reply: Reply) -> Option<Fault> {
        match self.task {
            Task::Idle => Some(Fault::UnexpectedReply),
            Task::Resize(job) => job.fault(reply),
            Task::Render(job) => job.fault(reply),
        }
    }

    /// The state after the current command has given this reply. A resize leaves its
    /// texture behind once that has its view, and a configured surface at the end.
    pub open spec fn after(self, reply: Reply) -> State {
        match self.task {
            Task::Idle => self,
            Task::Resize(job) => State {
                shared_texture: if job.step is CreateTextureView {
                    Some(
                        SharedTexture {
                            gl_mem_object: job.gl_mem_object,
                            gl_texture: job.gl_texture,
                        },
                    )
                } else {
                    self.shared_texture
                },
                configured: job.step is ConfigureSurface || self.configured,
                task: if job.step is ConfigureSurface {
                    Task::Idle
                } else {
                    Task::Resize(job.after(reply))
                },
                ..self
            },
            Task::Render(job) => State {
                task: if job.step is Present {
                    Task::Idle
                } else {
                    Task::Render(job.after())
                },
                ..self
            },
        }
    }

    /// Takes the reply to the current command and moves on to the next.
    pub fn complete(&mut self, reply: &Reply) -> (result: Result<(), Fault>)
        requires
            old(self).wf(),
        ensures
            match old(self).fault(*reply) {
                Some(fault) => result == Err::<(), Fault>(fault) && *final(self) == *old(self),
                None => result is Ok && *final(self) == old(self).after(*reply),
            },
            final(self).wf(),
    {
        match self.task {
            Task::Idle => Err(Fault::UnexpectedReply),
            Task::Resize(job) => {
                let mut job = job;
                let has_view = match job.step {
                    ResizeStep::CreateTextureView => true,
                    _ => false,
                };
                match job.complete(reply) {
                    Ok(()) => {},
                    Err(fault) => {
                        return Err(fault);
                    },
                }
                if has_view {
                    self.shared_texture = Some(
                        SharedTexture {
                            gl_mem_object: job.gl_mem_object,
                            gl_texture: job.gl_texture,
                        },
                    );
                }
                match job.step {
                    ResizeStep::Finished => {
                        self.configured = true;
                        self.task = Task::Idle;
                    },
                    _ => {
                        self.task = Task::Resize(job);
                    },
                }
                Ok(())
            },
            Task::Render(job) => {
                let mut job = job;
                match job.complete(reply) {
                    Ok(()) => {},
                    Err(fault) => {
                        return Err(fault);
                    },
                }
                match job.step {
                    RenderStep::Finished => {
                        self.task = Task::Idle;
                    },
                    _ => {
                        self.task = Task::Render(job);
                    },
                }
                Ok(())
            },
        }
    }

    /// The state after a run of replies.
    pub open spec fn run(self, replies: Seq<Reply>) -> State
        decreases replies.len(),
    {
        if replies.len() == 0 {
            self
        } else {
            self.run(replies.drop_last()).after(replies.last())
        }
    }

    /// Whether the task under way can go on with each of a run of replies.
    pub open spec fn goes_through(self, replies: Seq<Reply>) -> bool
        decreases replies.len(),
    {
        replies.len() > 0 ==> {
            &&& self.goes_through(replies.drop_last())
            &&& self.run(replies.drop_last()).fault(replies.last()) is None
        }
    }

    /// The commands that a run of replies answers.
    pub open spec fn trace(self, replies: Seq<Reply>) -> Seq<Command>
        decreases replies.len(),
    {
        if replies.len() == 0 {
            Seq::empty()
        } else {
            self.trace(replies.drop_last()).push(
                self.run(replies.drop_last()).spec_command()->0,
            )
        }
    }

    /// A resize that has had all of its replies leaves the surface configured at the
    /// new size, with a new shared texture of the names that OpenGL gave.
    pub proof fn resize_ends_configured(
        self,
        new_size: (Option<u32>, Option<u32>),
        replies: Seq<Reply>,
    )
        requires
            self.wf(),
            self.task is Idle,
            self.resizing(new_size).goes_through(replies),
            replies.len() == ResizeStep::Finished.index()
                - self.resizing(new_size).task->Resize_0.step.index(),
        ensures
            ({
                let job = self.resizing(new_size).task->Resize_0.run(replies);
                self.resizing(new_size).run(replies) == State {
                    configured: true,
                    width: match new_size.0 {
                        Some(width) => width,
                        None => 256,
                    },
                    height: match new_size.1 {
                        Some(height) => height,
                        None => 256,
                    },
                    shared_texture: Some(
                        SharedTexture {
                            gl_mem_object: job.gl_mem_object,
                            gl_texture: job.gl_texture,
                        },
                    ),
                    ..self
                }
            }),
    {
        let start = self.resizing(new_size);
        let job = start.task->Resize_0;
        let rest = replies.drop_last();
        start.lemma_resize_run(job, rest);
        let last = job.run(rest);
        assert(last.step.index() == ResizeStep::ConfigureSurface.index());
        assert(job.run(replies) == last.after(replies.last()));
    }

    /// Until its last reply, a resize is what its job has made of the replies, and has
    /// set the shared texture once its view is there.
    proof fn lemma_resize_run(self, job: Resize, replies: Seq<Reply>)
        requires
            self.task == Task::Resize(job),
            job.wf(),
            self.goes_through(replies),
            job.step.index() + replies.len() < ResizeStep::Finished.index(),
        ensures
            job.goes_through(replies),
            job.run(replies).step.index() == job.step.index() + replies.len(),
            self.run(replies) == (State {
                shared_texture: if job.step.index() <= ResizeStep::CreateTextureView.index()
                    < job.run(replies).step.index() {
                    Some(
                        SharedTexture {
                            gl_mem_object: job.run(replies).gl_mem_object,
                            gl_texture: job.run(replies).gl_texture,
                        },
                    )
                } else {
                    self.shared_texture
                },
                task: Task::Resize(job.run(replies)),
                ..self
            }),
        decreases replies.len(),
    {
        if replies.len() > 0 {
            self.lemma_resize_run(job, replies.drop_last());
        }
    }

    /// A resize that has had all of its replies has carried out the commands of its
    /// script: all of them where it replaced a texture, and those from the creation of
    /// the image on where there was none yet.
    pub proof fn resize_carries_out_script(
        self,
        new_size: (Option<u32>, Option<u32>),
        replies: Seq<Reply>,
    )
        requires
            self.wf(),
            self.task is Idle,
            self.resizing(new_size).goes_through(replies),
            replies.len() == ResizeStep::Finished.index()
                - self.resizing(new_size).task->Resize_0.step.index(),
        ensures
            ({
                let script = self.resizing(new_size).task->Resize_0.run(replies).script();
                self.resizing(new_size).trace(replies) == if self.shared_texture is Some {
                    script
                } else {
                    script.skip(ResizeStep::CreateImage.index())
                }
            }),
    {
        let start = self.resizing(new_size);
        let job = start.task->Resize_0;
        start.lemma_resize_trace(job, replies);
        job.commands_follow_script(replies);
        assert(start.trace(replies) =~= job.run(replies).script().skip(job.step.index()));
        assert(job.run(replies).script().skip(0) =~= job.run(replies).script());
    }

    /// A resize carries out the commands of its job.
    proof fn lemma_resize_trace(self, job: Resize, replies: Seq<Reply>)
        requires
            self.task == Task::Resize(job),
            job.wf(),
            self.goes_through(replies),
            job.step.index() + replies.len() <= ResizeStep::Finished.index(),
        ensures
            job.goes_through(replies),
            self.trace(replies) == job.trace(replies),
        decreases replies.len(),
    {
        if replies.len() > 0 {
            self.lemma_resize_trace(job, replies.drop_last());
            self.lemma_resize_run(job, replies.drop_last());
        }
    }

    /// A frame that has had all of its replies leaves the state as it was.
    pub proof fn render_leaves_state_unchanged(self, replies: Seq<Reply>)
        requires
            self.wf(),
            self.task is Idle,
            self.shared_texture is Some,
            self.rendering().goes_through(replies),
            replies.len() == RenderStep::Finished.index(),
        ensures
            self.rendering().run(replies) == self,
    {
        let start = self.rendering();
        start.lemma_render_run(start.task->Render_0, replies.drop_last());
    }

    /// A frame that has had all of its replies has carried out the commands of its
    /// script, all of them and in order.
    pub proof fn frame_carries_out_script(self, replies: Seq<Reply>)
        requires
            self.wf(),
            self.task is Idle,
            self.shared_texture is Some,
            self.rendering().goes_through(replies),
            replies.len() == RenderStep::Finished.index(),
        ensures
            self.rendering().trace(replies) == self.rendering().task->Render_0.script(),
    {
        let start = self.rendering();
        let job = start.task->Render_0;
        start.lemma_render_trace(job, replies);
        job.commands_follow_script(replies);
        assert(start.trace(replies) =~= job.script());
    }

    /// A frame carries out the commands of its job.
    proof fn lemma_render_trace(self, job: Render, replies: Seq<Reply>)
        requires
            self.task == Task::Render(job),
            self.goes_through(replies),
            job.step.index() + replies.len() <= RenderStep::Finished.index(),
        ensures
            job.goes_through(replies),
            self.trace(replies) == job.trace(replies),
            job.run(replies).semaphores == job.semaphores,
            job.run(replies).gl_texture == job.gl_texture,
        decreases replies.len(),
    {
        if replies.len() > 0 {
            self.lemma_render_trace(job, replies.drop_last());
            self.lemma_render_run(job, replies.drop_last());
        }
    }

    /// Until its last reply, a frame is what its job has made of the replies.
    proof fn lemma_render_run(self, job: Render, replies: Seq<Reply>)
        requires
            self.task == Task::Render(job),
            self.goes_through(replies),
            job.step.index() + replies.len() < RenderStep::Finished.index(),
        ensures
            self.run(replies) == (State { task: Task::Render(job.run(replies)), ..self }),
            job.run(replies).step.index() == job.step.index() + replies.len(),
        decreases replies.len(),
    {
        if replies.len() > 0 {
            self.lemma_render_run(job, replies.drop_last());
        }
    }

    /// The demo starts with a surface of 256 by 256 that is not configured, without a shared
    /// texture, in the format and with the semaphores that the setup found.
    pub proof fn first_state_has_nothing_configured(
        format: wgpu::TextureFormat,
        semaphores: Semaphores,
    )
        ensures
            ({
                let state = State::initial(format, semaphores);
                &&& !state.configured && state.shared_texture is None && state.task is Idle
                &&& state.width == 256 && state.height == 256
                &&& state.format == format && state.semaphores == semaphores
            }),
    {
    }

    /// A resize takes over what is known of the size, each dimension for itself, and 256 for
    /// what is not; it is about the surface's format and the texture from before, and leaves
    /// the rest of the state alone. What it asks for first is to delete that texture, or to
    /// create the image if there was none.
    pub proof fn resize_takes_over_the_size(self, new_size: (Option<u32>, Option<u32>))
        ensures
            ({
                let after = self.resizing(new_size);
                let job = after.task->Resize_0;
                &&& after.task is Resize
                &&& new_size.0 matches Some(width) ==> after.width == width
                &&& new_size.0 is None ==> after.width == 256
                &&& new_size.1 matches Some(height) ==> after.height == height
                &&& new_size.1 is None ==> after.height == 256
                &&& job.width == after.width && job.height == after.height
                &&& job.surface_format == self.format && job.old == self.shared_texture
                &&& job.formats.texture is Rgba8UnormSrgb <==> texture_format_is_srgb(self.format)
                &&& job.formats.agree()
                &&& after.configured == self.configured && after.format == self.format
                &&& after.semaphores == self.semaphores && after.shared_texture is None
                &&& match self.shared_texture {
                    Some(texture) => after.spec_command() == Some(
                        Command::DeleteTexture { name: texture.gl_texture },
                    ),
                    None => after.spec_command() matches Some(Command::CreateImage(image))
                        && image.width == after.width && image.height == after.height,
                }
            }),
    {
    }

    /// A resize that has had all of its replies has the names that OpenGL gave: for the
    /// memory object that it asked for, and for the texture.
    pub proof fn resize_ends_with_the_new_names(
        self,
        new_size: (Option<u32>, Option<u32>),
        replies: Seq<Reply>,
    )
        requires
            self.wf(),
            self.task is Idle,
            self.resizing(new_size).goes_through(replies),
            replies.len() == ResizeStep::Finished.index()
                - self.resizing(new_size).task->Resize_0.step.index(),
        ensures
            ({
                let texture = self.resizing(new_size).run(replies).shared_texture;
                let start: int = if self.shared_texture is Some {
                    0
                } else {
                    3
                };
                &&& texture is Some
                &&& replies[9 - start] == Reply::Name(texture->0.gl_mem_object)
                &&& replies[12 - start] == Reply::Name(texture->0.gl_texture)
            }),
    {
        let start = self.resizing(new_size);
        let job = start.task->Resize_0;
        self.resize_ends_configured(new_size, replies);
        start.lemma_resize_trace(job, replies);
        job.names_are_those_that_opengl_gave(replies);
    }

    /// A frame is drawn to the shared texture, with the semaphores of the state, and leaves
    /// the rest of the state alone. What it asks for first is that OpenGL waits.
    pub proof fn frame_begins_with_the_wait(self)
        requires
            self.shared_texture is Some,
        ensures
            ({
                let after = self.rendering();
                let job = after.task->Render_0;
                &&& after.task is Render
                &&& job.gl_texture == self.shared_texture->0.gl_texture
                &&& job.semaphores == self.semaphores
                &&& (State { task: self.task, ..after }) == self
                &&& after.spec_command() matches Some(Command::WaitSemaphore { name, texture, .. })
                &&& name == self.semaphores.gl_vk_read_finished && texture == job.gl_texture
            }),
    {
    }

    /// Replies change no more of the state than they are about: the size, the format and the
    /// semaphores stay; a resize notes the new texture once that has its view, and that the
    /// surface is configured once it is; and a frame changes nothing but itself.
    pub proof fn replies_change_what_they_are_about(self, reply: Reply)
        requires
            self.fault(reply) is None,
        ensures
            ({
                let after = self.after(reply);
                let command = self.spec_command()->0;
                &&& after.width == self.width && after.height == self.height
                &&& after.format == self.format && after.semaphores == self.semaphores
                &&& after.configured == (self.configured || self.task is Resize && command
                    is ConfigureSurface)
                &&& after.shared_texture != self.shared_texture ==> self.task is Resize && command
                    is CreateTextureView
                &&& self.task is Resize && command is CreateTextureView ==> {
                    &&& after.shared_texture is Some
                    &&& after.shared_texture->0.gl_texture == self.task->Resize_0.gl_texture
                    &&& after.shared_texture->0.gl_mem_object == self.task->Resize_0.gl_mem_object
                }
                &&& after.task is Idle <==> command is ConfigureSurface || command is Present
            }),
    {
    }
}

} // verus!
