//! Drawing one frame: OpenGL draws the scene into the shared texture, and Vulkan
//! draws that texture to the window.
use vstd::prelude::*;

use crate::command::{lemma_one_more_command, Color, Command, Fault, FrameStatus, Reply};
use crate::gl;
use crate::pipeline::{frame_pass, spec_frame_pass};
use crate::vk;

verus! {

/// The semaphores by which OpenGL and Vulkan take turns with the shared texture.
/// Each is known to Vulkan by its handle and to OpenGL by the name that it was
/// imported under.
#[derive(Clone, Copy, Debug, PartialEq, Eq, Structural)]
pub struct Semaphores {
    /// OpenGL is finished writing.
    pub gl_write_finished: u64,
    /// OpenGL's name for `gl_write_finished`.
    pub gl_gl_write_finished: u32,
    /// Vulkan is finished reading.
    pub vk_read_finished: u64,
    /// OpenGL's name for `vk_read_finished`.
    pub gl_vk_read_finished: u32,
}

/// A vertex of the scene: its color in tenths of full intensity, and its position
/// in normalized device coordinates.
#[derive(Clone, Copy, Debug, PartialEq, Eq, Structural)]
pub struct Vertex {
    pub red: u8,
    pub green: u8,
    pub blue: u8,
    pub x: i8,
    pub y: i8,
}

/// The scene: one triangle, red at the top, green at the lower left and blue at the
/// lower right.
pub open spec fn spec_scene() -> [Vertex; 3] {
    [
        Vertex { red: 10, green: 0, blue: 0, x: 0, y: 1 },
        Vertex { red: 0, green: 10, blue: 0, x: -1i8, y: -1i8 },
        Vertex { red: 0, green: 0, blue: 10, x: 1, y: -1i8 },
    ]
}

/// The scene: one triangle, red at the top, green at the lower left and blue at the
/// lower right.
pub fn scene() -> (vertices: [Vertex; 3])
    ensures
        vertices == spec_scene(),
{
    [
        Vertex { red: 10, green: 0, blue: 0, x: 0, y: 1 },
        Vertex { red: 0, green: 10, blue: 0, x: -1, y: -1 },
        Vertex { red: 0, green: 0, blue: 10, x: 1, y: -1 },
    ]
}

/// The color behind the scene: opaque black.
pub open spec fn spec_background() -> Color {
    Color { red: 0, green: 0, blue: 0, alpha: 10 }
}

/// The color behind the scene: opaque black.
pub fn background() -> (color: Color)
    ensures
        color == spec_background(),
{
    Color { red: 0, green: 0, blue: 0, alpha: 10 }
}

/// What the demo ends with when the surface has given no frame to draw to.
pub fn frame_message(status: FrameStatus) -> (message: String)
    ensures
        message@ == "unable to get frame: "@ + status.spec_name(),
{
    let mut message = "unable to get frame: ".to_owned();
    message.append(status.name());
    message
}

/// The commands of a frame, in order.
#[derive(Clone, Copy, Debug, PartialEq, Eq, Structural)]
pub enum RenderStep {
    WaitSemaphore,
    ClearColor,
    Clear,
    DrawScene,
    Flush,
    SignalSemaphore,
    AcquireFrame,
    CreateFrameView,
    AddWait,
    EncodePass,
    AddSignal,
    SubmitFrame,
    Present,
    Finished,
}

impl RenderStep {
    /// The position of the step's command in the order of a frame.
    pub open spec fn index(self) -> int {
        match self {
            RenderStep::WaitSemaphore => 0,
            RenderStep::ClearColor => 1,
            RenderStep::Clear => 2,
            RenderStep::DrawScene => 3,
            RenderStep::Flush => 4,
            RenderStep::SignalSemaphore => 5,
            RenderStep::AcquireFrame => 6,
            RenderStep::CreateFrameView => 7,
            RenderStep::AddWait => 8,
            RenderStep::EncodePass => 9,
            RenderStep::AddSignal => 10,
            RenderStep::SubmitFrame => 11,
            RenderStep::Present => 12,
            RenderStep::Finished => 13,
        }
    }

    /// The step after this one.
    pub open spec fn spec_next(self) -> RenderStep {
        match self {
            RenderStep::WaitSemaphore => RenderStep::ClearColor,
            RenderStep::ClearColor => RenderStep::Clear,
            RenderStep::Clear => RenderStep::DrawScene,
            RenderStep::DrawScene => RenderStep::Flush,
            RenderStep::Flush => RenderStep::SignalSemaphore,
            RenderStep::SignalSemaphore => RenderStep::AcquireFrame,
            RenderStep::AcquireFrame => RenderStep::CreateFrameView,
            RenderStep::CreateFrameView => RenderStep::AddWait,
            RenderStep::AddWait => RenderStep::EncodePass,
            RenderStep::EncodePass => RenderStep::AddSignal,
            RenderStep::AddSignal => RenderStep::SubmitFrame,
            RenderStep::SubmitFrame => RenderStep::Present,
            RenderStep::Present => RenderStep::Finished,
            RenderStep::Finished => RenderStep::Finished,
        }
    }

    /// The step after this one.
    pub fn next(&self) -> (next: RenderStep)
        ensures
            next == self.spec_next(),
            *self !is Finished ==> next.index() == self.index() + 1,
    {
        match *self {
            RenderStep::WaitSemaphore => RenderStep::ClearColor,
            RenderStep::ClearColor => RenderStep::Clear,
            RenderStep::Clear => RenderStep::DrawScene,
            RenderStep::DrawScene => RenderStep::Flush,
            RenderStep::Flush => RenderStep::SignalSemaphore,
            RenderStep::SignalSemaphore => RenderStep::AcquireFrame,
            RenderStep::AcquireFrame => RenderStep::CreateFrameView,
            RenderStep::CreateFrameView => RenderStep::AddWait,
            RenderStep::AddWait => RenderStep::EncodePass,
            RenderStep::EncodePass => RenderStep::AddSignal,
            RenderStep::AddSignal => RenderStep::SubmitFrame,
            RenderStep::SubmitFrame => RenderStep::Present,
            RenderStep::Present => RenderStep::Finished,
            RenderStep::Finished => RenderStep::Finished,
        }
    }
}

/// A frame under way.
#[derive(Clone, Copy, Debug, PartialEq, Eq, Structural)]
pub struct Render {
    pub step: RenderStep,
    pub semaphores: Semaphores,
    /// The texture that OpenGL draws to.
    pub gl_texture: u32,
}

impl Render {
    /// The commands of a frame: OpenGL waits until Vulkan has finished reading the
    /// texture, draws the scene, and signals that it has finished writing; Vulkan
    /// waits for that, draws the texture to the frame, and signals that it has
    /// finished reading.
    pub open spec fn script(self) -> Seq<Command> {
        seq![
            Command::WaitSemaphore {
                name: self.semaphores.gl_vk_read_finished,
                texture: self.gl_texture,
                layout: gl::LAYOUT_GENERAL_EXT,
            },
            Command::ClearColor(spec_background()),
            Command::Clear { mask: gl::COLOR_BUFFER_BIT },
            Command::DrawScene { mode: gl::TRIANGLES, vertices: spec_scene() },
            Command::Flush,
            Command::SignalSemaphore {
                name: self.semaphores.gl_gl_write_finished,
                texture: self.gl_texture,
                layout: gl::LAYOUT_COLOR_ATTACHMENT_EXT,
            },
            Command::AcquireFrame,
            Command::CreateFrameView,
            Command::AddWait {
                semaphore: self.semaphores.gl_write_finished,
                stages: vk::PIPELINE_STAGE_FRAGMENT_SHADER,
            },
            Command::EncodePass(spec_frame_pass()),
            Command::AddSignal { semaphore: self.semaphores.vk_read_finished },
            Command::SubmitFrame,
            Command::Present,
        ]
    }

    /// The command to carry out next, if any is left.
    pub open spec fn spec_command(self) -> Option<Command> {
        if self.step is Finished {
            None
        } else {
            Some(self.script()[self.step.index()])
        }
    }

    /// The command to carry out next, if any is left.
    pub fn command(&self) -> (command: Option<Command>)
        ensures
            command == self.spec_command(),
    {
        match self.step {
            RenderStep::WaitSemaphore => Some(
                Command::WaitSemaphore {
                    name: self.semaphores.gl_vk_read_finished,
                    texture: self.gl_texture,
                    layout: gl::LAYOUT_GENERAL_EXT,
                },
            ),
            RenderStep::ClearColor => Some(Command::ClearColor(background())),
            RenderStep::Clear => Some(Command::Clear { mask: gl::COLOR_BUFFER_BIT }),
            RenderStep::DrawScene => Some(
                Command::DrawScene { mode: gl::TRIANGLES, vertices: scene() },
            ),
            RenderStep::Flush => Some(Command::Flush),
            RenderStep::SignalSemaphore => Some(
                Command::SignalSemaphore {
                    name: self.semaphores.gl_gl_write_finished,
                    texture: self.gl_texture,
                    layout: gl::LAYOUT_COLOR_ATTACHMENT_EXT,
                },
            ),
            RenderStep::AcquireFrame => Some(Command::AcquireFrame),
            RenderStep::CreateFrameView => Some(Command::CreateFrameView),
            RenderStep::AddWait => Some(
                Command::AddWait {
                    semaphore: self.semaphores.gl_write_finished,
                    stages: vk::PIPELINE_STAGE_FRAGMENT_SHADER,
                },
            ),
            RenderStep::EncodePass => Some(Command::EncodePass(frame_pass())),
            RenderStep::AddSignal => Some(
                Command::AddSignal { semaphore: self.semaphores.vk_read_finished },
            ),
            RenderStep::SubmitFrame => Some(Command::SubmitFrame),
            RenderStep::Present => Some(Command::Present),
            RenderStep::Finished => None,
        }
    }

    /// Why the frame cannot go on with this reply, if it cannot.
    pub open spec fn fault(self, reply: Reply) -> Option<Fault> {
        match self.step {
            RenderStep::Finished => Some(Fault::UnexpectedReply),
            RenderStep::AcquireFrame => match reply {
                Reply::Frame(FrameStatus::Success) => None,
                Reply::Frame(status) => Some(Fault::FrameUnavailable(status)),
                _ => Some(Fault::UnexpectedReply),
            },
            _ => if reply is Done {
                None
            } else {
                Some(Fault::UnexpectedReply)
            },
        }
    }

    /// The frame with the next step reached.
    pub open spec fn after(self) -> Render {
        Render { step: self.step.spec_next(), ..self }
    }

    /// Takes the reply to the current command and moves on to the next.
    pub fn complete(&mut self, reply: &Reply) -> (result: Result<(), Fault>)
        ensures
            match old(self).fault(*reply) {
                Some(fault) => result == Err::<(), Fault>(fault) && *final(self) == *old(self),
                None => result is Ok && *final(self) == old(self).after(),
            },
    {
        match self.step {
            RenderStep::Finished => {
                return Err(Fault::UnexpectedReply);
            },
            RenderStep::AcquireFrame => match *reply {
                Reply::Frame(status) => match status {
                    FrameStatus::Success => {},
                    _ => {
                        return Err(Fault::FrameUnavailable(status));
                    },
                },
                _ => {
                    return Err(Fault::UnexpectedReply);
                },
            },
            _ => match *reply {
                Reply::Done => {},
                _ => {
                    return Err(Fault::UnexpectedReply);
                },
            },
        }
        self.step = self.step.next();
        Ok(())
    }

    /// The frame after a run of replies.
    pub open spec fn run(self, replies: Seq<Reply>) -> Render
        decreases replies.len(),
    {
        if replies.len() == 0 {
            self
        } else {
            self.run(replies.drop_last()).after()
        }
    }

    /// Whether the frame can go on with each of a run of replies.
    pub open spec fn goes_through(self, replies: Seq<Reply>) -> bool
        decreases replies.len(),
    {
        replies.len() > 0 ==> {
            &&& self.goes_through(replies.drop_last())
            &&& self.run(replies.drop_last()).fault(replies.last()) is None
        }
    }

    /// The commands that a run of replies answers.
    pub open spec fn trace(self, replies: Seq<Reply>) -> Seq<Command>
        decreases replies.len(),
    {
        if replies.len() == 0 {
            Seq::empty()
        } else {
            self.trace(replies.drop_last()).push(
                self.run(replies.drop_last()).spec_command()->0,
            )
        }
    }

    /// A frame carries out the commands of its script, in order and without leaving any
    /// out.
    pub proof fn commands_follow_script(self, replies: Seq<Reply>)
        requires
            self.goes_through(replies),
        ensures
            self.run(replies).step.index() == self.step.index() + replies.len(),
            self.trace(replies) == self.run(replies).script().subrange(
                self.step.index(),
                self.run(replies).step.index(),
            ),
        decreases replies.len(),
    {
        if replies.len() == 0 {
            assert(self.trace(replies) =~= self.script().subrange(
                self.step.index(),
                self.step.index(),
            ));
        } else {
            let before = self.run(replies.drop_last());
            let after = self.run(replies);
            self.commands_follow_script(replies.drop_last());
            before.lemma_script_is_stable(replies.last());
            lemma_one_more_command(
                before.script(),
                after.script(),
                self.step.index(),
                before.step.index(),
            );
        }
    }

    /// A reply changes no command up to the one that it answers.
    proof fn lemma_script_is_stable(self, reply: Reply)
        requires
            self.fault(reply) is None,
        ensures
            self.step.index() < self.script().len(),
            self.script().len() == self.after().script().len(),
            forall|k: int|
                0 <= k <= self.step.index() ==> self.after().script()[k]
                    == #[trigger] self.script()[k],
    {
    }

    /// Whatever the texture and the semaphores, a frame draws one filled triangle, red at
    /// the top, green at the lower left and blue at the lower right, over opaque black.
    pub proof fn every_frame_draws_the_triangle(self)
        ensures
            self.step is ClearColor ==> self.spec_command() == Some(
                Command::ClearColor(Color { red: 0, green: 0, blue: 0, alpha: 10 }),
            ),
            self.step is Clear ==> self.spec_command() == Some(Command::Clear { mask: 0x4000 }),
            self.step is DrawScene ==> {
                &&& self.spec_command() matches Some(Command::DrawScene { mode, vertices })
                &&& mode == 0x0004
                &&& vertices@ == seq![
                    Vertex { red: 10, green: 0, blue: 0, x: 0, y: 1 },
                    Vertex { red: 0, green: 10, blue: 0, x: -1i8, y: -1i8 },
                    Vertex { red: 0, green: 0, blue: 10, x: 1, y: -1i8 },
                ]
            },
    {
    }

    /// OpenGL is handed the texture that it draws to, and gives up that same texture: it
    /// waits for Vulkan to have finished reading and signals that it has finished writing,
    /// and Vulkan, at the stage that samples the texture, the other way round.
    pub proof fn sides_take_turns_with_one_texture(self)
        ensures
            self.step is WaitSemaphore ==> {
                &&& self.spec_command() matches Some(
                    Command::WaitSemaphore { name, texture, layout },
                )
                &&& name == self.semaphores.gl_vk_read_finished
                &&& texture == self.gl_texture
                &&& layout == 0x958D
            },
            self.step is SignalSemaphore ==> {
                &&& self.spec_command() matches Some(
                    Command::SignalSemaphore { name, texture, layout },
                )
                &&& name == self.semaphores.gl_gl_write_finished
                &&& texture == self.gl_texture
                &&& layout == 0x958E
            },
            self.step is AddWait ==> {
                &&& self.spec_command() matches Some(Command::AddWait { semaphore, stages })
                &&& semaphore == self.semaphores.gl_write_finished
                &&& stages == 0x80
            },
            self.step is AddSignal ==> {
                &&& self.spec_command() matches Some(Command::AddSignal { semaphore })
                &&& semaphore == self.semaphores.vk_read_finished
            },
    {
    }

    /// Two frames carry out the same commands but for the names of the texture and the
    /// semaphores, in the commands that name them.
    pub proof fn frames_differ_by_names_alone(self, other: Render)
        requires
            self.step == other.step,
        ensures
            self.step is WaitSemaphore || self.step is SignalSemaphore || self.step is AddWait
                || self.step is AddSignal || self.spec_command() == other.spec_command(),
    {
    }
}

} // verus!
