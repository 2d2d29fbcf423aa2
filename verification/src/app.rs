//! The application: what it does when the window system calls on it.
use vstd::prelude::*;

use crate::command::{Command, Fault, Reply};
use crate::egl::DisplayHandle;
use crate::gl;
use crate::gl_call::{CallAction, GlCall};
use crate::setup::Setup;
use crate::state::State;

verus! {

/// What the window system reports.
#[derive(Clone, Copy, Debug, PartialEq, Eq, Structural)]
pub enum Event {
    CloseRequested,
    Resized { width: u32, height: u32 },
    RedrawRequested,
    Other,
}

/// What an event asks for.
#[derive(Clone, Copy, Debug, PartialEq, Eq, Structural)]
pub enum Reaction {
    Ignore,
    /// Leave the event loop.
    Exit,
    /// Carry out the commands of the task that has begun, then ask for a redraw.
    WorkThenRedraw,
}

/// How far the application has come.
#[derive(Clone, Copy, Debug, PartialEq, Eq)]
pub enum Phase {
    /// There is no window yet.
    Suspended,
    /// The window is there, and its state is being set up.
    Starting(Setup),
    Running(State),
    /// The application has given up, and does nothing any more.
    Stopped(Fault),
}

/// The application.
#[derive(Clone, Copy, Debug, PartialEq, Eq)]
pub struct App {
    pub phase: Phase,
}

/// The title of the window.
pub const WINDOW_TITLE: &'static str = "Vulkan OpenGL Demo";

impl App {
    /// What has been set up, or is being set up, is well-formed.
    pub open spec fn wf(self) -> bool {
        match self.phase {
            Phase::Suspended => true,
            Phase::Starting(setup) => setup.wf() && setup.step !is Finished,
            Phase::Running(state) => state.wf(),
            Phase::Stopped(_) => true,
        }
    }

    /// The application before it has a window.
    pub open spec fn initial() -> App {
        App { phase: Phase::Suspended }
    }

    /// The application before it has a window.
    pub fn new() -> (app: App)
        ensures
            app == App::initial(),
            app.wf(),
    {
        App { phase: Phase::Suspended }
    }

    /// The application after a fault.
    pub open spec fn stopped(fault: Fault) -> App {
        App { phase: Phase::Stopped(fault) }
    }

    /// The application after it has been resumed: the first time, the setup begins.
    pub open spec fn after_resumed(self) -> App {
        match self.phase {
            Phase::Suspended => App { phase: Phase::Starting(Setup::initial()) },
            _ => self,
        }
    }

    /// Resumes the application. The first time it asks for a window with the title
    /// that is returned, and begins the setup; after that it does nothing.
    pub fn resumed(&mut self) -> (title: Option<&'static str>)
        requires
            old(self).wf(),
        ensures
            match old(self).phase {
                Phase::Suspended => title == Some(WINDOW_TITLE),
                _ => title is None,
            },
            *final(self) == old(self).after_resumed(),
            final(self).wf(),
    {
        match self.phase {
            Phase::Suspended => {
                self.phase = Phase::Starting(Setup::new());
                Some(WINDOW_TITLE)
            },
            _ => None,
        }
    }

    /// What an event asks for, or why it cannot be served. Nothing is asked for while
    /// there is no state.
    pub open spec fn reaction(self, event: Event) -> Result<Reaction, Fault> {
        match self.phase {
            Phase::Running(state) => match event {
                Event::CloseRequested => Ok(Reaction::Exit),
                Event::Resized { .. } => if state.task is Idle {
                    Ok(Reaction::WorkThenRedraw)
                } else {
                    Err(Fault::Busy)
                },
                Event::RedrawRequested => if state.task !is Idle {
                    Err(Fault::Busy)
                } else if state.shared_texture is None {
                    Err(Fault::NoSharedTexture)
                } else {
                    Ok(Reaction::WorkThenRedraw)
                },
                Event::Other => Ok(Reaction::Ignore),
            },
            _ => Ok(Reaction::Ignore),
        }
    }

    /// The application after an event: a new size begins a resize, and a redraw begins a
    /// frame. An event that cannot be served stops the application.
    pub open spec fn after_event(self, event: Event) -> App {
        match self.reaction(event) {
            Err(fault) => App::stopped(fault),
            Ok(_) => match self.phase {
                Phase::Running(state) => match event {
                    Event::Resized { width, height } => App {
                        phase: Phase::Running(state.resizing((Some(width), Some(height)))),
                    },
                    Event::RedrawRequested => App { phase: Phase::Running(state.rendering()) },
                    _ => self,
                },
                _ => self,
            },
        }
    }

    /// Takes an event of the window. One that cannot be served stops the application.
    pub fn window_event(&mut self, event: Event) -> (result: Result<Reaction, Fault>)
        requires
            old(self).wf(),
        ensures
            result == old(self).reaction(event),
            *final(self) == old(self).after_event(event),
            final(self).wf(),
    {
        match self.phase {
            Phase::Running(state) => {
                let mut state = state;
                match event {
                    Event::CloseRequested => Ok(Reaction::Exit),
                    Event::Resized { width, height } => {
                        match state.resize((Some(width), Some(height))) {
                            Ok(()) => {},
                            Err(fault) => {
                                self.phase = Phase::Stopped(fault);
                                return Err(fault);
                            },
                        }
                        self.phase = Phase::Running(state);
                        Ok(Reaction::WorkThenRedraw)
                    },
                    Event::RedrawRequested => {
                        match state.render() {
                            Ok(()) => {},
                            Err(fault) => {
                                self.phase = Phase::Stopped(fault);
                                return Err(fault);
                            },
                        }
                        self.phase = Phase::Running(state);
                        Ok(Reaction::WorkThenRedraw)
                    },
                    Event::Other => Ok(Reaction::Ignore),
                }
            },
            _ => Ok(Reaction::Ignore),
        }
    }

    /// The command to carry out next, if the setup or a task is under way.
    pub open spec fn spec_command(self) -> Option<Command> {
        match self.phase {
            Phase::Suspended => None,
            Phase::Starting(setup) => setup.spec_command(),
            Phase::Running(state) => state.spec_command(),
            Phase::Stopped(_) => None,
        }
    }

    /// Whether nothing is under way.
    pub open spec fn at_rest(self) -> bool {
        match self.phase {
            Phase::Suspended => true,
            Phase::Starting(_) => false,
            Phase::Running(state) => state.task is Idle,
            Phase::Stopped(_) => true,
        }
    }

    /// The command to carry out next, if the setup or a task is under way.
    pub fn command(&self) -> (command: Option<Command>)
        requires
            self.wf(),
        ensures
            command == self.spec_command(),
            command is None <==> self.at_rest(),
    {
        match &self.phase {
            Phase::Suspended => None,
            Phase::Starting(setup) => setup.command(),
            Phase::Running(state) => state.command(),
            Phase::Stopped(_) => None,
        }
    }

    /// Why the application cannot go on with this reply, if it cannot.
    pub open spec fn fault(self, reply: Reply) -> Option<Fault> {
        match self.phase {
            Phase::Suspended => Some(Fault::UnexpectedReply),
            Phase::Starting(setup) => setup.fault(reply),
            Phase::Running(state) => state.fault(reply),
            Phase::Stopped(fault) => Some(fault),
        }
    }

    /// The application after the current command has given a reply that it can go on
    /// with. The last command of the setup leaves the first state.
    pub open spec fn advanced(self, reply: Reply) -> App {
        match self.phase {
            Phase::Suspended => self,
            Phase::Starting(setup) => if setup.step is SubmitEmpty {
                App { phase: Phase::Running(State::initial(setup.format->0, setup.semaphores)) }
            } else {
                App { phase: Phase::Starting(setup.after(reply)) }
            },
            Phase::Running(state) => App { phase: Phase::Running(state.after(reply)) },
            Phase::Stopped(_) => self,
        }
    }

    /// The application after the current command has given this reply. A reply that it
    /// cannot go on with stops it.
    pub open spec fn after(self, reply: Reply) -> App {
        match self.fault(reply) {
            Some(fault) => App::stopped(fault),
            None => self.advanced(reply),
        }
    }

    /// Takes the reply to the current command and moves on to the next, or stops.
    pub fn complete(&mut self, reply: &Reply) -> (result: Result<(), Fault>)
        requires
            old(self).wf(),
        ensures
            match old(self).fault(*reply) {
                Some(fault) => result == Err::<(), Fault>(fault),
                None => result is Ok,
            },
            *final(self) == old(self).after(*reply),
            final(self).wf(),
    {
        match self.phase {
            Phase::Suspended => {
                self.phase = Phase::Stopped(Fault::UnexpectedReply);
                Err(Fault::UnexpectedReply)
            },
            Phase::Starting(setup) => {
                let mut setup = setup;
                match setup.complete(reply) {
                    Ok(()) => {},
                    Err(fault) => {
                        self.phase = Phase::Stopped(fault);
                        return Err(fault);
                    },
                }
                match setup.state() {
                    Some(state) => {
                        self.phase = Phase::Running(state);
                    },
                    None => {
                        self.phase = Phase::Starting(setup);
                    },
                }
                Ok(())
            },
            Phase::Running(state) => {
                let mut state = state;
                match state.complete(reply) {
                    Ok(()) => {},
                    Err(fault) => {
                        self.phase = Phase::Stopped(fault);
                        return Err(fault);
                    },
                }
                self.phase = Phase::Running(state);
                Ok(())
            },
            Phase::Stopped(fault) => Err(fault),
        }
    }

    /// Why the application cannot go on after an OpenGL call that gave this reply, if it
    /// cannot.
    pub open spec fn call_fault(self, call: GlCall, reply: Reply) -> Option<Fault> {
        match self.phase {
            Phase::Stopped(fault) => Some(fault),
            _ => match call.spec_action() {
                CallAction::Succeed => self.fault(reply),
                CallAction::Fail => Some(Fault::GlError),
                _ => Some(Fault::CallUnfinished),
            },
        }
    }

    /// The application after the OpenGL call of the current command, which gave this
    /// reply.
    pub open spec fn after_call(self, call: GlCall, reply: Reply) -> App {
        match self.call_fault(call, reply) {
            Some(fault) => App::stopped(fault),
            None => self.advanced(reply),
        }
    }

    /// Takes the OpenGL call of the current command at its end, and what it gave back. A
    /// call that raised an error has no reply, and stops the application.
    pub fn complete_call(&mut self, call: &GlCall, given: &Reply) -> (result: Result<(), Fault>)
        requires
            old(self).wf(),
        ensures
            match old(self).call_fault(*call, *given) {
                Some(fault) => result == Err::<(), Fault>(fault),
                None => result is Ok,
            },
            *final(self) == old(self).after_call(*call, *given),
            final(self).wf(),
    {
        match call.reply(given) {
            Some(reply) => self.complete(reply),
            None => {
                let fault = match self.phase {
                    Phase::Stopped(fault) => fault,
                    _ => match call.action() {
                        CallAction::Fail => Fault::GlError,
                        _ => Fault::CallUnfinished,
                    },
                };
                self.phase = Phase::Stopped(fault);
                Err(fault)
            },
        }
    }

    /// The demo is set up once: to be resumed again changes nothing, and asks for no
    /// window.
    pub proof fn resuming_again_changes_nothing(self)
        ensures
            self.after_resumed().after_resumed() == self.after_resumed(),
            self.after_resumed().phase !is Suspended,
    {
    }

    /// Before the state is there, and after a fault, every event is ignored.
    pub proof fn events_without_state_are_ignored(self, event: Event)
        requires
            self.phase !is Running,
        ensures
            self.reaction(event) == Ok::<Reaction, Fault>(Reaction::Ignore),
            self.after_event(event) == self,
    {
    }

    /// An application that has stopped hands out no command, asks for no window, ignores
    /// every event, and stays stopped whatever it is told.
    pub proof fn nothing_follows_a_fault(self, event: Event, call: GlCall, reply: Reply)
        requires
            self.phase is Stopped,
        ensures
            self.spec_command() is None,
            self.after_resumed() == self,
            self.reaction(event) == Ok::<Reaction, Fault>(Reaction::Ignore),
            self.after_event(event) == self,
            self.after(reply) == self,
            self.after_call(call, reply) == self,
    {
    }

    /// An OpenGL call whose error flag is checked stops the application exactly if the
    /// call raised an error, and no command is handed out after it. Errors from before
    /// the call do not matter, and a call without an error counts by its reply alone.
    pub proof fn raised_error_stops(self, before: Seq<u32>, raised: Seq<u32>, reply: Reply)
        requires
            self.phase !is Stopped,
            forall|i: int| 0 <= i < before.len() ==> before[i] != gl::NO_ERROR,
            forall|i: int| 0 <= i < raised.len() ==> raised[i] != gl::NO_ERROR,
        ensures
            ({
                let after = self.after_call(GlCall::checked_through(before, raised), reply);
                if raised.len() > 0 {
                    after == App::stopped(Fault::GlError) && after.spec_command() is None
                } else {
                    after == self.after(reply)
                }
            }),
    {
        GlCall::checked_call_reports_own_errors(before, raised);
    }

    /// Nothing is drawn before the window has had a size: a redraw that comes earlier
    /// stops the application.
    pub proof fn redraw_needs_a_size(self)
        requires
            self.wf(),
            self.at_rest(),
            self.phase is Running,
        ensures
            self.reaction(Event::RedrawRequested) == if self.phase->Running_0.configured {
                Ok::<Reaction, Fault>(Reaction::WorkThenRedraw)
            } else {
                Err(Fault::NoSharedTexture)
            },
            !self.phase->Running_0.configured ==> self.after_event(Event::RedrawRequested)
                == App::stopped(Fault::NoSharedTexture),
    {
    }

    /// An event begins work exactly if a redraw is to follow that work, so that frames
    /// keep coming once one has been drawn.
    pub proof fn work_is_followed_by_redraw(self, event: Event)
        requires
            self.wf(),
            self.at_rest(),
            self.reaction(event) is Ok,
        ensures
            self.reaction(event) == Ok::<Reaction, Fault>(Reaction::WorkThenRedraw)
                <==> !self.after_event(event).at_rest(),
    {
    }

    /// The window can always be closed: in every running state, whatever is configured and
    /// under way, a request to close leaves the event loop and the application as it was.
    /// No other event leaves the event loop, and nothing does while there is no state.
    pub proof fn only_closing_exits(self, event: Event)
        ensures
            self.phase is Running ==> self.reaction(Event::CloseRequested) == Ok::<
                Reaction,
                Fault,
            >(Reaction::Exit) && self.after_event(Event::CloseRequested) == self,
            self.reaction(event) == Ok::<Reaction, Fault>(Reaction::Exit) <==> self.phase
                is Running && event is CloseRequested,
    {
    }

    /// A window that is given a size, whatever it is, has it taken up whenever nothing is
    /// under way: the running state gets that width and that height, keeps its format and
    /// semaphores, and has work to do, after which a redraw is asked for.
    pub proof fn new_size_is_taken_up(self, width: u32, height: u32)
        requires
            self.phase is Running,
            self.at_rest(),
        ensures
            ({
                let event = Event::Resized { width, height };
                let before = self.phase->Running_0;
                let after = self.after_event(event);
                let state = after.phase->Running_0;
                &&& self.reaction(event) == Ok::<Reaction, Fault>(Reaction::WorkThenRedraw)
                &&& after.phase is Running && after.spec_command() is Some
                &&& state.width == width && state.height == height
                &&& state.format == before.format && state.semaphores == before.semaphores
                &&& state.configured == before.configured
            }),
    {
    }

    /// A redraw of a window that has a size begins a frame, which OpenGL's wait comes first
    /// in, whenever nothing is under way; all else stays as it is.
    pub proof fn redraw_begins_a_frame(self)
        requires
            self.phase is Running,
            self.at_rest(),
            self.phase->Running_0.shared_texture is Some,
        ensures
            ({
                let before = self.phase->Running_0;
                let after = self.after_event(Event::RedrawRequested);
                &&& self.reaction(Event::RedrawRequested) == Ok::<Reaction, Fault>(
                    Reaction::WorkThenRedraw,
                )
                &&& after.phase is Running
                &&& (State { task: before.task, ..after.phase->Running_0 }) == before
                &&& after.spec_command() matches Some(Command::WaitSemaphore { name, texture, .. })
                &&& name == before.semaphores.gl_vk_read_finished
                &&& texture == before.shared_texture->0.gl_texture
            }),
    {
    }

    /// Other events change nothing, and nothing is begun while something is under way.
    pub proof fn other_events_change_nothing(self, event: Event)
        requires
            self.phase is Running,
        ensures
            event is Other ==> self.reaction(event) == Ok::<Reaction, Fault>(Reaction::Ignore)
                && self.after_event(event) == self,
            !self.at_rest() && (event is Resized || event is RedrawRequested) ==> self.reaction(
                event,
            ) == Err::<Reaction, Fault>(Fault::Busy) && self.after_event(event).spec_command()
                is None,
    {
    }

    /// To be resumed for the first time begins the setup, with its first command, and from
    /// nothing that an earlier one could have left.
    pub proof fn first_resuming_begins_the_setup(self)
        requires
            self.phase is Suspended,
        ensures
            self.after_resumed().phase is Starting,
            self.after_resumed().spec_command() matches Some(Command::CreateInstance { .. }),
            self.after_resumed().phase->Starting_0.format is None,
    {
    }

    /// The setup ends in a running state with the format and the semaphores that it found,
    /// at 256 by 256 and with nothing configured, and no earlier than with its last command.
    pub proof fn setup_ends_in_the_first_state(self, reply: Reply)
        requires
            self.wf(),
            self.phase is Starting,
            self.fault(reply) is None,
        ensures
            ({
                let setup = self.phase->Starting_0;
                let after = self.after(reply);
                &&& after.phase is Running <==> setup.step is SubmitEmpty
                &&& after.phase matches Phase::Running(state) ==> {
                    &&& setup.format == Some(state.format)
                    &&& state.semaphores == setup.semaphores
                    &&& state.width == 256 && state.height == 256
                    &&& !state.configured && state.shared_texture is None && state.task is Idle
                }
            }),
    {
    }

    /// Each fault comes exactly when it is due: the reply is not of the kind that the command
    /// gives; the surface supports no format; the window has no display that EGL can be
    /// opened on; no memory type fits; the size is beyond OpenGL's integers; or the surface
    /// gave anything but a good frame. Every other reply is gone on with.
    pub proof fn fault_tells_what_is_wrong(self, reply: Reply)
        requires
            self.wf(),
            self.spec_command() is Some,
        ensures
            ({
                let command = self.spec_command()->0;
                let fault = self.fault(reply);
                let display = self.phase->Starting_0.display;
                let width = self.phase->Running_0.width;
                let height = self.phase->Running_0.height;
                &&& fault == Some(Fault::UnexpectedReply) <==> !command.answered_by(reply)
                &&& fault == Some(Fault::NoSurfaceFormat) <==> {
                    command is QueryFormats && reply is Formats && reply->Formats_0@.len() == 0
                }
                &&& fault == Some(Fault::MissingDisplay) <==> {
                    command is CreatePipeline && reply is Done && display
                        == DisplayHandle::Xlib(None)
                }
                &&& fault == Some(Fault::UnsupportedDisplay) <==> {
                    command is CreatePipeline && reply is Done && display is Other
                }
                &&& fault == Some(Fault::NoMemoryType) <==> {
                    command is QueryMemoryProperties && reply is Properties && forall|index: u32|
                        !#[trigger] reply->Properties_0.suitable(
                            self.phase->Running_0.task->Resize_0.requirements.memory_type_bits,
                            index,
                        )
                }
                &&& fault == Some(Fault::SizeOutOfRange) <==> {
                    command is TexParameter && reply is Done && (width > 0x7FFF_FFFF || height
                        > 0x7FFF_FFFF)
                }
                &&& fault matches Some(Fault::FrameUnavailable(status)) ==> {
                    command is AcquireFrame && reply == Reply::Frame(status) && status !is Success
                }
                &&& command is AcquireFrame && reply is Frame && reply->Frame_0 !is Success
                    ==> fault == Some(Fault::FrameUnavailable(reply->Frame_0))
                &&& fault matches Some(why) ==> why !is Busy && why !is NoSharedTexture && why
                    !is GlError && why !is CallUnfinished
            }),
    {
    }

    /// Every fault stops the application with that very fault, and no command is handed out
    /// after it: a reply that it cannot go on with, an event that it cannot serve, and an
    /// OpenGL call that failed or has not come to its end.
    pub proof fn every_fault_stops(self, event: Event, call: GlCall, reply: Reply)
        requires
            self.phase !is Stopped,
        ensures
            self.fault(reply) matches Some(fault) ==> {
                self.after(reply).phase == Phase::Stopped(fault) && self.after(
                    reply,
                ).spec_command() is None
            },
            self.reaction(event) matches Err(fault) ==> {
                self.after_event(event).phase == Phase::Stopped(fault) && self.after_event(
                    event,
                ).spec_command() is None
            },
            call.spec_action() is Fail ==> self.after_call(call, reply).phase == Phase::Stopped(
                Fault::GlError,
            ),
            call.spec_action() is ReadError || call.spec_action() is Invoke ==> self.after_call(
                call,
                reply,
            ).phase == Phase::Stopped(Fault::CallUnfinished),
            call.spec_action() is Succeed ==> self.after_call(call, reply) == self.after(reply),
    {
    }

    /// An application that was at work and gets a reply that it can go on with is not stopped
    /// by it, nor thrown back to before it was set up.
    pub proof fn good_replies_do_not_stop(self, reply: Reply)
        requires
            self.wf(),
            self.fault(reply) is None,
        ensures
            self.after(reply).phase !is Stopped,
            self.after(reply).phase !is Suspended,
            self.after(reply).wf(),
            self.phase is Running ==> self.after(reply).phase is Running,
    {
    }
}

} // verus!
