//! The dispatch loop as a state machine.
//!
//! The machine never touches a pipe. It says what to do next (write a
//! command, wait for a reply, leave), is told what came of it, and answers
//! with the line to print. Whoever owns the pipes runs the loop.

use crate::report::{
    report_reply, report_timeout, report_write_failure, reply_line, timeout_line,
    write_failure_line, Line, LineView,
};
use crate::reply::{classify_line, Verdict};
use vstd::prelude::*;
use vstd::string::*;

verus! {

/// How long a reply is waited for, in milliseconds.
pub const REPLY_TIMEOUT_MS: u64 = 5000;

/// Where the machine stands.
#[derive(Clone, Copy, Debug, PartialEq, Eq, Hash, Structural)]
pub enum Phase {
    /// The return pipe is about to be opened; nothing was sent yet.
    Connecting,
    /// The return pipe could not be opened; nothing was or will be sent.
    SetupFailed,
    /// The current command is about to be written.
    Sending,
    /// The current command was written and its reply is awaited.
    Awaiting,
    /// Every command was dealt with.
    Finished,
    /// A reply did not come in time; the rest of the batch is abandoned.
    TimedOut,
}

/// What came of the last action.
#[derive(Clone, Debug, PartialEq, Eq, Hash)]
pub enum Event {
    /// The return pipe is open and listened to.
    Connected,
    /// The return pipe could not be opened.
    ConnectFailed,
    /// The command was written to the command pipe.
    Written,
    /// The command could not be written; the text is that of the I/O error.
    WriteFailed(String),
    /// A reply line arrived.
    Reply(String),
    /// The timeout ran out before a reply arrived. A return pipe that was
    /// closed has no reply to give, so it ends in this event as well.
    TimedOut,
}

/// Mathematical value of an [`Event`].
pub enum EventView {
    Connected,
    ConnectFailed,
    Written,
    WriteFailed(Seq<char>),
    Reply(Seq<char>),
    TimedOut,
}

impl View for Event {
    type V = EventView;

    open spec fn view(&self) -> EventView {
        match self {
            Event::Connected => EventView::Connected,
            Event::ConnectFailed => EventView::ConnectFailed,
            Event::Written => EventView::Written,
            Event::WriteFailed(cause) => EventView::WriteFailed(cause@),
            Event::Reply(line) => EventView::Reply(line@),
            Event::TimedOut => EventView::TimedOut,
        }
    }
}

/// What the owner of the pipes is to do next.
#[derive(Clone, Debug, PartialEq, Eq, Hash)]
pub enum Action {
    /// Open the return pipe and start to listen to it.
    Connect,
    /// Write this command, as one line, to the command pipe.
    Send(String),
    /// Wait for the next reply line, for at most this many milliseconds.
    Await(u64),
    /// Leave with this exit code.
    Exit(i32),
}

/// Mathematical value of an [`Action`].
pub enum ActionView {
    Connect,
    Send(Seq<char>),
    Await(u64),
    Exit(i32),
}

impl View for Action {
    type V = ActionView;

    open spec fn view(&self) -> ActionView {
        match self {
            Action::Connect => ActionView::Connect,
            Action::Send(command) => ActionView::Send(command@),
            Action::Await(millis) => ActionView::Await(*millis),
            Action::Exit(code) => ActionView::Exit(*code),
        }
    }
}

/// The texts of a sequence of strings.
pub open spec fn texts(strings: Seq<String>) -> Seq<Seq<char>> {
    Seq::new(strings.len(), |i: int| strings[i]@)
}

/// The state of one batch: the commands, how many of them are dealt with,
/// the phase, and whether anything has failed so far.
pub struct Session {
    pub commands: Seq<Seq<char>>,
    pub position: nat,
    pub phase: Phase,
    pub failed: bool,
}

impl Session {
    /// The states a batch can be in.
    pub open spec fn wf(self) -> bool {
        &&& self.position <= self.commands.len()
        &&& (self.phase == Phase::Sending || self.phase == Phase::Awaiting || self.phase
            == Phase::TimedOut) ==> self.position < self.commands.len()
        &&& self.phase == Phase::Finished ==> self.position == self.commands.len()
        &&& (self.phase == Phase::TimedOut || self.phase == Phase::SetupFailed) ==> self.failed
        &&& (self.phase == Phase::Connecting || self.phase == Phase::SetupFailed) ==> {
            &&& self.position == 0
            &&& self.commands.len() > 0
        }
    }

    /// The state before anything was done. An empty batch is finished at
    /// once and never opens the return pipe; any other begins by opening it.
    pub open spec fn start(commands: Seq<Seq<char>>) -> Session {
        Session {
            commands,
            position: 0,
            phase: if commands.len() == 0 {
                Phase::Finished
            } else {
                Phase::Connecting
            },
            failed: false,
        }
    }

    /// The state once the current command is dealt with; `failure` tells
    /// whether it failed.
    pub open spec fn advance(self, failure: bool) -> Session {
        Session {
            commands: self.commands,
            position: self.position + 1,
            phase: if self.position + 1 < self.commands.len() {
                Phase::Sending
            } else {
                Phase::Finished
            },
            failed: self.failed || failure,
        }
    }

    /// The event is one that the current phase waits for.
    pub open spec fn expects(self, event: EventView) -> bool {
        match (self.phase, event) {
            (Phase::Connecting, EventView::Connected) => true,
            (Phase::Connecting, EventView::ConnectFailed) => true,
            (Phase::Sending, EventView::Written) => true,
            (Phase::Sending, EventView::WriteFailed(_)) => true,
            (Phase::Awaiting, EventView::Reply(_)) => true,
            (Phase::Awaiting, EventView::TimedOut) => true,
            _ => false,
        }
    }

    /// The state after `event`. An event that the phase does not wait for
    /// changes nothing.
    pub open spec fn step(self, event: EventView) -> Session {
        match (self.phase, event) {
            (Phase::Connecting, EventView::Connected) => Session { phase: Phase::Sending, ..self },
            (Phase::Connecting, EventView::ConnectFailed) => Session {
                phase: Phase::SetupFailed,
                failed: true,
                ..self
            },
            (Phase::Sending, EventView::Written) => Session { phase: Phase::Awaiting, ..self },
            (Phase::Sending, EventView::WriteFailed(_)) => self.advance(true),
            (Phase::Awaiting, EventView::Reply(line)) => self.advance(
                classify_line(line).verdict == Verdict::Failure,
            ),
            (Phase::Awaiting, EventView::TimedOut) => Session {
                phase: Phase::TimedOut,
                failed: true,
                ..self
            },
            _ => self,
        }
    }

    /// The line that `event` makes the client print, if any.
    pub open spec fn emits(self, event: EventView) -> Option<LineView> {
        match (self.phase, event) {
            (Phase::Sending, EventView::WriteFailed(cause)) => Some(write_failure_line(cause)),
            (Phase::Awaiting, EventView::Reply(line)) => Some(
                reply_line(self.commands[self.position as int], line),
            ),
            (Phase::Awaiting, EventView::TimedOut) => Some(timeout_line()),
            _ => None,
        }
    }

    /// The exit code that the batch ends with: 0 while nothing has failed,
    /// 1 otherwise.
    pub open spec fn exit_code(self) -> i32 {
        if self.failed {
            1
        } else {
            0
        }
    }

    /// What is to be done in this state.
    pub open spec fn action(self) -> ActionView {
        match self.phase {
            Phase::Connecting => ActionView::Connect,
            Phase::SetupFailed => ActionView::Exit(1),
            Phase::Sending => ActionView::Send(self.commands[self.position as int]),
            Phase::Awaiting => ActionView::Await(REPLY_TIMEOUT_MS),
            Phase::Finished => ActionView::Exit(self.exit_code()),
            Phase::TimedOut => ActionView::Exit(1),
        }
    }
}

/// A batch starts in a valid state.
pub proof fn lemma_start_wf(commands: Seq<Seq<char>>)
    ensures
        Session::start(commands).wf(),
{
}

/// No event leads out of the valid states, and none changes the commands.
pub proof fn lemma_step_keeps_wf(session: Session, event: EventView)
    requires
        session.wf(),
    ensures
        session.step(event).wf(),
        session.step(event).commands == session.commands,
        session.position <= session.step(event).position <= session.position + 1,
{
}

/// Once anything has failed, the batch stays failed whatever comes next.
pub proof fn lemma_failure_is_permanent(session: Session, event: EventView)
    requires
        session.failed,
    ensures
        session.step(event).failed,
        session.step(event).exit_code() == 1,
{
}

/// A reply is only ever awaited for the command that was written just
/// before: the machine starts to wait on the event `Written` alone, taken in
/// while that same command was about to be sent.
pub proof fn lemma_wait_follows_write(session: Session, event: EventView)
    requires
        session.wf(),
        session.phase != Phase::Awaiting,
        session.step(event).phase == Phase::Awaiting,
    ensures
        session.phase == Phase::Sending,
        event == EventView::Written,
        session.step(event).position == session.position,
        session.emits(event).is_none(),
{
}

/// A command that could not be written is not waited for: the machine moves
/// on to the next command, or to the end, without a wait in between.
pub proof fn lemma_write_failure_skips_wait(session: Session, cause: Seq<char>)
    requires
        session.wf(),
        session.phase == Phase::Sending,
    ensures
        session.step(EventView::WriteFailed(cause)).phase != Phase::Awaiting,
        session.step(EventView::WriteFailed(cause)).position == session.position + 1,
        session.step(EventView::WriteFailed(cause)).failed,
{
}

/// No command is handed out for sending before the return pipe is open: an
/// action `Send` is only ever given in the phase `Sending`, and from
/// `Connecting` that phase is entered on the event `Connected` alone.
pub proof fn lemma_send_follows_connect(session: Session, event: EventView)
    requires
        session.wf(),
        session.phase == Phase::Connecting,
    ensures
        session.action() == ActionView::Connect,
        session.step(event).phase == Phase::Sending <==> event == EventView::Connected,
        session.step(event).action() is Send <==> event == EventView::Connected,
        session.step(event).position == 0,
{
}

/// When the return pipe cannot be opened the batch is over before it began:
/// every later event is ignored, no command is ever handed out, and the one
/// thing left to do is to leave with exit code 1.
pub proof fn lemma_setup_failure_is_final(session: Session, event: EventView)
    requires
        session.wf(),
        session.phase == Phase::Connecting,
    ensures
        session.step(EventView::ConnectFailed).phase == Phase::SetupFailed,
        session.step(EventView::ConnectFailed).position == 0,
        session.step(EventView::ConnectFailed).action() == ActionView::Exit(1),
        session.step(EventView::ConnectFailed).step(event) == session.step(
            EventView::ConnectFailed,
        ),
        session.step(EventView::ConnectFailed).emits(event).is_none(),
{
}

/// After a timeout nothing moves any more: every event is ignored, nothing
/// is printed, and the one thing left to do is to leave with exit code 1.
pub proof fn lemma_timeout_is_final(session: Session, event: EventView)
    requires
        session.phase == Phase::TimedOut,
    ensures
        session.step(event) == session,
        session.emits(event).is_none(),
        session.action() == ActionView::Exit(1),
{
}

/// Whenever the machine says to wait, it is for 5000 milliseconds.
pub proof fn lemma_wait_is_bounded(session: Session)
    requires
        session.phase == Phase::Awaiting,
    ensures
        session.action() == ActionView::Await(5000),
{
}

/// The dispatch loop's decisions for one batch of commands.
pub struct Dispatcher {
    commands: Vec<String>,
    position: usize,
    stage: Stage,
    failed: bool,
}

/// The part of the phase that the position does not tell.
#[derive(Clone, Copy, Debug, PartialEq, Eq, Structural)]
enum Stage {
    Connecting,
    SetupFailed,
    Ready,
    Waiting,
    TimedOut,
}

impl View for Dispatcher {
    type V = Session;

    closed spec fn view(&self) -> Session {
        Session {
            commands: texts(self.commands@),
            position: self.position as nat,
            phase: match self.stage {
                Stage::Connecting => Phase::Connecting,
                Stage::SetupFailed => Phase::SetupFailed,
                Stage::Waiting => Phase::Awaiting,
                Stage::TimedOut => Phase::TimedOut,
                Stage::Ready => if self.position < self.commands.len() {
                    Phase::Sending
                } else {
                    Phase::Finished
                },
            },
            failed: self.failed,
        }
    }
}

impl Dispatcher {
    #[verifier::type_invariant]
    closed spec fn inv(&self) -> bool {
        &&& self.position <= self.commands.len()
        &&& (self.stage == Stage::Waiting || self.stage == Stage::TimedOut) ==> self.position
            < self.commands.len()
        &&& (self.stage == Stage::TimedOut || self.stage == Stage::SetupFailed) ==> self.failed
        &&& (self.stage == Stage::Connecting || self.stage == Stage::SetupFailed) ==> {
            &&& self.position == 0
            &&& self.commands.len() > 0
        }
    }

    /// A machine for `commands`, with nothing sent yet.
    pub fn new(commands: Vec<String>) -> (dispatcher: Dispatcher)
        ensures
            dispatcher@ == Session::start(texts(commands@)),
            dispatcher@.wf(),
    {
        let stage = if commands.len() == 0 {
            Stage::Ready
        } else {
            Stage::Connecting
        };
        Dispatcher { commands, position: 0, stage, failed: false }
    }

    /// The phase the machine is in.
    pub fn phase(&self) -> (phase: Phase)
        ensures
            phase == self@.phase,
            self@.wf(),
    {
        proof {
            use_type_invariant(self);
        }
        match self.stage {
            Stage::Connecting => Phase::Connecting,
            Stage::SetupFailed => Phase::SetupFailed,
            Stage::Waiting => Phase::Awaiting,
            Stage::TimedOut => Phase::TimedOut,
            Stage::Ready => if self.position < self.commands.len() {
                Phase::Sending
            } else {
                Phase::Finished
            },
        }
    }

    /// How many commands are dealt with.
    pub fn position(&self) -> (position: usize)
        ensures
            position == self@.position,
            position <= self@.commands.len(),
    {
        proof {
            use_type_invariant(self);
        }
        self.position
    }

    /// Whether anything has failed so far.
    pub fn has_failed(&self) -> (failed: bool)
        ensures
            failed == self@.failed,
    {
        self.failed
    }

    /// What is to be done next.
    pub fn next_action(&self) -> (action: Action)
        ensures
            action@ == self@.action(),
            self@.wf(),
    {
        proof {
            use_type_invariant(self);
        }
        match self.stage {
            Stage::Connecting => Action::Connect,
            Stage::SetupFailed => Action::Exit(1),
            Stage::Waiting => Action::Await(REPLY_TIMEOUT_MS),
            Stage::TimedOut => Action::Exit(1),
            Stage::Ready => if self.position < self.commands.len() {
                Action::Send(self.commands[self.position].clone())
            } else if self.failed {
                Action::Exit(1)
            } else {
                Action::Exit(0)
            },
        }
    }

    /// Takes in what came of the last action and returns the line to print,
    /// if there is one.
    ///
    /// A write failure and a reply end the current command; a timeout ends
    /// the batch. An event that the phase does not wait for is ignored.
    pub fn handle(&mut self, event: Event) -> (line: Option<Line>)
        ensures
            final(self)@ == old(self)@.step(event@),
            final(self)@.wf(),
            match line {
                Some(printed) => old(self)@.emits(event@) == Some(printed@),
                None => old(self)@.emits(event@).is_none(),
            },
    {
        proof {
            use_type_invariant(&*self);
        }
        match self.stage {
            Stage::Connecting => match event {
                Event::Connected => {
                    self.stage = Stage::Ready;
                    None
                },
                Event::ConnectFailed => {
                    self.failed = true;
                    self.stage = Stage::SetupFailed;
                    None
                },
                _ => None,
            },
            Stage::Waiting => match event {
                Event::Reply(reply) => {
                    let (line, failure) = report_reply(
                        self.commands[self.position].as_str(),
                        reply.as_str(),
                    );
                    self.stage = Stage::Ready;
                    self.position = self.position + 1;
                    if failure {
                        self.failed = true;
                    }
                    Some(line)
                },
                Event::TimedOut => {
                    self.failed = true;
                    self.stage = Stage::TimedOut;
                    Some(report_timeout())
                },
                _ => None,
            },
            Stage::Ready => if self.position < self.commands.len() {
                match event {
                    Event::Written => {
                        self.stage = Stage::Waiting;
                        None
                    },
                    Event::WriteFailed(cause) => {
                        self.failed = true;
                        self.position = self.position + 1;
                        Some(report_write_failure(cause.as_str()))
                    },
                    _ => None,
                }
            } else {
                None
            },
            _ => None,
        }
    }
}

} // verus!
