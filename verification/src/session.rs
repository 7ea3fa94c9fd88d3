//! Starting and stopping the stream.
//!
//! A session is either idle or capturing. Each successful start begins a new
//! run and numbers it; the acquisition loop of that run keeps going for as
//! long as the session is capturing that very run. Stopping ends the run for
//! good: a later start begins another run and cannot revive the old one, so
//! a loop that is still waiting for its last frame when the stream is
//! restarted ends all the same.
//!
//! The caller shares one `SessionState` between the context that starts and
//! stops the stream and the one that runs the loop, behind a lock of its
//! choosing.

use crate::errors::SVBError;
use vstd::prelude::*;

verus! {

/// State of the stream.
#[derive(Debug, Clone, Copy, PartialEq, Eq, Structural)]
pub enum LoopState {
    Idle,
    Capturing,
}

/// A command the caller is to give the camera.
#[derive(Debug, Clone, Copy, PartialEq, Eq, Structural)]
pub enum StreamCommand {
    BeginStream,
    EndStream,
}

/// A session as a mathematical value.
pub struct SessionView {
    /// Whether the stream is on.
    pub state: LoopState,
    /// Number of the current run, or of the last one if idle; zero before
    /// the first.
    pub run: nat,
}

impl SessionView {
    /// Whether run `run` is under way.
    pub open spec fn running(self, run: nat) -> bool {
        self.state == LoopState::Capturing && self.run == run
    }

    /// What a request to start is answered with: a second start without a
    /// stop in between is refused, as is one more run than can be numbered.
    pub open spec fn start_request(self) -> Result<StreamCommand, SVBError> {
        if self.state == LoopState::Capturing {
            Err(SVBError::VideoModeActive)
        } else if self.run >= u64::MAX {
            Err(SVBError::GeneralError)
        } else {
            Ok(StreamCommand::BeginStream)
        }
    }

    /// The session once the camera has answered the command to begin
    /// streaming: a new run is under way if the start was in order and the
    /// camera agreed; nothing has changed otherwise.
    pub open spec fn started(self, reply: Result<(), SVBError>) -> SessionView {
        if self.start_request() is Ok && reply is Ok {
            SessionView { state: LoopState::Capturing, run: self.run + 1 }
        } else {
            self
        }
    }

    /// What the caller learns from a start: the number of the new run, the
    /// reason the start was refused, or the camera's error.
    pub open spec fn start_outcome(self, reply: Result<(), SVBError>) -> Result<u64, SVBError> {
        match self.start_request() {
            Err(e) => Err(e),
            Ok(_) => match reply {
                Err(e) => Err(e),
                Ok(()) => Ok((self.run + 1) as u64),
            },
        }
    }

    /// The session after a stop.
    pub open spec fn stopped(self) -> SessionView {
        SessionView { state: LoopState::Idle, run: self.run }
    }

    /// The command that goes with a stop: none when there is no stream to end.
    pub open spec fn stop_command(self) -> Option<StreamCommand> {
        if self.state == LoopState::Capturing {
            Some(StreamCommand::EndStream)
        } else {
            None
        }
    }

    /// The session after the loop of run `run` has ended on its own.
    pub open spec fn run_ended(self, run: nat) -> SessionView {
        if self.running(run) {
            self.stopped()
        } else {
            self
        }
    }
}

/// Whether a camera is streaming, and which run it is on.
#[derive(Debug)]
pub struct SessionState {
    state: LoopState,
    run: u64,
}

impl View for SessionState {
    type V = SessionView;

    closed spec fn view(&self) -> SessionView {
        SessionView { state: self.state, run: self.run as nat }
    }
}

impl SessionState {
    /// An idle session that has never streamed.
    pub fn new() -> (session: Self)
        ensures
            session@ == (SessionView { state: LoopState::Idle, run: 0 }),
    {
        SessionState { state: LoopState::Idle, run: 0 }
    }

    /// State of the stream.
    pub fn state(&self) -> (state: LoopState)
        ensures
            state == self@.state,
    {
        self.state
    }

    /// Whether run `run` is under way. The acquisition loop of that run asks
    /// this before every frame and after every read that timed out.
    pub fn running(&self, run: u64) -> (running: bool)
        ensures
            running == self@.running(run as nat),
    {
        self.state == LoopState::Capturing && self.run == run
    }

    /// First half of a start. Decides whether the stream may start; if so
    /// the caller commands the camera to begin streaming and reports the
    /// camera's reply to `confirm_start`. The session is left as it is.
    pub fn request_start(&self) -> (request: Result<StreamCommand, SVBError>)
        ensures
            request == self@.start_request(),
    {
        if self.state == LoopState::Capturing {
            Err(SVBError::VideoModeActive)
        } else if self.run == u64::MAX {
            Err(SVBError::GeneralError)
        } else {
            Ok(StreamCommand::BeginStream)
        }
    }

    /// Second half of a start: takes the camera's reply to the command to
    /// begin streaming. On success a new run is under way and its number is
    /// returned. A start that `request_start` would refuse is refused here
    /// too, whatever the reply.
    pub fn confirm_start(&mut self, reply: Result<(), SVBError>) -> (outcome: Result<u64, SVBError>)
        ensures
            final(self)@ == old(self)@.started(reply),
            outcome == old(self)@.start_outcome(reply),
    {
        match self.request_start() {
            Err(e) => Err(e),
            Ok(_) => match reply {
                Err(e) => Err(e),
                Ok(()) => {
                    self.run = self.run + 1;
                    self.state = LoopState::Capturing;
                    Ok(self.run)
                },
            },
        }
    }

    /// Stops the stream. While capturing, the run ends and the caller is to
    /// command the camera to end streaming; while idle nothing changes and
    /// there is nothing to command.
    pub fn stop(&mut self) -> (command: Option<StreamCommand>)
        ensures
            final(self)@ == old(self)@.stopped(),
            command == old(self)@.stop_command(),
            old(self)@.state == LoopState::Idle ==> final(self)@ == old(self)@ && command is None,
    {
        if self.state == LoopState::Capturing {
            self.state = LoopState::Idle;
            Some(StreamCommand::EndStream)
        } else {
            None
        }
    }

    /// Records that the loop of run `run` has ended on its own, as it does
    /// after a fatal error. The session becomes idle if that run was still
    /// under way; the end of an older run changes nothing.
    pub fn run_ended(&mut self, run: u64)
        ensures
            final(self)@ == old(self)@.run_ended(run as nat),
    {
        if self.running(run) {
            self.state = LoopState::Idle;
        }
    }
}

/// One thing that can happen to a session.
pub enum SessionEvent {
    /// A start, with the camera's reply to the command to begin streaming.
    Start(Result<(), SVBError>),
    /// A stop.
    Stop,
    /// The loop of the given run has ended on its own.
    RunEnded(nat),
}

/// The session after an event.
pub open spec fn session_after(session: SessionView, event: SessionEvent) -> SessionView {
    match event {
        SessionEvent::Start(reply) => session.started(reply),
        SessionEvent::Stop => session.stopped(),
        SessionEvent::RunEnded(run) => session.run_ended(run),
    }
}

/// The session after a series of events.
pub open spec fn session_after_all(session: SessionView, events: Seq<SessionEvent>) -> SessionView
    decreases events.len(),
{
    if events.len() == 0 {
        session
    } else {
        session_after(session_after_all(session, events.drop_last()), events.last())
    }
}

/// Stopping an idle session changes nothing and commands nothing.
pub proof fn lemma_stop_while_idle(session: SessionView)
    requires
        session.state == LoopState::Idle,
    ensures
        session.stopped() == session,
        session.stop_command() is None,
{
}

/// A second start without a stop in between is refused with
/// `VideoModeActive`, whatever the camera would reply, and the run begun by
/// the first start goes on.
pub proof fn lemma_second_start_refused(
    session: SessionView,
    first: Result<(), SVBError>,
    second: Result<(), SVBError>,
)
    requires
        session.start_outcome(first) is Ok,
    ensures
        session.started(first).start_request() == Err::<StreamCommand, SVBError>(
            SVBError::VideoModeActive,
        ),
        session.started(first).start_outcome(second) == Err::<u64, SVBError>(
            SVBError::VideoModeActive,
        ),
        session.started(first).started(second) == session.started(first),
        session.started(first).started(second).running(session.run + 1),
{
}

/// Runs are numbered upwards, and only a start moves a session from idle to
/// capturing.
pub proof fn lemma_run_numbers_grow(session: SessionView, event: SessionEvent)
    ensures
        session_after(session, event).run >= session.run,
        session_after(session, event).run > session.run ==> event is Start && session_after(
            session,
            event,
        ).running(session.run + 1),
{
}

/// A run that is over stays over: once run `run` has begun and is no longer
/// under way, no series of starts, stops and loop exits brings it back.
pub proof fn lemma_ended_run_stays_ended(session: SessionView, run: nat, events: Seq<SessionEvent>)
    requires
        run <= session.run,
        !session.running(run),
    ensures
        !session_after_all(session, events).running(run),
        session_after_all(session, events).run >= session.run,
    decreases events.len(),
{
    if events.len() > 0 {
        lemma_ended_run_stays_ended(session, run, events.drop_last());
        lemma_run_numbers_grow(session_after_all(session, events.drop_last()), events.last());
    }
}

/// After a stop the run that was under way is over, and stays over whatever
/// happens to the session afterwards.
pub proof fn lemma_stop_is_final(session: SessionView, events: Seq<SessionEvent>)
    ensures
        !session_after_all(session.stopped(), events).running(session.run),
{
    lemma_ended_run_stays_ended(session.stopped(), session.run, events);
}

} // verus!
