//! The session manager: what it makes of each command, of each thing that
//! happens to the connection, and of the retry timer.
//!
//! [`SessionManager::step`] takes one input and gives the actions to perform,
//! in order. Some actions have an outcome; it is the next input.
use crate::config::{delay, reconnect_delay, TerminalSize, TmuxSessionConfig};
use crate::payload::contents;
use bytes::Bytes;
use std::time::Duration;
use vstd::prelude::*;
use vstd::string::*;

verus! {

/// The state of a session, as told to whoever watches it.
#[derive(Clone, Copy, Debug, Eq)]
pub enum SessionState {
    Disconnected,
    Connecting,
    Connected,
    Reconnecting { attempt: u32, delay: Duration },
    Failed,
}

impl PartialEq for SessionState {
    fn eq(&self, other: &SessionState) -> (same: bool) {
        match (self, other) {
            (SessionState::Disconnected, SessionState::Disconnected) => true,
            (SessionState::Connecting, SessionState::Connecting) => true,
            (SessionState::Connected, SessionState::Connected) => true,
            (
                SessionState::Reconnecting { attempt: a, delay: d },
                SessionState::Reconnecting { attempt: b, delay: e },
            ) => *a == *b && *d == *e,
            (SessionState::Failed, SessionState::Failed) => true,
            _ => false,
        }
    }
}

impl vstd::std_specs::cmp::PartialEqSpecImpl for SessionState {
    open spec fn obeys_eq_spec() -> bool {
        true
    }

    open spec fn eq_spec(&self, other: &SessionState) -> bool {
        *self == *other
    }
}

/// What the manager tells whoever watches the session.
#[derive(Debug)]
pub enum SessionEvent {
    StateChanged(SessionState),
    Output(Bytes),
    ExitStatus(u32),
    Error(String),
}

pub enum SessionEventView {
    StateChanged(SessionState),
    Output(Seq<u8>),
    ExitStatus(u32),
    Error(Seq<char>),
}

impl View for SessionEvent {
    type V = SessionEventView;

    open spec fn view(&self) -> SessionEventView {
        match self {
            SessionEvent::StateChanged(state) => SessionEventView::StateChanged(*state),
            SessionEvent::Output(data) => SessionEventView::Output(contents(*data)),
            SessionEvent::ExitStatus(status) => SessionEventView::ExitStatus(*status),
            SessionEvent::Error(message) => SessionEventView::Error(message@),
        }
    }
}

/// What the manager is asked to do.
#[derive(Debug)]
pub enum SessionCommand {
    Connect,
    Disconnect,
    Write(Bytes),
    Resize(TerminalSize),
    Retry,
    Shutdown,
}

pub enum SessionCommandView {
    Connect,
    Disconnect,
    Write(Seq<u8>),
    Resize(TerminalSize),
    Retry,
    Shutdown,
}

impl View for SessionCommand {
    type V = SessionCommandView;

    open spec fn view(&self) -> SessionCommandView {
        match self {
            SessionCommand::Connect => SessionCommandView::Connect,
            SessionCommand::Disconnect => SessionCommandView::Disconnect,
            SessionCommand::Write(data) => SessionCommandView::Write(contents(*data)),
            SessionCommand::Resize(size) => SessionCommandView::Resize(*size),
            SessionCommand::Retry => SessionCommandView::Retry,
            SessionCommand::Shutdown => SessionCommandView::Shutdown,
        }
    }
}

/// What the reader of an open connection reports.
#[derive(Debug)]
pub enum ConnectionEvent {
    Output(Bytes),
    Closed { exit_status: Option<u32> },
}

pub enum ConnectionEventView {
    Output(Seq<u8>),
    Closed { exit_status: Option<u32> },
}

impl View for ConnectionEvent {
    type V = ConnectionEventView;

    open spec fn view(&self) -> ConnectionEventView {
        match self {
            ConnectionEvent::Output(data) => ConnectionEventView::Output(contents(*data)),
            ConnectionEvent::Closed { exit_status } => ConnectionEventView::Closed {
                exit_status: *exit_status,
            },
        }
    }
}

/// What can happen to the manager.
#[derive(Debug)]
pub enum ManagerInput {
    /// A command; `None` once nobody is left to send one.
    Command(Option<SessionCommand>),
    /// News from the open connection; `None` where its reader is gone.
    Connection(Option<ConnectionEvent>),
    /// The time to wait before a retry is over.
    RetryDue,
    /// How [`ManagerAction::Connect`] ended, with the message where it failed.
    Connected(Result<(), String>),
    /// How [`ManagerAction::Write`] ended, with the message where it failed.
    Written(Result<(), String>),
    /// How [`ManagerAction::Resize`] ended, with the message where it failed.
    Resized(Result<(), String>),
}

pub enum ManagerInputView {
    Command(Option<SessionCommandView>),
    Connection(Option<ConnectionEventView>),
    RetryDue,
    Connected(Result<(), Seq<char>>),
    Written(Result<(), Seq<char>>),
    Resized(Result<(), Seq<char>>),
}

/// An outcome, with its message where it is a failure.
pub open spec fn outcome_text(outcome: Result<(), String>) -> Result<(), Seq<char>> {
    match outcome {
        Ok(()) => Ok(()),
        Err(message) => Err(message@),
    }
}

impl View for ManagerInput {
    type V = ManagerInputView;

    open spec fn view(&self) -> ManagerInputView {
        match self {
            ManagerInput::Command(Some(command)) => ManagerInputView::Command(Some(command@)),
            ManagerInput::Command(None) => ManagerInputView::Command(None),
            ManagerInput::Connection(Some(event)) => ManagerInputView::Connection(Some(event@)),
            ManagerInput::Connection(None) => ManagerInputView::Connection(None),
            ManagerInput::RetryDue => ManagerInputView::RetryDue,
            ManagerInput::Connected(outcome) => ManagerInputView::Connected(
                outcome_text(*outcome),
            ),
            ManagerInput::Written(outcome) => ManagerInputView::Written(outcome_text(*outcome)),
            ManagerInput::Resized(outcome) => ManagerInputView::Resized(outcome_text(*outcome)),
        }
    }
}

/// What is to be done. The outcome of `Connect`, `Write` and `Resize` is the
/// next input.
#[derive(Debug)]
pub enum ManagerAction {
    /// Tell whoever watches.
    Emit(SessionEvent),
    /// Open a connection, with a terminal of this size.
    Connect(TerminalSize),
    /// Send input over the open connection.
    Write(Bytes),
    /// Give the remote terminal a new size.
    Resize(TerminalSize),
    /// Close the open connection and stop its reader.
    Close,
    /// Report [`ManagerInput::RetryDue`] after this time, if a retry is still
    /// pending.
    ScheduleRetry(Duration),
    /// End the manager.
    Stop,
}

pub enum ManagerActionView {
    Emit(SessionEventView),
    Connect(TerminalSize),
    Write(Seq<u8>),
    Resize(TerminalSize),
    Close,
    ScheduleRetry(Duration),
    Stop,
}

impl View for ManagerAction {
    type V = ManagerActionView;

    open spec fn view(&self) -> ManagerActionView {
        match self {
            ManagerAction::Emit(event) => ManagerActionView::Emit(event@),
            ManagerAction::Connect(size) => ManagerActionView::Connect(*size),
            ManagerAction::Write(data) => ManagerActionView::Write(contents(*data)),
            ManagerAction::Resize(size) => ManagerActionView::Resize(*size),
            ManagerAction::Close => ManagerActionView::Close,
            ManagerAction::ScheduleRetry(wait) => ManagerActionView::ScheduleRetry(*wait),
            ManagerAction::Stop => ManagerActionView::Stop,
        }
    }
}

/// What the manager waits for.
#[derive(Clone, Copy, Debug, PartialEq, Eq, Structural)]
pub enum Phase {
    /// A command, news from the connection, or the retry timer.
    Idle,
    /// The outcome of an attempt to connect.
    Connecting,
    /// The outcome of a write.
    Writing,
    /// The outcome of a resize.
    Resizing,
    /// Nothing any more.
    Stopped,
}

/// What the manager knows.
pub struct ManagerView {
    /// The state that was last recorded. The states passed through while a
    /// connection is opened are announced and not recorded.
    pub state: SessionState,
    /// Whether a connection is wanted.
    pub desired: bool,
    /// Whether there is an open connection.
    pub active: bool,
    /// Whether a retry is pending.
    pub retry: bool,
    /// How many attempts have failed since the last connection.
    pub attempt: u32,
    /// The size for the terminal of the next connection.
    pub pending_size: TerminalSize,
    pub phase: Phase,
}

/// A manager and the actions decided on so far.
pub struct Decision {
    pub manager: ManagerView,
    pub actions: Seq<ManagerActionView>,
}

impl Decision {
    /// One action more.
    pub open spec fn doing(self, action: ManagerActionView) -> Decision {
        Decision { actions: self.actions.push(action), ..self }
    }

    /// Tells whoever watches.
    pub open spec fn telling(self, event: SessionEventView) -> Decision {
        self.doing(ManagerActionView::Emit(event))
    }

    /// Records a state, and announces it unless it is the one recorded already.
    pub open spec fn recording(self, state: SessionState) -> Decision {
        if self.manager.state == state {
            self
        } else {
            (Decision {
                manager: ManagerView { state, ..self.manager },
                ..self
            }).telling(SessionEventView::StateChanged(state))
        }
    }

    /// Closes the connection, where one is open.
    pub open spec fn closing(self) -> Decision {
        if self.manager.active {
            (Decision {
                manager: ManagerView { active: false, ..self.manager },
                ..self
            }).doing(ManagerActionView::Close)
        } else {
            self
        }
    }

    /// Reports an error, counts one failure more and schedules the next attempt.
    pub open spec fn retrying(self, error: Seq<char>) -> Decision {
        let attempt = next_attempt(self.manager.attempt);
        (Decision { manager: ManagerView { attempt, retry: true, ..self.manager }, ..self }).telling(
            SessionEventView::Error(error),
        ).doing(ManagerActionView::ScheduleRetry(delay(attempt))).recording(
            SessionState::Reconnecting { attempt, delay: delay(attempt) },
        )
    }

    /// Gives the connection up, and tries again where one is wanted.
    pub open spec fn losing(self, error: Seq<char>) -> Decision {
        if self.manager.desired {
            self.closing().retrying(error)
        } else {
            self.closing().recording(SessionState::Disconnected)
        }
    }

    /// Ends the session: none is wanted, none is open, none is retried.
    pub open spec fn forgetting(self) -> Decision {
        (Decision {
            manager: ManagerView { desired: false, retry: false, attempt: 0, ..self.manager },
            ..self
        }).closing()
    }

    /// Starts an attempt to connect, where a connection is wanted and none is
    /// open. Either way no retry is pending.
    pub open spec fn connecting(self) -> Decision {
        let manager = ManagerView { retry: false, ..self.manager };
        if manager.desired && !manager.active {
            (Decision {
                manager: ManagerView { phase: Phase::Connecting, ..manager },
                ..self
            }).telling(SessionEventView::StateChanged(SessionState::Connecting)).doing(
                ManagerActionView::Connect(manager.pending_size),
            )
        } else {
            Decision { manager, ..self }
        }
    }

    /// Stops the manager.
    pub open spec fn stopping(self) -> Decision {
        let closed = self.closing();
        (Decision {
            manager: ManagerView { phase: Phase::Stopped, ..closed.manager },
            ..closed
        }).doing(ManagerActionView::Stop)
    }
}

/// The count of failed attempts after one more.
pub open spec fn next_attempt(attempt: u32) -> u32 {
    if attempt < u32::MAX {
        (attempt + 1) as u32
    } else {
        attempt
    }
}

/// The manager at the start.
pub open spec fn initial(size: TerminalSize) -> ManagerView {
    ManagerView {
        state: SessionState::Disconnected,
        desired: false,
        active: false,
        retry: false,
        attempt: 0,
        pending_size: size,
        phase: Phase::Idle,
    }
}

/// What the manager decides on a command.
pub open spec fn on_command(m: ManagerView, command: SessionCommandView) -> Decision {
    let start = Decision { manager: m, actions: Seq::empty() };
    match command {
        SessionCommandView::Connect => (Decision {
            manager: ManagerView { desired: true, ..m },
            ..start
        }).connecting(),
        SessionCommandView::Disconnect => start.forgetting().recording(SessionState::Disconnected),
        SessionCommandView::Write(data) => if m.active {
            (Decision { manager: ManagerView { phase: Phase::Writing, ..m }, ..start }).doing(
                ManagerActionView::Write(data),
            )
        } else {
            start.telling(SessionEventView::Error("cannot write while session is disconnected"@))
        },
        SessionCommandView::Resize(size) => if m.active {
            (Decision {
                manager: ManagerView { pending_size: size, phase: Phase::Resizing, ..m },
                ..start
            }).doing(ManagerActionView::Resize(size))
        } else {
            Decision { manager: ManagerView { pending_size: size, ..m }, ..start }
        },
        SessionCommandView::Retry => start.connecting(),
        SessionCommandView::Shutdown => start.stopping(),
    }
}

/// What the manager decides on an input.
pub open spec fn on_input(m: ManagerView, input: ManagerInputView) -> Decision {
    let start = Decision { manager: m, actions: Seq::empty() };
    let idle = Decision { manager: ManagerView { phase: Phase::Idle, ..m }, actions: Seq::empty() };
    match input {
        ManagerInputView::Command(Some(command)) => on_command(m, command),
        ManagerInputView::Command(None) => start.stopping(),
        ManagerInputView::Connection(Some(ConnectionEventView::Output(data))) => start.telling(
            SessionEventView::Output(data),
        ),
        ManagerInputView::Connection(
            Some(ConnectionEventView::Closed { exit_status: Some(status) }),
        ) => start.forgetting().telling(SessionEventView::ExitStatus(status)).recording(
            SessionState::Disconnected,
        ),
        ManagerInputView::Connection(_) => start.losing("remote SSH channel closed"@),
        ManagerInputView::RetryDue => start.connecting(),
        ManagerInputView::Connected(Ok(())) => (Decision {
            manager: ManagerView { active: true, attempt: 0, ..idle.manager },
            ..idle
        }).telling(SessionEventView::StateChanged(SessionState::Connected)),
        ManagerInputView::Connected(Err(error)) => idle.retrying(error),
        ManagerInputView::Written(Ok(())) => idle,
        ManagerInputView::Written(Err(error)) => idle.telling(
            SessionEventView::Error("failed to write remote input: "@ + error),
        ).losing(error),
        ManagerInputView::Resized(Ok(())) => idle,
        ManagerInputView::Resized(Err(error)) => idle.telling(
            SessionEventView::Error("failed to resize remote PTY: "@ + error),
        ).losing(error),
    }
}

/// Which inputs can come: while an outcome is waited for, only that outcome;
/// otherwise a command, news from an open connection, or a pending retry.
pub open spec fn accepts(m: ManagerView, input: ManagerInputView) -> bool {
    match input {
        ManagerInputView::Command(_) => m.phase == Phase::Idle,
        ManagerInputView::Connection(_) => m.phase == Phase::Idle && m.active,
        ManagerInputView::RetryDue => m.phase == Phase::Idle && m.retry,
        ManagerInputView::Connected(_) => m.phase == Phase::Connecting,
        ManagerInputView::Written(_) => m.phase == Phase::Writing,
        ManagerInputView::Resized(_) => m.phase == Phase::Resizing,
    }
}

/// What holds of a manager at any time.
pub open spec fn valid(m: ManagerView) -> bool {
    // An open connection is wanted, and no failure is counted while it is open.
    &&& m.active ==> m.desired && m.attempt == 0 && !m.retry
    // A retry is pending only without a connection, after a failure, and is announced.
    &&& m.retry ==> m.desired && m.attempt >= 1 && m.state == (SessionState::Reconnecting {
        attempt: m.attempt,
        delay: delay(m.attempt),
    })
    // Where no connection is wanted, none is counted as failed, and that is the state.
    &&& !m.desired ==> m.attempt == 0 && m.state == SessionState::Disconnected
    // Only these states are ever recorded.
    &&& m.state == SessionState::Disconnected || (m.state matches SessionState::Reconnecting {
        attempt,
        delay: wait,
    } && attempt >= 1 && wait == delay(attempt))
    &&& match m.phase {
        // A wanted connection is open or will be retried.
        Phase::Idle => m.desired ==> m.active || m.retry,
        Phase::Connecting => m.desired && !m.active && !m.retry,
        Phase::Writing | Phase::Resizing => m.active,
        Phase::Stopped => !m.active,
    }
}

/// The views of a list of actions.
pub open spec fn action_views(actions: Seq<ManagerAction>) -> Seq<ManagerActionView> {
    actions.map_values(|action: ManagerAction| action@)
}

/// Appends an action.
fn act(actions: &mut Vec<ManagerAction>, action: ManagerAction)
    ensures
        action_views(final(actions)@) == action_views(old(actions)@).push(action@),
{
    actions.push(action);
    assert(action_views(actions@) =~= action_views(old(actions)@).push(action@));
}

/// Keeps one tmux session over SSH connected for as long as that is wanted.
#[derive(Debug)]
pub struct SessionManager {
    state: SessionState,
    desired_connection: bool,
    active: bool,
    retry_pending: bool,
    retry_attempt: u32,
    pending_size: TerminalSize,
    phase: Phase,
}

impl View for SessionManager {
    type V = ManagerView;

    closed spec fn view(&self) -> ManagerView {
        ManagerView {
            state: self.state,
            desired: self.desired_connection,
            active: self.active,
            retry: self.retry_pending,
            attempt: self.retry_attempt,
            pending_size: self.pending_size,
            phase: self.phase,
        }
    }
}

impl SessionManager {
    /// The manager and the actions, as a decision.
    spec fn with(self, actions: Seq<ManagerAction>) -> Decision {
        Decision { manager: self@, actions: action_views(actions) }
    }

    /// A manager of a session that nobody has asked to connect yet, and its
    /// first action: to tell so.
    pub fn new(config: &TmuxSessionConfig) -> (started: (SessionManager, Vec<ManagerAction>))
        ensures
            started.0@ == initial(config@.size),
            valid(started.0@),
            action_views(started.1@) == seq![
                ManagerActionView::Emit(
                    SessionEventView::StateChanged(SessionState::Disconnected),
                ),
            ],
    {
        let manager = SessionManager {
            state: SessionState::Disconnected,
            desired_connection: false,
            active: false,
            retry_pending: false,
            retry_attempt: 0,
            pending_size: config.size,
            phase: Phase::Idle,
        };
        let mut actions: Vec<ManagerAction> = Vec::new();
        manager.emit_state(&mut actions, SessionState::Disconnected);
        assert(action_views(actions@) =~= seq![
            ManagerActionView::Emit(SessionEventView::StateChanged(SessionState::Disconnected)),
        ]);
        (manager, actions)
    }

    /// The state that was last recorded.
    pub fn state(&self) -> (state: SessionState)
        ensures
            state == self@.state,
    {
        self.state
    }

    /// Whether news from the connection can come.
    pub fn connection_events_open(&self) -> (open: bool)
        ensures
            open == self@.active,
    {
        self.active
    }

    /// Whether a retry is pending.
    pub fn retry_pending(&self) -> (pending: bool)
        ensures
            pending == self@.retry,
    {
        self.retry_pending
    }

    /// Whether an input can come now.
    pub fn accepts(&self, input: &ManagerInput) -> (accepted: bool)
        ensures
            accepted == accepts(self@, input@),
    {
        match input {
            ManagerInput::Command(_) => self.phase == Phase::Idle,
            ManagerInput::Connection(_) => self.phase == Phase::Idle && self.active,
            ManagerInput::RetryDue => self.phase == Phase::Idle && self.retry_pending,
            ManagerInput::Connected(_) => self.phase == Phase::Connecting,
            ManagerInput::Written(_) => self.phase == Phase::Writing,
            ManagerInput::Resized(_) => self.phase == Phase::Resizing,
        }
    }

    fn emit_state(&self, actions: &mut Vec<ManagerAction>, state: SessionState)
        ensures
            self.with(final(actions)@) == self.with(old(actions)@).telling(
                SessionEventView::StateChanged(state),
            ),
    {
        act(actions, ManagerAction::Emit(SessionEvent::StateChanged(state)));
    }

    fn emit_error(&self, actions: &mut Vec<ManagerAction>, message: String)
        ensures
            self.with(final(actions)@) == self.with(old(actions)@).telling(
                SessionEventView::Error(message@),
            ),
    {
        act(actions, ManagerAction::Emit(SessionEvent::Error(message)));
    }

    fn set_state(&mut self, actions: &mut Vec<ManagerAction>, next: SessionState)
        ensures
            final(self).with(final(actions)@) == old(self).with(old(actions)@).recording(next),
    {
        if self.state == next {
            return;
        }
        self.state = next;
        self.emit_state(actions, next);
    }

    fn close_active(&mut self, actions: &mut Vec<ManagerAction>)
        ensures
            final(self).with(final(actions)@) == old(self).with(old(actions)@).closing(),
    {
        if !self.active {
            return;
        }
        self.active = false;
        act(actions, ManagerAction::Close);
    }

    fn schedule_retry(&mut self, actions: &mut Vec<ManagerAction>, error: String)
        ensures
            final(self).with(final(actions)@) == old(self).with(old(actions)@).retrying(error@),
    {
        self.emit_error(actions, error);
        self.retry_attempt = self.retry_attempt.saturating_add(1);
        let delay = reconnect_delay(self.retry_attempt);
        self.retry_pending = true;
        act(actions, ManagerAction::ScheduleRetry(delay));
        let attempt: u32 = self.retry_attempt;
        self.set_state(actions, SessionState::Reconnecting { attempt, delay });
    }

    fn lose_connection(&mut self, actions: &mut Vec<ManagerAction>, error: String)
        ensures
            final(self).with(final(actions)@) == old(self).with(old(actions)@).losing(error@),
    {
        self.close_active(actions);
        if self.desired_connection {
            self.schedule_retry(actions, error);
        } else {
            self.set_state(actions, SessionState::Disconnected);
        }
    }

    fn end_session(&mut self, actions: &mut Vec<ManagerAction>)
        ensures
            final(self).with(final(actions)@) == old(self).with(old(actions)@).forgetting(),
    {
        self.desired_connection = false;
        self.retry_pending = false;
        self.retry_attempt = 0;
        self.close_active(actions);
    }

    fn connect_if_wanted(&mut self, actions: &mut Vec<ManagerAction>)
        ensures
            final(self).with(final(actions)@) == old(self).with(old(actions)@).connecting(),
    {
        self.retry_pending = false;
        if self.desired_connection && !self.active {
            self.phase = Phase::Connecting;
            self.emit_state(actions, SessionState::Connecting);
            act(actions, ManagerAction::Connect(self.pending_size));
        }
    }

    fn stop(&mut self, actions: &mut Vec<ManagerAction>)
        ensures
            final(self).with(final(actions)@) == old(self).with(old(actions)@).stopping(),
    {
        self.close_active(actions);
        self.phase = Phase::Stopped;
        act(actions, ManagerAction::Stop);
    }

    fn command(&mut self, actions: &mut Vec<ManagerAction>, command: SessionCommand)
        requires
            action_views(old(actions)@) == Seq::<ManagerActionView>::empty(),
        ensures
            final(self).with(final(actions)@) == on_command(old(self)@, command@),
    {
        match command {
            SessionCommand::Connect => {
                self.desired_connection = true;
                self.connect_if_wanted(actions);
            },
            SessionCommand::Disconnect => {
                self.end_session(actions);
                self.set_state(actions, SessionState::Disconnected);
            },
            SessionCommand::Write(data) => {
                if self.active {
                    self.phase = Phase::Writing;
                    act(actions, ManagerAction::Write(data));
                } else {
                    self.emit_error(
                        actions,
                        "cannot write while session is disconnected".to_owned(),
                    );
                }
            },
            SessionCommand::Resize(size) => {
                self.pending_size = size;
                if self.active {
                    self.phase = Phase::Resizing;
                    act(actions, ManagerAction::Resize(size));
                }
            },
            SessionCommand::Retry => self.connect_if_wanted(actions),
            SessionCommand::Shutdown => self.stop(actions),
        }
    }

    /// Takes one input in and gives the actions to perform, in order.
    pub fn step(&mut self, input: ManagerInput) -> (actions: Vec<ManagerAction>)
        requires
            valid(old(self)@),
            accepts(old(self)@, input@),
        ensures
            final(self)@ == on_input(old(self)@, input@).manager,
            action_views(actions@) == on_input(old(self)@, input@).actions,
            valid(final(self)@),
    {
        let mut actions: Vec<ManagerAction> = Vec::new();
        assert(action_views(actions@) =~= Seq::<ManagerActionView>::empty());
        match input {
            ManagerInput::Command(Some(command)) => self.command(&mut actions, command),
            ManagerInput::Command(None) => self.stop(&mut actions),
            ManagerInput::Connection(Some(ConnectionEvent::Output(data))) => {
                act(&mut actions, ManagerAction::Emit(SessionEvent::Output(data)));
            },
            ManagerInput::Connection(
                Some(ConnectionEvent::Closed { exit_status: Some(status) }),
            ) => {
                self.end_session(&mut actions);
                act(&mut actions, ManagerAction::Emit(SessionEvent::ExitStatus(status)));
                self.set_state(&mut actions, SessionState::Disconnected);
            },
            ManagerInput::Connection(_) => {
                self.lose_connection(&mut actions, "remote SSH channel closed".to_owned());
            },
            ManagerInput::RetryDue => self.connect_if_wanted(&mut actions),
            ManagerInput::Connected(outcome) => {
                self.phase = Phase::Idle;
                match outcome {
                    Ok(()) => {
                        self.emit_state(&mut actions, SessionState::Connected);
                        self.active = true;
                        self.retry_attempt = 0;
                    },
                    Err(error) => self.schedule_retry(&mut actions, error),
                }
            },
            ManagerInput::Written(outcome) => {
                self.phase = Phase::Idle;
                if let Err(error) = outcome {
                    let mut message = "failed to write remote input: ".to_owned();
                    message.append(error.as_str());
                    self.emit_error(&mut actions, message);
                    self.lose_connection(&mut actions, error);
                }
            },
            ManagerInput::Resized(outcome) => {
                self.phase = Phase::Idle;
                if let Err(error) = outcome {
                    let mut message = "failed to resize remote PTY: ".to_owned();
                    message.append(error.as_str());
                    self.emit_error(&mut actions, message);
                    self.lose_connection(&mut actions, error);
                }
            },
        }
        actions
    }
}

} // verus!
