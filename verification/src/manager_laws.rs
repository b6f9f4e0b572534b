//! What holds of a session manager over any course of events.
use crate::config::{delay, delay_secs, law_delay_is_bounded, TerminalSize};
use crate::manager::{
    accepts, initial, next_attempt, on_input, valid, ConnectionEventView, Decision,
    ManagerActionView, ManagerInputView, ManagerView, Phase, SessionCommandView, SessionEventView,
    SessionState,
};
use vstd::prelude::*;

verus! {

/// A command, as an input.
pub open spec fn told(command: SessionCommandView) -> ManagerInputView {
    ManagerInputView::Command(Some(command))
}

/// The manager after a course of inputs, and all the actions on the way.
pub open spec fn run(m: ManagerView, inputs: Seq<ManagerInputView>) -> Decision
    decreases inputs.len(),
{
    if inputs.len() == 0 {
        Decision { manager: m, actions: Seq::empty() }
    } else {
        let before = run(m, inputs.drop_last());
        let last = on_input(before.manager, inputs.last());
        Decision { manager: last.manager, actions: before.actions + last.actions }
    }
}

/// A course of inputs each of which can come when it does.
pub open spec fn possible(m: ManagerView, inputs: Seq<ManagerInputView>) -> bool
    decreases inputs.len(),
{
    inputs.len() > 0 ==> possible(m, inputs.drop_last()) && accepts(
        run(m, inputs.drop_last()).manager,
        inputs.last(),
    )
}

/// No input makes a valid manager invalid.
pub proof fn law_step_keeps_validity(m: ManagerView, input: ManagerInputView)
    requires
        valid(m),
        accepts(m, input),
    ensures
        valid(on_input(m, input).manager),
{
}

/// A manager is valid at any time: an open connection is always a wanted one,
/// and a wanted connection is open, being opened, or to be retried.
pub proof fn law_manager_is_always_valid(size: TerminalSize, inputs: Seq<ManagerInputView>)
    requires
        possible(initial(size), inputs),
    ensures
        valid(run(initial(size), inputs).manager),
    decreases inputs.len(),
{
    if inputs.len() > 0 {
        law_manager_is_always_valid(size, inputs.drop_last());
        law_step_keeps_validity(run(initial(size), inputs.drop_last()).manager, inputs.last());
    }
}

/// Input that comes without a connection is answered with an error, and with
/// nothing else; the manager is as before.
pub proof fn law_write_without_connection_is_rejected(m: ManagerView, data: Seq<u8>)
    requires
        valid(m),
        accepts(m, told(SessionCommandView::Write(data))),
        !m.active,
    ensures
        on_input(m, told(SessionCommandView::Write(data))).manager == m,
        on_input(m, told(SessionCommandView::Write(data))).actions == seq![
            ManagerActionView::Emit(
                SessionEventView::Error("cannot write while session is disconnected"@),
            ),
        ],
{
    assert(on_input(m, told(SessionCommandView::Write(data))).actions =~= seq![
        ManagerActionView::Emit(
            SessionEventView::Error("cannot write while session is disconnected"@),
        ),
    ]);
}

/// Input is never kept: whatever it was, the same course of events after it
/// leads to the same actions.
pub proof fn law_input_is_never_replayed(
    m: ManagerView,
    data: Seq<u8>,
    other: Seq<u8>,
    later: Seq<ManagerInputView>,
)
    ensures
        run(on_input(m, told(SessionCommandView::Write(data))).manager, later) == run(
            on_input(m, told(SessionCommandView::Write(other))).manager,
            later,
        ),
{
}

/// Input is sent only when it is commanded, over an open connection.
pub proof fn law_only_commanded_input_is_sent(
    m: ManagerView,
    input: ManagerInputView,
    data: Seq<u8>,
)
    requires
        valid(m),
        accepts(m, input),
    ensures
        on_input(m, input).actions.contains(ManagerActionView::Write(data)) <==> (m.active && input
            == told(SessionCommandView::Write(data))),
{
    let actions = on_input(m, input).actions;
    let sent = ManagerActionView::Write(data);
    if m.active && input == told(SessionCommandView::Write(data)) {
        assert(actions[0] == sent);
    }
}

/// A new size without a connection is taken in silence and used by the next
/// attempt to connect.
pub proof fn law_resize_without_connection_is_remembered(m: ManagerView, size: TerminalSize)
    requires
        valid(m),
        accepts(m, told(SessionCommandView::Resize(size))),
        !m.active,
    ensures
        on_input(m, told(SessionCommandView::Resize(size))).actions.len() == 0,
        on_input(m, told(SessionCommandView::Resize(size))).manager == (ManagerView {
            pending_size: size,
            ..m
        }),
        on_input(
            on_input(m, told(SessionCommandView::Resize(size))).manager,
            told(SessionCommandView::Connect),
        ).actions == seq![
            ManagerActionView::Emit(SessionEventView::StateChanged(SessionState::Connecting)),
            ManagerActionView::Connect(size),
        ],
{
    assert(on_input(
        on_input(m, told(SessionCommandView::Resize(size))).manager,
        told(SessionCommandView::Connect),
    ).actions =~= seq![
        ManagerActionView::Emit(SessionEventView::StateChanged(SessionState::Connecting)),
        ManagerActionView::Connect(size),
    ]);
}

/// The size that was last asked for.
pub open spec fn last_size(size: TerminalSize, inputs: Seq<ManagerInputView>) -> TerminalSize
    decreases inputs.len(),
{
    if inputs.len() == 0 {
        size
    } else {
        match inputs.last() {
            ManagerInputView::Command(Some(SessionCommandView::Resize(asked))) => asked,
            _ => last_size(size, inputs.drop_last()),
        }
    }
}

/// The size for the next terminal is the one that was last asked for, however
/// many connections came and went since.
pub proof fn law_last_size_counts(size: TerminalSize, inputs: Seq<ManagerInputView>)
    ensures
        run(initial(size), inputs).manager.pending_size == last_size(size, inputs),
    decreases inputs.len(),
{
    if inputs.len() > 0 {
        law_last_size_counts(size, inputs.drop_last());
    }
}

/// Every attempt to connect is made with that size.
pub proof fn law_connects_with_pending_size(
    m: ManagerView,
    input: ManagerInputView,
    size: TerminalSize,
)
    requires
        valid(m),
        accepts(m, input),
        on_input(m, input).actions.contains(ManagerActionView::Connect(size)),
    ensures
        size == m.pending_size,
{
}

/// After a disconnect nothing is open, nothing is pending, and nothing but a
/// new command to connect starts an attempt.
pub proof fn law_disconnect_is_final(m: ManagerView, input: ManagerInputView)
    requires
        valid(m),
        accepts(m, told(SessionCommandView::Disconnect)),
        accepts(on_input(m, told(SessionCommandView::Disconnect)).manager, input),
        input != told(SessionCommandView::Connect),
    ensures
        ({
            let after = on_input(m, told(SessionCommandView::Disconnect)).manager;
            &&& !after.desired && !after.active && !after.retry && after.attempt == 0
            &&& after.state == SessionState::Disconnected
            &&& !on_input(after, input).manager.desired
            &&& on_input(after, input).manager.phase != Phase::Connecting
        }),
{
}

/// Without a command to connect, a session that is not wanted is never
/// connected.
pub proof fn law_only_a_command_connects(m: ManagerView, inputs: Seq<ManagerInputView>)
    requires
        valid(m),
        !m.desired,
        m.phase == Phase::Idle || m.phase == Phase::Stopped,
        possible(m, inputs),
        forall|i: int|
            0 <= i < inputs.len() ==> #[trigger] inputs[i] != told(SessionCommandView::Connect),
    ensures
        ({
            let after = run(m, inputs).manager;
            &&& valid(after) && !after.desired && !after.active
            &&& after.phase == Phase::Idle || after.phase == Phase::Stopped
        }),
    decreases inputs.len(),
{
    if inputs.len() > 0 {
        let front = inputs.drop_last();
        assert forall|i: int| 0 <= i < front.len() implies #[trigger] front[i] != told(
            SessionCommandView::Connect,
        ) by {
            assert(front[i] == inputs[i]);
        }
        law_only_a_command_connects(m, front);
        assert(inputs.last() == inputs[inputs.len() - 1]);
        law_step_keeps_validity(run(m, front).manager, inputs.last());
    }
}

/// A remote program that ends by itself ends the session: its status is told,
/// the connection is closed, and no retry follows.
pub proof fn law_exit_status_ends_the_session(m: ManagerView, status: u32)
    requires
        valid(m),
        accepts(
            m,
            ManagerInputView::Connection(
                Some(ConnectionEventView::Closed { exit_status: Some(status) }),
            ),
        ),
    ensures
        ({
            let ended = on_input(
                m,
                ManagerInputView::Connection(
                    Some(ConnectionEventView::Closed { exit_status: Some(status) }),
                ),
            );
            let told_so = seq![
                ManagerActionView::Close,
                ManagerActionView::Emit(SessionEventView::ExitStatus(status)),
            ];
            &&& !ended.manager.desired && !ended.manager.active && !ended.manager.retry
            &&& ended.manager.state == SessionState::Disconnected
            &&& ended.actions == if m.state == SessionState::Disconnected {
                told_so
            } else {
                told_so.push(
                    ManagerActionView::Emit(
                        SessionEventView::StateChanged(SessionState::Disconnected),
                    ),
                )
            }
        }),
{
    let ended = on_input(
        m,
        ManagerInputView::Connection(Some(ConnectionEventView::Closed { exit_status: Some(status) })),
    );
    let told_so = seq![
        ManagerActionView::Close,
        ManagerActionView::Emit(SessionEventView::ExitStatus(status)),
    ];
    assert(ended.actions =~= if m.state == SessionState::Disconnected {
        told_so
    } else {
        told_so.push(
            ManagerActionView::Emit(SessionEventView::StateChanged(SessionState::Disconnected)),
        )
    });
}

/// Whether an input tells that the open connection is lost.
pub open spec fn loses_connection(input: ManagerInputView) -> bool {
    match input {
        ManagerInputView::Connection(None) => true,
        ManagerInputView::Connection(Some(ConnectionEventView::Closed { exit_status: None })) => true,
        ManagerInputView::Written(Err(_)) => true,
        ManagerInputView::Resized(Err(_)) => true,
        _ => false,
    }
}

/// A connection that is lost, however that shows, is closed and retried after
/// one second.
pub proof fn law_lost_connection_is_retried(m: ManagerView, input: ManagerInputView)
    requires
        valid(m),
        accepts(m, input),
        loses_connection(input),
    ensures
        ({
            let lost = on_input(m, input);
            &&& lost.manager.desired && lost.manager.retry && !lost.manager.active
            &&& lost.manager.attempt == 1
            &&& lost.manager.phase == Phase::Idle
            &&& lost.actions.contains(ManagerActionView::Close)
            &&& lost.actions.contains(ManagerActionView::ScheduleRetry(delay(1)))
        }),
        delay_secs(1) == 1,
{
    vstd::arithmetic::power2::lemma2_to64();
    let actions = on_input(m, input).actions;
    let first: int = match input {
        ManagerInputView::Connection(_) => 0,
        _ => 1,
    };
    assert(actions[first] == ManagerActionView::Close);
    assert(actions[first + 2] == ManagerActionView::ScheduleRetry(delay(1)));
}

/// A failed attempt to connect is reported, counted, and followed by a retry
/// whose wait grows with the count.
pub proof fn law_failed_attempt_is_retried(m: ManagerView, error: Seq<char>)
    requires
        valid(m),
        accepts(m, ManagerInputView::Connected(Err(error))),
    ensures
        ({
            let failed = on_input(m, ManagerInputView::Connected(Err(error)));
            let attempt = next_attempt(m.attempt);
            &&& failed.manager == (ManagerView {
                state: SessionState::Reconnecting { attempt, delay: delay(attempt) },
                retry: true,
                attempt,
                phase: Phase::Idle,
                ..m
            })
            &&& failed.actions.len() >= 2
            &&& failed.actions[0] == ManagerActionView::Emit(SessionEventView::Error(error))
            &&& failed.actions[1] == ManagerActionView::ScheduleRetry(delay(attempt))
        }),
{
}

/// The manager after the retry timer ran out and the attempt failed, once for
/// each of the errors.
pub open spec fn after_failures(m: ManagerView, errors: Seq<Seq<char>>) -> ManagerView
    decreases errors.len(),
{
    if errors.len() == 0 {
        m
    } else {
        let before = after_failures(m, errors.drop_last());
        let trying = on_input(before, ManagerInputView::RetryDue).manager;
        on_input(trying, ManagerInputView::Connected(Err(errors.last()))).manager
    }
}

/// A server that cannot be reached is retried for ever: each failure is
/// counted, and after each the next attempt is pending, at most thirty seconds
/// away, and is made when its time has come.
pub proof fn law_retries_never_end(m: ManagerView, errors: Seq<Seq<char>>)
    requires
        valid(m),
        accepts(m, ManagerInputView::RetryDue),
    ensures
        ({
            let after = after_failures(m, errors);
            &&& valid(after)
            &&& accepts(after, ManagerInputView::RetryDue)
            &&& after.attempt == if m.attempt + errors.len() < u32::MAX {
                m.attempt + errors.len()
            } else {
                u32::MAX as int
            }
            &&& after.state == (SessionState::Reconnecting {
                attempt: after.attempt,
                delay: delay(after.attempt),
            })
            &&& 1 <= delay_secs(after.attempt) <= 30
            &&& on_input(after, ManagerInputView::RetryDue).manager.phase == Phase::Connecting
            &&& on_input(after, ManagerInputView::RetryDue).actions.last()
                == ManagerActionView::Connect(m.pending_size)
        }),
    decreases errors.len(),
{
    law_delay_is_bounded(after_failures(m, errors).attempt);
    if errors.len() > 0 {
        law_retries_never_end(m, errors.drop_last());
        let before = after_failures(m, errors.drop_last());
        law_step_keeps_validity(before, ManagerInputView::RetryDue);
        let trying = on_input(before, ManagerInputView::RetryDue).manager;
        law_step_keeps_validity(trying, ManagerInputView::Connected(Err(errors.last())));
    }
}

/// A connection that opens is announced, and forgets the failures before it.
pub proof fn law_connection_resets_the_count(m: ManagerView)
    requires
        valid(m),
        accepts(m, ManagerInputView::Connected(Ok(()))),
    ensures
        on_input(m, ManagerInputView::Connected(Ok(()))).manager == (ManagerView {
            active: true,
            attempt: 0,
            phase: Phase::Idle,
            ..m
        }),
        on_input(m, ManagerInputView::Connected(Ok(()))).actions == seq![
            ManagerActionView::Emit(SessionEventView::StateChanged(SessionState::Connected)),
        ],
{
    assert(on_input(m, ManagerInputView::Connected(Ok(()))).actions =~= seq![
        ManagerActionView::Emit(SessionEventView::StateChanged(SessionState::Connected)),
    ]);
}

/// A command to connect starts an attempt at once where no connection is open,
/// whatever retry is pending.
pub proof fn law_connect_starts_an_attempt(m: ManagerView)
    requires
        valid(m),
        accepts(m, told(SessionCommandView::Connect)),
        !m.active,
    ensures
        on_input(m, told(SessionCommandView::Connect)).manager == (ManagerView {
            desired: true,
            retry: false,
            phase: Phase::Connecting,
            ..m
        }),
        on_input(m, told(SessionCommandView::Connect)).actions == seq![
            ManagerActionView::Emit(SessionEventView::StateChanged(SessionState::Connecting)),
            ManagerActionView::Connect(m.pending_size),
        ],
{
    assert(on_input(m, told(SessionCommandView::Connect)).actions =~= seq![
        ManagerActionView::Emit(SessionEventView::StateChanged(SessionState::Connecting)),
        ManagerActionView::Connect(m.pending_size),
    ]);
}

/// A command to connect changes nothing while a connection is open.
pub proof fn law_second_connect_does_nothing(m: ManagerView)
    requires
        valid(m),
        accepts(m, told(SessionCommandView::Connect)),
        m.active,
    ensures
        on_input(m, told(SessionCommandView::Connect)).manager == m,
        on_input(m, told(SessionCommandView::Connect)).actions.len() == 0,
{
}

/// A command to retry moves a pending retry forward to now; without a pending
/// retry it changes nothing.
pub proof fn law_retry_command_is_an_early_retry(m: ManagerView)
    requires
        valid(m),
        accepts(m, told(SessionCommandView::Retry)),
    ensures
        m.retry ==> on_input(m, told(SessionCommandView::Retry)) == on_input(
            m,
            ManagerInputView::RetryDue,
        ),
        !m.retry ==> on_input(m, told(SessionCommandView::Retry)).manager == m && on_input(
            m,
            told(SessionCommandView::Retry),
        ).actions.len() == 0,
{
}

/// A shutdown closes the connection, tells nothing, and is the last thing that
/// happens; so is the loss of everyone who could send a command.
pub proof fn law_shutdown_is_silent_and_last(
    m: ManagerView,
    input: ManagerInputView,
    later: ManagerInputView,
)
    requires
        valid(m),
        accepts(m, input),
        input == told(SessionCommandView::Shutdown) || input == ManagerInputView::Command(None),
    ensures
        on_input(m, input).actions == if m.active {
            seq![ManagerActionView::Close, ManagerActionView::Stop]
        } else {
            seq![ManagerActionView::Stop]
        },
        !accepts(on_input(m, input).manager, later),
{
    assert(on_input(m, input).actions =~= if m.active {
        seq![ManagerActionView::Close, ManagerActionView::Stop]
    } else {
        seq![ManagerActionView::Stop]
    });
}

/// Whether an action has an outcome that the manager waits for.
pub open spec fn has_outcome(action: ManagerActionView) -> bool {
    match action {
        ManagerActionView::Connect(_) => true,
        ManagerActionView::Write(_) => true,
        ManagerActionView::Resize(_) => true,
        _ => false,
    }
}

/// The manager waits for an outcome exactly where its last action has one, and
/// no action before the last has one.
pub proof fn law_outcome_is_awaited_last(m: ManagerView, input: ManagerInputView)
    requires
        valid(m),
        accepts(m, input),
    ensures
        ({
            let decided = on_input(m, input);
            let last = decided.actions.len() - 1;
            &&& forall|i: int|
                0 <= i < last ==> !has_outcome(#[trigger] decided.actions[i])
            &&& decided.actions.len() == 0 ==> decided.manager.phase == Phase::Idle
            &&& decided.actions.len() > 0 ==> {
                &&& decided.actions[last] is Connect == (decided.manager.phase == Phase::Connecting)
                &&& decided.actions[last] is Write == (decided.manager.phase == Phase::Writing)
                &&& decided.actions[last] is Resize == (decided.manager.phase == Phase::Resizing)
                &&& decided.actions[last] is Stop == (decided.manager.phase == Phase::Stopped)
            }
        }),
{
}

/// Output is passed on as it came, and changes nothing else.
pub proof fn law_output_is_passed_on(m: ManagerView, data: Seq<u8>)
    requires
        valid(m),
        accepts(m, ManagerInputView::Connection(Some(ConnectionEventView::Output(data)))),
    ensures
        ({
            let passed = on_input(
                m,
                ManagerInputView::Connection(Some(ConnectionEventView::Output(data))),
            );
            &&& passed.manager == m
            &&& passed.actions == seq![ManagerActionView::Emit(SessionEventView::Output(data))]
        }),
{
    let passed = on_input(
        m,
        ManagerInputView::Connection(Some(ConnectionEventView::Output(data))),
    );
    assert(passed.actions =~= seq![ManagerActionView::Emit(SessionEventView::Output(data))]);
}

/// The output among actions, in order.
pub open spec fn output_told(actions: Seq<ManagerActionView>) -> Seq<Seq<u8>>
    decreases actions.len(),
{
    if actions.len() == 0 {
        Seq::empty()
    } else {
        let before = output_told(actions.drop_last());
        match actions.last() {
            ManagerActionView::Emit(SessionEventView::Output(data)) => before.push(data),
            _ => before,
        }
    }
}

/// The output among inputs, in order.
pub open spec fn output_received(inputs: Seq<ManagerInputView>) -> Seq<Seq<u8>>
    decreases inputs.len(),
{
    if inputs.len() == 0 {
        Seq::empty()
    } else {
        let before = output_received(inputs.drop_last());
        match inputs.last() {
            ManagerInputView::Connection(Some(ConnectionEventView::Output(data))) => before.push(
                data,
            ),
            _ => before,
        }
    }
}

proof fn lemma_output_told_adds_up(a: Seq<ManagerActionView>, b: Seq<ManagerActionView>)
    ensures
        output_told(a + b) == output_told(a) + output_told(b),
    decreases b.len(),
{
    if b.len() == 0 {
        assert(a + b =~= a);
    } else {
        lemma_output_told_adds_up(a, b.drop_last());
        assert((a + b).drop_last() =~= a + b.drop_last());
        assert(output_told(a + b) =~= output_told(a) + output_told(b));
    }
}

proof fn lemma_no_output_told(actions: Seq<ManagerActionView>)
    requires
        forall|i: int|
            0 <= i < actions.len() ==> !(#[trigger] actions[i] matches ManagerActionView::Emit(
                SessionEventView::Output(_),
            )),
    ensures
        output_told(actions) == Seq::<Seq<u8>>::empty(),
    decreases actions.len(),
{
    if actions.len() > 0 {
        let front = actions.drop_last();
        assert forall|i: int| 0 <= i < front.len() implies !(
        #[trigger] front[i] matches ManagerActionView::Emit(SessionEventView::Output(_))) by {
            assert(front[i] == actions[i]);
        }
        lemma_no_output_told(front);
        assert(actions.last() == actions[actions.len() - 1]);
    }
}

/// All output of all connections is passed on, complete and in order, and no
/// other output is.
pub proof fn law_no_output_is_lost(m: ManagerView, inputs: Seq<ManagerInputView>)
    ensures
        output_told(run(m, inputs).actions) == output_received(inputs),
    decreases inputs.len(),
{
    if inputs.len() > 0 {
        let before = run(m, inputs.drop_last());
        let last = on_input(before.manager, inputs.last());
        law_no_output_is_lost(m, inputs.drop_last());
        lemma_output_told_adds_up(before.actions, last.actions);
        match inputs.last() {
            ManagerInputView::Connection(Some(ConnectionEventView::Output(data))) => {
                let told_one = ManagerActionView::Emit(SessionEventView::Output(data));
                assert(last.actions =~= Seq::empty().push(told_one));
                lemma_no_output_told(last.actions.drop_last());
                assert(output_told(last.actions) =~= seq![data]);
            },
            _ => lemma_no_output_told(last.actions),
        }
        assert(output_told(run(m, inputs).actions) =~= output_received(inputs));
    }
}

/// The connection is closed exactly when it was open and is no longer.
pub proof fn law_closes_what_was_open(m: ManagerView, input: ManagerInputView)
    requires
        valid(m),
        accepts(m, input),
    ensures
        on_input(m, input).actions.contains(ManagerActionView::Close) <==> (m.active && !on_input(
            m,
            input,
        ).manager.active),
{
    let actions = on_input(m, input).actions;
    if m.active && !on_input(m, input).manager.active {
        let at: int = match input {
            ManagerInputView::Written(_) => 1,
            ManagerInputView::Resized(_) => 1,
            _ => 0,
        };
        assert(actions[at] == ManagerActionView::Close);
    }
}

/// Recording a state makes it the state, and announces it unless it was the
/// state already; recording it again changes nothing and announces nothing.
pub proof fn law_recording_again_does_nothing(decision: Decision, state: SessionState)
    ensures
        decision.recording(state).manager == (ManagerView { state, ..decision.manager }),
        decision.recording(state).actions == if decision.manager.state == state {
            decision.actions
        } else {
            decision.actions.push(
                ManagerActionView::Emit(SessionEventView::StateChanged(state)),
            )
        },
        decision.recording(state).recording(state) == decision.recording(state),
{
}

/// A recorded state is announced exactly when it changes.
pub proof fn law_recorded_state_is_announced_once(
    m: ManagerView,
    input: ManagerInputView,
    state: SessionState,
)
    requires
        valid(m),
        accepts(m, input),
        state != SessionState::Connecting,
        state != SessionState::Connected,
    ensures
        on_input(m, input).actions.contains(
            ManagerActionView::Emit(SessionEventView::StateChanged(state)),
        ) <==> (m.state != state && on_input(m, input).manager.state == state),
{
    let decided = on_input(m, input);
    if m.state != state && decided.manager.state == state {
        assert(decided.actions.last() == ManagerActionView::Emit(
            SessionEventView::StateChanged(state),
        ));
    }
}

} // verus!
