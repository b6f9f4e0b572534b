//! What a session manager does with each thing that can happen: the actions,
//! all of them and in order, and what has changed in the manager afterwards.
use crate::config::{delay, TerminalSize};
use crate::manager::{
    accepts, initial, on_input, ConnectionEventView, ManagerActionView, ManagerInputView,
    ManagerView, Phase, SessionCommandView, SessionEventView, SessionState,
};
use vstd::prelude::*;

verus! {

/// A manager starts with nothing wanted, nothing open and nothing pending, and
/// with the size it is given.
pub proof fn law_manager_starts_at_rest(size: TerminalSize)
    ensures
        ({
            let m = initial(size);
            &&& m.state == SessionState::Disconnected && m.phase == Phase::Idle
            &&& !m.desired && !m.active && !m.retry && m.attempt == 0
            &&& m.pending_size == size
        }),
{
}

/// A manager at rest takes any command, news while a connection is open, and
/// the retry timer while a retry is pending; one that waits for an outcome takes
/// just that outcome, whatever it is; one that has stopped takes nothing.
pub proof fn law_what_can_come_when(m: ManagerView, input: ManagerInputView)
    ensures
        input is Command ==> (accepts(m, input) <==> m.phase == Phase::Idle),
        input is Connection ==> (accepts(m, input) <==> m.phase == Phase::Idle && m.active),
        input is RetryDue ==> (accepts(m, input) <==> m.phase == Phase::Idle && m.retry),
        input is Connected ==> (accepts(m, input) <==> m.phase == Phase::Connecting),
        input is Written ==> (accepts(m, input) <==> m.phase == Phase::Writing),
        input is Resized ==> (accepts(m, input) <==> m.phase == Phase::Resizing),
{
}

/// A retry, whether its time has come or it is commanded, starts an attempt to
/// connect with the size last asked for, however many attempts have failed; but
/// not where no connection is wanted or one is open.
pub proof fn law_every_retry_is_an_attempt(m: ManagerView, input: ManagerInputView)
    requires
        input == ManagerInputView::RetryDue || input == ManagerInputView::Command(
            Some(SessionCommandView::Retry),
        ),
    ensures
        m.desired && !m.active ==> {
            &&& on_input(m, input).actions == seq![
                ManagerActionView::Emit(SessionEventView::StateChanged(SessionState::Connecting)),
                ManagerActionView::Connect(m.pending_size),
            ]
            &&& on_input(m, input).manager == (ManagerView {
                retry: false,
                phase: Phase::Connecting,
                ..m
            })
        },
        !m.desired || m.active ==> {
            &&& on_input(m, input).actions == Seq::<ManagerActionView>::empty()
            &&& on_input(m, input).manager == (ManagerView { retry: false, ..m })
        },
{
    if m.desired && !m.active {
        assert(on_input(m, input).actions =~= seq![
            ManagerActionView::Emit(SessionEventView::StateChanged(SessionState::Connecting)),
            ManagerActionView::Connect(m.pending_size),
        ]);
    }
}

/// A command to connect makes a connection wanted and starts an attempt with
/// the size last asked for, unless a connection is open.
pub proof fn law_connect_command(m: ManagerView)
    ensures
        ({
            let told = on_input(m, ManagerInputView::Command(Some(SessionCommandView::Connect)));
            &&& !m.active ==> {
                &&& told.actions == seq![
                    ManagerActionView::Emit(
                        SessionEventView::StateChanged(SessionState::Connecting),
                    ),
                    ManagerActionView::Connect(m.pending_size),
                ]
                &&& told.manager == (ManagerView {
                    desired: true,
                    retry: false,
                    phase: Phase::Connecting,
                    ..m
                })
            }
            &&& m.active ==> {
                &&& told.actions == Seq::<ManagerActionView>::empty()
                &&& told.manager == (ManagerView { desired: true, retry: false, ..m })
            }
        }),
{
    let told = on_input(m, ManagerInputView::Command(Some(SessionCommandView::Connect)));
    if !m.active {
        assert(told.actions =~= seq![
            ManagerActionView::Emit(SessionEventView::StateChanged(SessionState::Connecting)),
            ManagerActionView::Connect(m.pending_size),
        ]);
    }
}

/// A command to disconnect closes an open connection, forgets what was wanted,
/// pending and counted, and tells that the session is disconnected where
/// another state was told last.
pub proof fn law_disconnect_command(m: ManagerView)
    ensures
        ({
            let told = on_input(m, ManagerInputView::Command(Some(SessionCommandView::Disconnect)));
            let closes = if m.active {
                seq![ManagerActionView::Close]
            } else {
                seq![]
            };
            let tells = if m.state != SessionState::Disconnected {
                seq![
                    ManagerActionView::Emit(
                        SessionEventView::StateChanged(SessionState::Disconnected),
                    ),
                ]
            } else {
                seq![]
            };
            &&& told.actions == closes + tells
            &&& told.manager == (ManagerView {
                state: SessionState::Disconnected,
                desired: false,
                active: false,
                retry: false,
                attempt: 0,
                ..m
            })
        }),
{
}

/// Input is sent over an open connection as it is, and its outcome is awaited;
/// without a connection it is answered with an error and changes nothing.
pub proof fn law_write_command(m: ManagerView, data: Seq<u8>)
    ensures
        ({
            let told = on_input(
                m,
                ManagerInputView::Command(Some(SessionCommandView::Write(data))),
            );
            &&& m.active ==> {
                &&& told.actions == seq![ManagerActionView::Write(data)]
                &&& told.manager == (ManagerView { phase: Phase::Writing, ..m })
            }
            &&& !m.active ==> {
                &&& told.actions == seq![
                    ManagerActionView::Emit(
                        SessionEventView::Error("cannot write while session is disconnected"@),
                    ),
                ]
                &&& told.manager == m
            }
        }),
{
    let told = on_input(m, ManagerInputView::Command(Some(SessionCommandView::Write(data))));
    if m.active {
        assert(told.actions =~= seq![ManagerActionView::Write(data)]);
    } else {
        assert(told.actions =~= seq![
            ManagerActionView::Emit(
                SessionEventView::Error("cannot write while session is disconnected"@),
            ),
        ]);
    }
}

/// A new size, whatever it is, goes to the remote terminal of an open
/// connection, where its outcome is awaited; either way it is the size for the
/// connections to come.
pub proof fn law_resize_command(m: ManagerView, size: TerminalSize)
    ensures
        ({
            let told = on_input(
                m,
                ManagerInputView::Command(Some(SessionCommandView::Resize(size))),
            );
            &&& m.active ==> {
                &&& told.actions == seq![ManagerActionView::Resize(size)]
                &&& told.manager == (ManagerView {
                    pending_size: size,
                    phase: Phase::Resizing,
                    ..m
                })
            }
            &&& !m.active ==> {
                &&& told.actions == Seq::<ManagerActionView>::empty()
                &&& told.manager == (ManagerView { pending_size: size, ..m })
            }
        }),
{
    let told = on_input(m, ManagerInputView::Command(Some(SessionCommandView::Resize(size))));
    if m.active {
        assert(told.actions =~= seq![ManagerActionView::Resize(size)]);
    }
}

/// A shutdown, or the loss of everyone who could send a command, closes an open
/// connection and stops the manager, and tells nothing.
pub proof fn law_shutdown_command(m: ManagerView, input: ManagerInputView)
    requires
        input == ManagerInputView::Command(Some(SessionCommandView::Shutdown)) || input
            == ManagerInputView::Command(None),
    ensures
        on_input(m, input).actions == if m.active {
            seq![ManagerActionView::Close, ManagerActionView::Stop]
        } else {
            seq![ManagerActionView::Stop]
        },
        on_input(m, input).manager == (ManagerView { active: false, phase: Phase::Stopped, ..m }),
{
    assert(on_input(m, input).actions =~= if m.active {
        seq![ManagerActionView::Close, ManagerActionView::Stop]
    } else {
        seq![ManagerActionView::Stop]
    });
}

/// Output is told as it came and changes nothing.
pub proof fn law_output_arrives(m: ManagerView, data: Seq<u8>)
    ensures
        ({
            let arrived = on_input(
                m,
                ManagerInputView::Connection(Some(ConnectionEventView::Output(data))),
            );
            &&& arrived.actions == seq![ManagerActionView::Emit(SessionEventView::Output(data))]
            &&& arrived.manager == m
        }),
{
    let arrived = on_input(
        m,
        ManagerInputView::Connection(Some(ConnectionEventView::Output(data))),
    );
    assert(arrived.actions =~= seq![ManagerActionView::Emit(SessionEventView::Output(data))]);
}

/// The end of the remote program closes the connection, tells the status,
/// whatever it is, and leaves a session that is not wanted any more.
pub proof fn law_remote_program_ends(m: ManagerView, status: u32)
    requires
        m.active,
    ensures
        ({
            let ended = on_input(
                m,
                ManagerInputView::Connection(
                    Some(ConnectionEventView::Closed { exit_status: Some(status) }),
                ),
            );
            let tells = if m.state != SessionState::Disconnected {
                seq![
                    ManagerActionView::Emit(
                        SessionEventView::StateChanged(SessionState::Disconnected),
                    ),
                ]
            } else {
                seq![]
            };
            &&& ended.actions == seq![
                ManagerActionView::Close,
                ManagerActionView::Emit(SessionEventView::ExitStatus(status)),
            ] + tells
            &&& ended.manager == (ManagerView {
                state: SessionState::Disconnected,
                desired: false,
                active: false,
                retry: false,
                attempt: 0,
                ..m
            })
        }),
{
}

/// An attempt that succeeds gives an open connection, told as such, with no
/// failure counted.
pub proof fn law_attempt_succeeds(m: ManagerView)
    ensures
        ({
            let opened = on_input(m, ManagerInputView::Connected(Ok(())));
            &&& opened.actions == seq![
                ManagerActionView::Emit(SessionEventView::StateChanged(SessionState::Connected)),
            ]
            &&& opened.manager == (ManagerView { active: true, attempt: 0, phase: Phase::Idle, ..m })
        }),
{
    let opened = on_input(m, ManagerInputView::Connected(Ok(())));
    assert(opened.actions =~= seq![
        ManagerActionView::Emit(SessionEventView::StateChanged(SessionState::Connected)),
    ]);
}

/// An attempt that fails is told with its reason and counted, and the next one
/// is scheduled after the wait for that count; the new state is told where it
/// differs from the one told last.
pub proof fn law_attempt_fails(m: ManagerView, error: Seq<char>)
    ensures
        ({
            let failed = on_input(m, ManagerInputView::Connected(Err(error)));
            let attempt: u32 = if m.attempt == u32::MAX {
                u32::MAX
            } else {
                (m.attempt + 1) as u32
            };
            let state = SessionState::Reconnecting { attempt, delay: delay(attempt) };
            let tells = if m.state != state {
                seq![ManagerActionView::Emit(SessionEventView::StateChanged(state))]
            } else {
                seq![]
            };
            &&& failed.actions == seq![
                ManagerActionView::Emit(SessionEventView::Error(error)),
                ManagerActionView::ScheduleRetry(delay(attempt)),
            ] + tells
            &&& failed.manager == (ManagerView {
                state,
                retry: true,
                attempt,
                phase: Phase::Idle,
                ..m
            })
        }),
{
}

/// A write or a resize that succeeds changes nothing but that it is over.
pub proof fn law_outcome_is_good(m: ManagerView, input: ManagerInputView)
    requires
        input == ManagerInputView::Written(Ok(())) || input == ManagerInputView::Resized(Ok(())),
    ensures
        on_input(m, input).actions == Seq::<ManagerActionView>::empty(),
        on_input(m, input).manager == (ManagerView { phase: Phase::Idle, ..m }),
{
}

/// A wanted connection that is lost is closed and retried after the wait for
/// the failures counted. What is told first depends on how the loss shows: a
/// channel that ended is told once; a write or a resize that failed is told with
/// what failed, and then with its reason.
pub proof fn law_connection_is_lost(m: ManagerView, input: ManagerInputView, error: Seq<char>)
    requires
        m.active,
        m.desired,
        m.phase == Phase::Idle ==> error == "remote SSH channel closed"@ && (input
            == ManagerInputView::Connection(None) || input == ManagerInputView::Connection(
            Some(ConnectionEventView::Closed { exit_status: None }),
        )),
        m.phase != Phase::Idle ==> input == ManagerInputView::Written(Err(error)) || input
            == ManagerInputView::Resized(Err(error)),
    ensures
        ({
            let lost = on_input(m, input);
            let attempt: u32 = if m.attempt == u32::MAX {
                u32::MAX
            } else {
                (m.attempt + 1) as u32
            };
            let state = SessionState::Reconnecting { attempt, delay: delay(attempt) };
            let failed = match input {
                ManagerInputView::Written(_) => seq![
                    ManagerActionView::Emit(
                        SessionEventView::Error("failed to write remote input: "@ + error),
                    ),
                ],
                ManagerInputView::Resized(_) => seq![
                    ManagerActionView::Emit(
                        SessionEventView::Error("failed to resize remote PTY: "@ + error),
                    ),
                ],
                _ => seq![],
            };
            let tells = if m.state != state {
                seq![ManagerActionView::Emit(SessionEventView::StateChanged(state))]
            } else {
                seq![]
            };
            &&& lost.actions == failed + seq![
                ManagerActionView::Close,
                ManagerActionView::Emit(SessionEventView::Error(error)),
                ManagerActionView::ScheduleRetry(delay(attempt)),
            ] + tells
            &&& lost.manager == (ManagerView {
                state,
                active: false,
                retry: true,
                attempt,
                phase: Phase::Idle,
                ..m
            })
        }),
{
}

/// However many attempts have failed, once the time for a retry has come one
/// more is made; and if it succeeds, the session is connected again.
pub proof fn law_session_comes_back(m: ManagerView)
    requires
        m.desired,
        !m.active,
        m.retry,
        m.phase == Phase::Idle,
    ensures
        accepts(m, ManagerInputView::RetryDue),
        ({
            let trying = on_input(m, ManagerInputView::RetryDue).manager;
            &&& accepts(trying, ManagerInputView::Connected(Ok(())))
            &&& on_input(trying, ManagerInputView::Connected(Ok(()))).manager == (ManagerView {
                active: true,
                retry: false,
                attempt: 0,
                ..m
            })
        }),
{
}

} // verus!
