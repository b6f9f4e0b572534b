use arylterm::config::{
    reconnect_delay, AuthMethod, HostKeyPolicy, SshTarget, TerminalSize, TmuxSessionConfig,
};
use arylterm::manager::{
    ConnectionEvent, ManagerAction, ManagerInput, SessionCommand, SessionEvent, SessionManager,
    SessionState,
};
use bytes::Bytes;
use std::time::Duration;

fn test_config() -> TmuxSessionConfig {
    TmuxSessionConfig {
        target: SshTarget {
            host: "127.0.0.1".to_string(),
            port: 22,
            username: "tester".to_string(),
        },
        auth: AuthMethod::Password("secret".to_string()),
        host_key_policy: HostKeyPolicy::InsecureAcceptAny,
        tmux_session: "main".to_string(),
        term: "xterm-256color".to_string(),
        size: TerminalSize::default(),
        keepalive_interval: Duration::from_secs(15),
        keepalive_max: 3,
    }
}

/// One line for each action.
fn lines(actions: Vec<ManagerAction>) -> Vec<String> {
    actions
        .into_iter()
        .map(|action| match action {
            ManagerAction::Emit(SessionEvent::StateChanged(SessionState::Reconnecting {
                attempt,
                delay,
            })) => format!("state Reconnecting {} {}", attempt, delay.as_secs()),
            ManagerAction::Emit(SessionEvent::StateChanged(state)) => format!("state {:?}", state),
            ManagerAction::Emit(SessionEvent::Output(data)) => format!("output {:?}", data),
            ManagerAction::Emit(SessionEvent::ExitStatus(status)) => format!("exit {}", status),
            ManagerAction::Emit(SessionEvent::Error(message)) => format!("error {}", message),
            ManagerAction::Connect(size) => format!("connect {}x{}", size.columns, size.rows),
            ManagerAction::Write(data) => format!("write {:?}", data),
            ManagerAction::Resize(size) => format!("resize {}x{}", size.columns, size.rows),
            ManagerAction::Close => "close".to_string(),
            ManagerAction::ScheduleRetry(wait) => format!("retry in {}", wait.as_secs()),
            ManagerAction::Stop => "stop".to_string(),
        })
        .collect()
}

fn step(manager: &mut SessionManager, input: ManagerInput) -> Vec<String> {
    assert!(manager.accepts(&input), "{:?}", input);
    lines(manager.step(input))
}

fn command(manager: &mut SessionManager, command: SessionCommand) -> Vec<String> {
    step(manager, ManagerInput::Command(Some(command)))
}

fn failure(text: &str) -> Result<(), String> {
    Err(text.to_string())
}

fn size(columns: u32, rows: u32) -> TerminalSize {
    TerminalSize { columns, rows, pixel_width: 0, pixel_height: 0 }
}

fn started() -> SessionManager {
    SessionManager::new(&test_config()).0
}

fn connected() -> SessionManager {
    let mut manager = started();
    assert_eq!(
        command(&mut manager, SessionCommand::Connect),
        vec!["state Connecting", "connect 120x40"]
    );
    assert_eq!(
        step(&mut manager, ManagerInput::Connected(Ok(()))),
        vec!["state Connected"]
    );
    manager
}

#[test]
fn write_is_rejected_without_replaying_input() {
    let (mut manager, actions) = SessionManager::new(&test_config());

    assert!(matches!(
        actions.as_slice(),
        [ManagerAction::Emit(SessionEvent::StateChanged(SessionState::Disconnected))]
    ));

    let actions = manager.step(ManagerInput::Command(Some(SessionCommand::Write(
        Bytes::from_static(b"echo should not be queued"),
    ))));

    assert!(matches!(
        actions.as_slice(),
        [ManagerAction::Emit(SessionEvent::Error(message))]
            if message == "cannot write while session is disconnected"
    ));

    assert_eq!(
        command(&mut manager, SessionCommand::Connect),
        vec!["state Connecting", "connect 120x40"]
    );
    assert_eq!(
        step(&mut manager, ManagerInput::Connected(Ok(()))),
        vec!["state Connected"]
    );
    assert_eq!(command(&mut manager, SessionCommand::Shutdown), vec!["close", "stop"]);
}

#[test]
fn resize_is_accepted_while_disconnected() {
    let (mut manager, actions) = SessionManager::new(&test_config());
    assert_eq!(actions.len(), 1);

    let actions = manager.step(ManagerInput::Command(Some(SessionCommand::Resize(
        TerminalSize {
            columns: 160,
            rows: 48,
            pixel_width: 0,
            pixel_height: 0,
        },
    ))));

    assert!(actions.is_empty());
    assert_eq!(
        command(&mut manager, SessionCommand::Connect),
        vec!["state Connecting", "connect 160x48"]
    );
    assert_eq!(
        step(&mut manager, ManagerInput::Connected(failure("no"))),
        vec!["error no", "retry in 1", "state Reconnecting 1 1"]
    );
    assert_eq!(command(&mut manager, SessionCommand::Shutdown), vec!["stop"]);
}

#[test]
fn last_size_counts_across_connections() {
    let mut manager = connected();
    assert_eq!(
        command(&mut manager, SessionCommand::Resize(size(80, 24))),
        vec!["resize 80x24"]
    );
    assert!(step(&mut manager, ManagerInput::Resized(Ok(()))).is_empty());
    assert_eq!(command(&mut manager, SessionCommand::Disconnect), vec!["close"]);
    assert_eq!(
        command(&mut manager, SessionCommand::Connect),
        vec!["state Connecting", "connect 80x24"]
    );
}

#[test]
fn connected_session_passes_input_and_output() {
    let mut manager = connected();
    assert!(manager.connection_events_open());
    assert_eq!(
        command(&mut manager, SessionCommand::Write(Bytes::from_static(b"ls\n"))),
        vec!["write b\"ls\\n\""]
    );
    assert!(step(&mut manager, ManagerInput::Written(Ok(()))).is_empty());
    assert_eq!(
        step(
            &mut manager,
            ManagerInput::Connection(Some(ConnectionEvent::Output(Bytes::from_static(b"out"))))
        ),
        vec!["output b\"out\""]
    );
    assert!(command(&mut manager, SessionCommand::Connect).is_empty());
    assert!(command(&mut manager, SessionCommand::Retry).is_empty());
}

#[test]
fn exit_status_ends_the_session() {
    let mut manager = connected();
    assert_eq!(
        step(
            &mut manager,
            ManagerInput::Connection(Some(ConnectionEvent::Closed { exit_status: Some(3) }))
        ),
        vec!["close", "exit 3"]
    );
    assert_eq!(manager.state(), SessionState::Disconnected);
    assert!(!manager.connection_events_open());
    assert!(!manager.retry_pending());
    assert!(!manager.accepts(&ManagerInput::RetryDue));
    assert!(command(&mut manager, SessionCommand::Retry).is_empty());
}

#[test]
fn lost_connection_is_retried() {
    for gone in [None, Some(ConnectionEvent::Closed { exit_status: None })] {
        let mut manager = connected();
        assert_eq!(
            step(&mut manager, ManagerInput::Connection(gone)),
            vec![
                "close",
                "error remote SSH channel closed",
                "retry in 1",
                "state Reconnecting 1 1"
            ]
        );
        assert!(manager.retry_pending());
        assert_eq!(
            manager.state(),
            SessionState::Reconnecting { attempt: 1, delay: reconnect_delay(1) }
        );
    }
}

#[test]
fn failed_write_loses_the_connection() {
    let mut manager = connected();
    command(&mut manager, SessionCommand::Write(Bytes::from_static(b"x")));
    assert_eq!(
        step(&mut manager, ManagerInput::Written(failure("broken pipe"))),
        vec![
            "error failed to write remote input: broken pipe",
            "close",
            "error broken pipe",
            "retry in 1",
            "state Reconnecting 1 1"
        ]
    );
}

#[test]
fn failed_resize_loses_the_connection() {
    let mut manager = connected();
    command(&mut manager, SessionCommand::Resize(size(1, 2)));
    assert_eq!(
        step(&mut manager, ManagerInput::Resized(failure("broken pipe"))),
        vec![
            "error failed to resize remote PTY: broken pipe",
            "close",
            "error broken pipe",
            "retry in 1",
            "state Reconnecting 1 1"
        ]
    );
    assert_eq!(
        step(&mut manager, ManagerInput::RetryDue),
        vec!["state Connecting", "connect 1x2"]
    );
}

#[test]
fn failures_back_off() {
    let mut manager = started();
    command(&mut manager, SessionCommand::Connect);
    let waits: [u64; 8] = [1, 2, 4, 8, 16, 30, 30, 30];
    for (i, wait) in waits.iter().enumerate() {
        assert_eq!(
            step(&mut manager, ManagerInput::Connected(failure("refused"))),
            vec![
                "error refused".to_string(),
                format!("retry in {}", wait),
                format!("state Reconnecting {} {}", i + 1, wait),
            ]
        );
        let expected = vec!["state Connecting", "connect 120x40"];
        if i % 2 == 0 {
            assert_eq!(step(&mut manager, ManagerInput::RetryDue), expected);
        } else {
            assert_eq!(command(&mut manager, SessionCommand::Retry), expected);
        }
        assert!(!manager.retry_pending());
    }
}

#[test]
fn connection_resets_the_count() {
    let mut manager = started();
    command(&mut manager, SessionCommand::Connect);
    step(&mut manager, ManagerInput::Connected(failure("refused")));
    step(&mut manager, ManagerInput::RetryDue);
    step(&mut manager, ManagerInput::Connected(failure("refused")));
    step(&mut manager, ManagerInput::RetryDue);
    assert_eq!(
        step(&mut manager, ManagerInput::Connected(Ok(()))),
        vec!["state Connected"]
    );
    assert_eq!(
        step(&mut manager, ManagerInput::Connection(None)),
        vec![
            "close",
            "error remote SSH channel closed",
            "retry in 1",
            "state Reconnecting 1 1"
        ]
    );
}

#[test]
fn recorded_state_is_not_announced_twice() {
    let mut manager = started();
    command(&mut manager, SessionCommand::Connect);
    step(&mut manager, ManagerInput::Connected(failure("refused")));
    step(&mut manager, ManagerInput::RetryDue);
    step(&mut manager, ManagerInput::Connected(Ok(())));
    assert_eq!(
        step(&mut manager, ManagerInput::Connection(None)),
        vec!["close", "error remote SSH channel closed", "retry in 1"]
    );
}

#[test]
fn disconnect_cancels_the_retry() {
    let mut manager = started();
    command(&mut manager, SessionCommand::Connect);
    step(&mut manager, ManagerInput::Connected(failure("refused")));
    assert!(manager.accepts(&ManagerInput::RetryDue));
    assert_eq!(
        command(&mut manager, SessionCommand::Disconnect),
        vec!["state Disconnected"]
    );
    assert!(!manager.accepts(&ManagerInput::RetryDue));
    assert!(command(&mut manager, SessionCommand::Retry).is_empty());
    assert!(command(&mut manager, SessionCommand::Disconnect).is_empty());
}

#[test]
fn connect_command_during_a_pending_retry_connects_at_once() {
    let mut manager = started();
    command(&mut manager, SessionCommand::Connect);
    step(&mut manager, ManagerInput::Connected(failure("refused")));
    assert_eq!(
        command(&mut manager, SessionCommand::Connect),
        vec!["state Connecting", "connect 120x40"]
    );
    assert_eq!(
        step(&mut manager, ManagerInput::Connected(failure("refused"))),
        vec!["error refused", "retry in 2", "state Reconnecting 2 2"]
    );
}

#[test]
fn nothing_follows_the_end() {
    let mut manager = connected();
    assert_eq!(step(&mut manager, ManagerInput::Command(None)), vec!["close", "stop"]);
    assert!(!manager.accepts(&ManagerInput::Command(Some(SessionCommand::Connect))));
    assert!(!manager.accepts(&ManagerInput::Command(None)));
    assert!(!manager.accepts(&ManagerInput::Connection(None)));
    assert!(!manager.accepts(&ManagerInput::RetryDue));
}

#[test]
fn only_the_awaited_outcome_is_accepted() {
    let mut manager = started();
    assert!(!manager.accepts(&ManagerInput::Connected(Ok(()))));
    command(&mut manager, SessionCommand::Connect);
    assert!(manager.accepts(&ManagerInput::Connected(Ok(()))));
    assert!(!manager.accepts(&ManagerInput::Written(Ok(()))));
    assert!(!manager.accepts(&ManagerInput::Resized(Ok(()))));
    assert!(!manager.accepts(&ManagerInput::Command(Some(SessionCommand::Disconnect))));
}

#[test]
fn states_compare_by_value() {
    let waiting = |attempt: u32, secs: u64| SessionState::Reconnecting {
        attempt,
        delay: Duration::from_secs(secs),
    };
    assert_eq!(waiting(1, 1), waiting(1, 1));
    assert_ne!(waiting(1, 1), waiting(2, 1));
    assert_ne!(waiting(1, 1), waiting(1, 2));
    let states = [
        SessionState::Disconnected,
        SessionState::Connecting,
        SessionState::Connected,
        waiting(1, 1),
        SessionState::Failed,
    ];
    for (i, a) in states.iter().enumerate() {
        for (j, b) in states.iter().enumerate() {
            assert_eq!(a == b, i == j);
        }
    }
}
