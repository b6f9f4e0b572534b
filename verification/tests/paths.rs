use arylterm::cli::{CliCommand, CliConfig};
use arylterm::config::{AuthMethod, HostKeyPolicy, SshTarget, TerminalSize, TmuxSessionConfig};
use arylterm::hostkey::check_fingerprint;
use arylterm::manager::{
    ManagerAction, ManagerInput, SessionCommand, SessionEvent, SessionManager,
};
use arylterm::session::{handshake_start, HandshakeRequest};
use arylterm::stdio::{
    on_event, on_start, on_stdin, ChannelMessage, ChannelReader, FrontendAction, ReaderAction,
};
use bytes::Bytes;
use std::time::Duration;

fn command_of(actions: Vec<FrontendAction>) -> SessionCommand {
    match actions.into_iter().next() {
        Some(FrontendAction::Send(command)) => command,
        other => panic!("{:?}", other),
    }
}

fn connected() -> SessionManager {
    let config = TmuxSessionConfig {
        target: SshTarget { host: "h".to_string(), port: 22, username: "u".to_string() },
        auth: AuthMethod::Password("p".to_string()),
        host_key_policy: HostKeyPolicy::InsecureAcceptAny,
        tmux_session: "main".to_string(),
        term: "xterm".to_string(),
        size: TerminalSize::default(),
        keepalive_interval: Duration::from_secs(15),
        keepalive_max: 3,
    };
    let mut manager = SessionManager::new(&config).0;
    manager.step(ManagerInput::Command(Some(command_of(on_start()))));
    manager.step(ManagerInput::Connected(Ok(())));
    manager
}

/// What the program does with what the manager tells.
fn program(actions: Vec<ManagerAction>) -> Vec<FrontendAction> {
    let mut done = Vec::new();
    for action in actions {
        if let ManagerAction::Emit(event) = action {
            done.extend(on_event(Some(event)));
        }
    }
    done
}

#[test]
fn output_of_both_streams_is_shown_in_order() {
    let mut manager = connected();
    let mut reader = ChannelReader::new();
    let mut screen: Vec<u8> = Vec::new();
    let messages = [
        ChannelMessage::Data(Bytes::from_static(b"one ")),
        ChannelMessage::Other,
        ChannelMessage::ExtendedData(Bytes::from_static(b"two ")),
        ChannelMessage::ExitStatus(1),
        ChannelMessage::Data(Bytes::from_static(b"three")),
    ];
    for message in messages {
        if let ReaderAction::Forward(event) = reader.on_message(Some(message)) {
            for action in program(manager.step(ManagerInput::Connection(Some(event)))) {
                match action {
                    FrontendAction::Print(data) => screen.extend_from_slice(&data),
                    other => panic!("{:?}", other),
                }
            }
        }
    }
    assert_eq!(screen, b"one two three");
}

#[test]
fn remote_status_is_the_status_of_the_program() {
    let mut manager = connected();
    let mut reader = ChannelReader::new();
    reader.on_message(Some(ChannelMessage::ExitStatus(42)));
    let event = match reader.on_message(Some(ChannelMessage::Close)) {
        ReaderAction::Finish(event) => event,
        other => panic!("{:?}", other),
    };
    let actions = program(manager.step(ManagerInput::Connection(Some(event))));
    assert!(matches!(actions.first(), Some(FrontendAction::Finish(42))));
}

#[test]
fn typed_input_is_sent() {
    let mut manager = connected();
    let command = command_of(on_stdin(b"ls\nrest of the buffer", 3));
    match manager.step(ManagerInput::Command(Some(command))).as_slice() {
        [ManagerAction::Write(data)] => assert_eq!(*data, Bytes::from_static(b"ls\n")),
        other => panic!("{:?}", other),
    }
}

#[test]
fn end_of_input_closes_the_connection() {
    let mut manager = connected();
    let command = command_of(on_stdin(b"", 0));
    let actions = manager.step(ManagerInput::Command(Some(command)));
    assert!(matches!(actions.as_slice(), [ManagerAction::Close]));
    assert!(!manager.connection_events_open());
}

#[test]
fn lost_connection_is_only_logged() {
    let mut manager = connected();
    let actions = program(manager.step(ManagerInput::Connection(None)));
    assert!(matches!(
        actions.as_slice(),
        [FrontendAction::LogError(_), FrontendAction::LogState(_)]
    ));
    assert!(matches!(on_event(Some(SessionEvent::ExitStatus(0))).as_slice(), [FrontendAction::Finish(0)]));
}

/// The policy under which a command line has the server dialled.
fn dialled_policy(options: &[&str]) -> HostKeyPolicy {
    let mut line = vec!["--host", "h", "--user", "u", "--password", "p"];
    line.extend(options);
    let line: Vec<String> = line.into_iter().map(str::to_string).collect();
    let config = match CliConfig::new(None, None).parse(&line) {
        Ok(CliCommand::Run(config)) => config.into_session_config().unwrap(),
        other => panic!("{:?}", other),
    };
    match handshake_start(&config) {
        HandshakeRequest::Dial { host_key_policy, .. } => host_key_policy,
        other => panic!("{:?}", other),
    }
}

#[test]
fn policy_goes_from_the_command_line_to_the_server() {
    let policy = dialled_policy(&["--host-key-sha256", "SHA256:x"]);
    assert_eq!(policy, HostKeyPolicy::FingerprintSha256("SHA256:x".to_string()));
    assert!(check_fingerprint(&policy, "SHA256:x"));
    assert!(!check_fingerprint(&policy, "SHA256:y"));

    let policy = dialled_policy(&["--accept-any-host-key"]);
    assert_eq!(policy, HostKeyPolicy::InsecureAcceptAny);
    let policy = dialled_policy(&["--accept-any-host-key", "--host-key-sha256", "SHA256:x"]);
    assert_eq!(policy, HostKeyPolicy::InsecureAcceptAny);
    assert!(check_fingerprint(&policy, "SHA256:y"));
}
