use arylterm::config::{AuthMethod, HostKeyPolicy, SshTarget, TerminalSize, TmuxSessionConfig};
use arylterm::session::{
    client_settings, connect_next, handshake_next, handshake_start, tmux_next, ConnectRequest,
    HandshakeRequest, Progress, Reply, TmuxRequest,
};
use std::time::Duration;

fn config(auth: AuthMethod) -> TmuxSessionConfig {
    TmuxSessionConfig {
        target: SshTarget {
            host: "example.com".to_string(),
            port: 2222,
            username: "arya".to_string(),
        },
        auth,
        host_key_policy: HostKeyPolicy::InsecureAcceptAny,
        tmux_session: "main".to_string(),
        term: "xterm".to_string(),
        size: TerminalSize { columns: 100, rows: 30, pixel_width: 1, pixel_height: 2 },
        keepalive_interval: Duration::from_secs(15),
        keepalive_max: 3,
    }
}

fn password() -> TmuxSessionConfig {
    config(AuthMethod::Password("secret".to_string()))
}

fn key() -> TmuxSessionConfig {
    config(AuthMethod::PrivateKey {
        path: "/keys/id".to_string(),
        passphrase: Some("open".to_string()),
    })
}

fn next<R: std::fmt::Debug>(progress: Progress<R>) -> R {
    match progress {
        Progress::Request(request) => request,
        other => panic!("{:?}", other),
    }
}

fn failed<R: std::fmt::Debug>(progress: Progress<R>) -> String {
    match progress {
        Progress::Failed(message) => message,
        other => panic!("{:?}", other),
    }
}

fn reason() -> Reply {
    Reply::Failed("the reason".to_string())
}

#[test]
fn settings_follow_the_config() {
    let settings = client_settings(&password());
    assert_eq!(settings.keepalive_interval, Some(Duration::from_secs(15)));
    assert_eq!(settings.keepalive_max, 3);
    assert_eq!(settings.inactivity_timeout, None);
    assert!(settings.nodelay);
}

#[test]
fn password_handshake() {
    let config = password();
    let dial = handshake_start(&config);
    match &dial {
        HandshakeRequest::Dial { host, port, settings, host_key_policy } => {
            assert_eq!(*host_key_policy, HostKeyPolicy::InsecureAcceptAny);
            assert_eq!((host.as_str(), *port), ("example.com", 2222));
            assert_eq!(settings.keepalive_max, 3);
        }
        other => panic!("{:?}", other),
    }
    let auth = next(handshake_next(&config, &dial, Reply::Done));
    match &auth {
        HandshakeRequest::AuthenticatePassword { username, password } => {
            assert_eq!((username.as_str(), password.as_str()), ("arya", "secret"));
        }
        other => panic!("{:?}", other),
    }
    assert!(matches!(handshake_next(&config, &auth, Reply::Done), Progress::Finished));
    assert_eq!(
        failed(handshake_next(&config, &dial, reason())),
        "failed to connect to example.com:2222"
    );
    assert_eq!(
        failed(handshake_next(&config, &auth, reason())),
        "password authentication failed"
    );
    assert_eq!(
        failed(handshake_next(&config, &auth, Reply::Rejected)),
        "SSH authentication rejected by server"
    );
}

#[test]
fn server_is_dialled_under_the_policy_of_the_config() {
    let mut config = password();
    config.host_key_policy = HostKeyPolicy::FingerprintSha256("SHA256:abc".to_string());
    match handshake_start(&config) {
        HandshakeRequest::Dial { host_key_policy, .. } => assert_eq!(
            host_key_policy,
            HostKeyPolicy::FingerprintSha256("SHA256:abc".to_string())
        ),
        other => panic!("{:?}", other),
    }
}

#[test]
fn rejection_ends_any_request() {
    let config = password();
    let dial = handshake_start(&config);
    assert_eq!(
        failed(handshake_next(&config, &dial, Reply::Rejected)),
        "SSH authentication rejected by server"
    );
}

#[test]
fn key_handshake() {
    let config = key();
    let dial = handshake_start(&config);
    let load = next(handshake_next(&config, &dial, Reply::Done));
    match &load {
        HandshakeRequest::LoadKey { path, passphrase } => {
            assert_eq!((path.as_str(), passphrase.as_deref()), ("/keys/id", Some("open")));
        }
        other => panic!("{:?}", other),
    }
    let query = next(handshake_next(&config, &load, Reply::Done));
    assert!(matches!(query, HandshakeRequest::QueryRsaHash));
    let auth = next(handshake_next(&config, &query, Reply::Done));
    match &auth {
        HandshakeRequest::AuthenticateKey { username } => assert_eq!(username, "arya"),
        other => panic!("{:?}", other),
    }
    assert!(matches!(handshake_next(&config, &auth, Reply::Done), Progress::Finished));
    assert_eq!(
        failed(handshake_next(&config, &load, reason())),
        "failed to load private key /keys/id"
    );
    assert_eq!(failed(handshake_next(&config, &query, reason())), "the reason");
    assert_eq!(
        failed(handshake_next(&config, &auth, reason())),
        "public key authentication failed"
    );
    assert_eq!(
        failed(handshake_next(&config, &auth, Reply::Rejected)),
        "SSH authentication rejected by server"
    );
}

#[test]
fn tmux_is_started_in_a_terminal() {
    let config = password();
    let open = TmuxRequest::OpenChannel;
    let pty = next(tmux_next(&config, &open, true));
    match &pty {
        TmuxRequest::RequestPty { term, size, want_reply } => {
            assert!(*want_reply);
            assert_eq!(term, "xterm");
            assert_eq!(*size, config.size);
        }
        other => panic!("{:?}", other),
    }
    let exec = next(tmux_next(&config, &pty, true));
    match &exec {
        TmuxRequest::Exec { command, want_reply } => {
            assert_eq!(command, "tmux new-session -A -s 'main'");
            assert!(*want_reply);
        }
        other => panic!("{:?}", other),
    }
    assert!(matches!(tmux_next(&config, &exec, true), Progress::Finished));
    assert_eq!(
        failed(tmux_next(&config, &open, false)),
        "failed to open SSH session channel"
    );
    assert_eq!(failed(tmux_next(&config, &pty, false)), "failed to request remote PTY");
    assert_eq!(
        failed(tmux_next(&config, &exec, false)),
        "failed to execute tmux attach command"
    );
}

#[test]
fn connection_is_opened_in_order() {
    let size = TerminalSize { columns: 7, rows: 8, pixel_width: 0, pixel_height: 0 };
    let open = next(connect_next(size, ConnectRequest::Handshake, Ok(())));
    assert!(matches!(open, ConnectRequest::OpenTmux));
    let apply = next(connect_next(size, open, Ok(())));
    match &apply {
        ConnectRequest::ApplySize(applied) => assert_eq!(*applied, size),
        other => panic!("{:?}", other),
    }
    assert!(matches!(connect_next(size, apply, Ok(())), Progress::Finished));
}

#[test]
fn failures_of_a_connection() {
    let size = TerminalSize::default();
    let bad = || Err("bad".to_string());
    assert_eq!(failed(connect_next(size, ConnectRequest::Handshake, bad())), "bad");
    let close = next(connect_next(size, ConnectRequest::OpenTmux, bad()));
    match &close {
        ConnectRequest::CloseSession { reason } => assert_eq!(reason, "bad"),
        other => panic!("{:?}", other),
    }
    assert_eq!(failed(connect_next(size, close, Err("worse".to_string()))), "bad");
    assert_eq!(
        failed(connect_next(size, ConnectRequest::ApplySize(size), bad())),
        "failed to apply PTY size after connection"
    );
}
