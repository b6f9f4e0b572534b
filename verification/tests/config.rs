use arylterm::config::{
    reconnect_delay, tmux_attach_command, AuthMethod, HostKeyPolicy, SshTarget, TerminalSize,
    TmuxSessionConfig,
};
use std::time::Duration;

fn test_config() -> TmuxSessionConfig {
    TmuxSessionConfig {
        target: SshTarget {
            host: "127.0.0.1".to_string(),
            port: 22,
            username: "tester".to_string(),
        },
        auth: AuthMethod::PrivateKey {
            path: "/keys/id".to_string(),
            passphrase: Some("open".to_string()),
        },
        host_key_policy: HostKeyPolicy::FingerprintSha256("SHA256:abc".to_string()),
        tmux_session: "it's".to_string(),
        term: "xterm-256color".to_string(),
        size: TerminalSize::default(),
        keepalive_interval: Duration::from_secs(15),
        keepalive_max: 3,
    }
}

#[test]
fn tmux_attach_command_quotes_session_name() {
    assert_eq!(
        tmux_attach_command("main work"),
        "tmux new-session -A -s 'main work'"
    );
    assert_eq!(
        tmux_attach_command("dev'box"),
        "tmux new-session -A -s 'dev'\"'\"'box'"
    );
}

#[test]
fn attach_command_of_an_empty_name() {
    assert_eq!(tmux_attach_command(""), "tmux new-session -A -s ''");
}

#[test]
fn attach_command_of_shell_characters() {
    assert_eq!(
        tmux_attach_command("$(rm -rf ~) ; é\n`x`"),
        "tmux new-session -A -s '$(rm -rf ~) ; é\n`x`'"
    );
    assert_eq!(
        tmux_attach_command("''"),
        "tmux new-session -A -s ''\"'\"''\"'\"''"
    );
}

#[test]
fn attach_command_of_a_config() {
    assert_eq!(
        test_config().tmux_attach_command(),
        "tmux new-session -A -s 'it'\"'\"'s'"
    );
}

#[test]
fn reconnect_delay_is_bounded() {
    assert_eq!(reconnect_delay(1), Duration::from_secs(1));
    assert_eq!(reconnect_delay(4), Duration::from_secs(8));
    assert_eq!(reconnect_delay(99), Duration::from_secs(30));
}

#[test]
fn reconnect_delay_doubles() {
    let seconds: Vec<u64> = (0..9).map(|n| reconnect_delay(n).as_secs()).collect();
    assert_eq!(seconds, vec![1, 1, 2, 4, 8, 16, 30, 30, 30]);
    assert_eq!(reconnect_delay(u32::MAX), Duration::from_secs(30));
}

#[test]
fn default_terminal_size() {
    assert_eq!(
        TerminalSize::default(),
        TerminalSize { columns: 120, rows: 40, pixel_width: 0, pixel_height: 0 }
    );
}

#[test]
fn address_is_host_and_port() {
    assert_eq!(test_config().target.address(), ("127.0.0.1", 22));
}

#[test]
fn clone_is_equal() {
    let config = test_config();
    assert_eq!(config.clone(), config);
    let other = TmuxSessionConfig {
        auth: AuthMethod::Password("secret".to_string()),
        host_key_policy: HostKeyPolicy::InsecureAcceptAny,
        ..test_config()
    };
    assert_eq!(other.clone(), other);
    assert_ne!(other, config);
}
