use arylterm::cli::{CliCommand, CliConfig, CliError};
use arylterm::config::{AuthMethod, HostKeyPolicy, SshTarget, TerminalSize, TmuxSessionConfig};
use arylterm::text::NumberError;
use std::time::Duration;

fn args(line: &[&str]) -> Vec<String> {
    line.iter().map(|arg| arg.to_string()).collect()
}

fn parse(line: &[&str]) -> Result<CliCommand, CliError> {
    CliConfig::new(None, None).parse(&args(line))
}

fn run(line: &[&str]) -> CliConfig {
    match parse(line) {
        Ok(CliCommand::Run(config)) => config,
        other => panic!("{:?}", other),
    }
}

fn error(line: &[&str]) -> CliError {
    match parse(line) {
        Err(error) => error,
        other => panic!("{:?}", other),
    }
}

fn session(line: &[&str]) -> TmuxSessionConfig {
    run(line).into_session_config().unwrap()
}

fn session_error(line: &[&str]) -> String {
    run(line).into_session_config().unwrap_err().message()
}

const MINIMAL: [&str; 7] =
    ["--host", "example.com", "--user", "arya", "--password", "pw", "--accept-any-host-key"];

fn minimal_and(more: &[&'static str]) -> Vec<&'static str> {
    let mut line = MINIMAL.to_vec();
    line.extend_from_slice(more);
    line
}

#[test]
fn defaults_without_arguments() {
    let config = CliConfig::new(Some("pw".to_string()), Some("phrase".to_string()));
    assert_eq!(config.password.as_deref(), Some("pw"));
    assert_eq!(config.key_passphrase.as_deref(), Some("phrase"));
    let config = run(&[]);
    assert_eq!(config.host, None);
    assert_eq!(config.host_port, None);
    assert_eq!(config.port, None);
    assert_eq!(config.username, None);
    assert_eq!(config.password, None);
    assert_eq!(config.key, None);
    assert_eq!(config.key_passphrase, None);
    assert_eq!(config.tmux_session, "main");
    assert_eq!(config.term, "xterm-256color");
    assert_eq!((config.columns, config.rows), (120, 40));
    assert_eq!(config.host_key_sha256, None);
    assert!(!config.accept_any_host_key);
}

#[test]
fn minimal_session() {
    assert_eq!(
        session(&MINIMAL),
        TmuxSessionConfig {
            target: SshTarget {
                host: "example.com".to_string(),
                port: 22,
                username: "arya".to_string(),
            },
            auth: AuthMethod::Password("pw".to_string()),
            host_key_policy: HostKeyPolicy::InsecureAcceptAny,
            tmux_session: "main".to_string(),
            term: "xterm-256color".to_string(),
            size: TerminalSize { columns: 120, rows: 40, pixel_width: 0, pixel_height: 0 },
            keepalive_interval: Duration::from_secs(15),
            keepalive_max: 3,
        }
    );
}

#[test]
fn password_of_the_environment() {
    let config = CliConfig::new(Some("from env".to_string()), None);
    let line =
        args(&["--host", "h", "--user", "arya", "--tmux", "main", "--accept-any-host-key"]);
    match config.parse(&line) {
        Ok(CliCommand::Run(config)) => assert_eq!(
            config.into_session_config().unwrap().auth,
            AuthMethod::Password("from env".to_string())
        ),
        other => panic!("{:?}", other),
    }
}

#[test]
fn key_counts_before_password() {
    let config = CliConfig::new(Some("pw".to_string()), Some("phrase".to_string()));
    let line = args(&["--host", "h", "--user", "u", "--key", "C:\\id", "--accept-any-host-key"]);
    match config.parse(&line) {
        Ok(CliCommand::Run(config)) => assert_eq!(
            config.into_session_config().unwrap().auth,
            AuthMethod::PrivateKey {
                path: "C:\\id".to_string(),
                passphrase: Some("phrase".to_string()),
            }
        ),
        other => panic!("{:?}", other),
    }
}

#[test]
fn all_options() {
    let config = run(&[
        "--host", "[::1]:2200", "--port", "2201", "--username", "u", "--password", "p", "--key",
        "k", "--key-passphrase", "kp", "--tmux-session", "s", "--term", "t", "--columns", "1",
        "--rows", "2", "--host-key-sha256", "SHA256:x", "--accept-any-host-key",
    ]);
    assert_eq!(config.host.as_deref(), Some("::1"));
    assert_eq!(config.host_port, Some(2200));
    assert_eq!(config.port, Some(2201));
    assert_eq!(config.username.as_deref(), Some("u"));
    assert_eq!(config.password.as_deref(), Some("p"));
    assert_eq!(config.key.as_deref(), Some("k"));
    assert_eq!(config.key_passphrase.as_deref(), Some("kp"));
    assert_eq!(config.tmux_session, "s");
    assert_eq!(config.term, "t");
    assert_eq!((config.columns, config.rows), (1, 2));
    assert_eq!(config.host_key_sha256.as_deref(), Some("SHA256:x"));
    assert!(config.accept_any_host_key);
}

#[test]
fn short_spellings() {
    let config = run(&["--user", "u", "--tmux", "s", "--cols", "5"]);
    assert_eq!(config.username.as_deref(), Some("u"));
    assert_eq!(config.tmux_session, "s");
    assert_eq!(config.columns, 5);
}

#[test]
fn port_option_overrides_the_host() {
    assert_eq!(session(&minimal_and(&["--host", "h:1000"])).target.port, 1000);
    assert_eq!(
        session(&minimal_and(&["--port", "2000", "--host", "h:1000"])).target.port,
        2000
    );
    assert_eq!(session(&minimal_and(&["--host", "h:1000", "--host", "h"])).target.port, 22);
}

#[test]
fn last_value_of_an_option_counts() {
    assert_eq!(session(&minimal_and(&["--user", "other"])).target.username, "other");
    assert_eq!(run(&["--rows", "1", "--rows", "2"]).rows, 2);
}

#[test]
fn options_can_be_the_value_of_an_option() {
    assert_eq!(run(&["--term", "--help"]).term, "--help");
}

#[test]
fn fingerprint_policy() {
    let line = [
        "--host", "h", "--user", "u", "--password", "p", "--host-key-sha256", "SHA256:x",
    ];
    assert_eq!(
        session(&line).host_key_policy,
        HostKeyPolicy::FingerprintSha256("SHA256:x".to_string())
    );
    let mut line = line.to_vec();
    line.push("--accept-any-host-key");
    assert_eq!(session(&line).host_key_policy, HostKeyPolicy::InsecureAcceptAny);
}

#[test]
fn help_stops_the_reading() {
    assert!(matches!(parse(&["--help", "--nonsense"]), Ok(CliCommand::Help)));
    assert!(matches!(parse(&["--user", "u", "-h"]), Ok(CliCommand::Help)));
    assert!(matches!(parse(&["--nonsense", "--help"]), Err(CliError::UnknownArgument(_))));
}

#[test]
fn unknown_argument() {
    assert_eq!(error(&["--hosts", "x"]).message(), "unknown argument: --hosts");
    assert_eq!(error(&[""]).message(), "unknown argument: ");
}

#[test]
fn missing_values() {
    let names = [
        ("--host", "--host"),
        ("--port", "--port"),
        ("--user", "--user"),
        ("--username", "--user"),
        ("--password", "--password"),
        ("--key", "--key"),
        ("--key-passphrase", "--key-passphrase"),
        ("--tmux", "--tmux"),
        ("--tmux-session", "--tmux"),
        ("--term", "--term"),
        ("--cols", "--cols"),
        ("--columns", "--cols"),
        ("--rows", "--rows"),
        ("--host-key-sha256", "--host-key-sha256"),
    ];
    for (written, named) in names {
        let error = error(&[written]);
        assert_eq!(error.message(), format!("{} requires a value", named));
        assert_eq!(error.cause(), None);
    }
}

#[test]
fn values_that_are_no_numbers() {
    let bad = error(&["--port", "ssh"]);
    assert_eq!(bad.message(), "--port must be a number");
    assert_eq!(bad.cause(), Some(NumberError::InvalidDigit));
    let bad = error(&["--port", "65536"]);
    assert_eq!(bad.cause(), Some(NumberError::Overflow));
    let bad = error(&["--columns", ""]);
    assert_eq!(bad.message(), "--cols must be a number");
    assert_eq!(bad.cause(), Some(NumberError::Empty));
    let bad = error(&["--rows", "-1"]);
    assert_eq!(bad.message(), "--rows must be a number");
    assert_eq!(run(&["--rows", "4294967295"]).rows, u32::MAX);
}

#[test]
fn bad_hosts() {
    let bad = error(&["--host", "[::1"]);
    assert_eq!(bad.message(), "invalid host value: [::1");
    assert_eq!(bad.cause(), None);
    let bad = error(&["--host", "h:x"]);
    assert_eq!(bad.message(), "host port must be a number");
    assert_eq!(bad.cause(), Some(NumberError::InvalidDigit));
}

#[test]
fn what_a_session_needs() {
    assert_eq!(session_error(&[]), "missing --host");
    assert_eq!(session_error(&["--host", "h"]), "missing --user");
    assert_eq!(
        session_error(&["--host", "h", "--user", "u"]),
        "missing auth method: pass --key, --password, or set ARYLTERM_SSH_PASSWORD"
    );
    assert_eq!(
        session_error(&["--host", "h", "--user", "u", "--key", "k"]),
        "missing host key policy: pass --host-key-sha256 or --accept-any-host-key"
    );
}

#[test]
fn arguments_add_up() {
    let first = run(&["--user", "u", "--accept-any-host-key"]);
    let line = args(&["--rows", "3", "--user", "v"]);
    match first.parse(&line) {
        Ok(CliCommand::Run(config)) => {
            assert_eq!(config.username.as_deref(), Some("v"));
            assert_eq!(config.rows, 3);
            assert!(config.accept_any_host_key);
        }
        other => panic!("{:?}", other),
    }
}

#[test]
fn order_of_different_options_does_not_matter() {
    let a = session(&["--rows", "3", "--port", "9", "--host", "h:1", "--user", "u", "--password",
        "p", "--accept-any-host-key"]);
    let b = session(&["--accept-any-host-key", "--password", "p", "--host", "h:1", "--port", "9",
        "--user", "u", "--rows", "3"]);
    assert_eq!(a, b);
    assert_eq!(a.target.port, 9);
}
