//! The command line of the terminal program.
use crate::config::{
    whole_seconds, AuthMethod, AuthMethodView, HostKeyPolicy, HostKeyPolicyView, SshTarget,
    SshTargetView, TerminalSize, TmuxSessionConfig, TmuxSessionConfigView,
};
use crate::host::{
    host_and_port, host_error_words, host_view, parse_host_and_port, HostError, HostErrorView,
};
use crate::text::{number, opt_text, parse_number, parse_u16, same_text, NumberError};
use std::time::Duration;
use vstd::prelude::*;
use vstd::string::*;

verus! {

/// An option that takes a value.
#[derive(Clone, Copy, Debug, PartialEq, Eq, Structural)]
pub enum CliOption {
    Host,
    Port,
    User,
    Password,
    Key,
    KeyPassphrase,
    Tmux,
    Term,
    Cols,
    Rows,
    HostKeySha256,
}

impl CliOption {
    /// The name by which messages speak of an option.
    pub open spec fn spelled(self) -> Seq<char> {
        match self {
            CliOption::Host => "--host"@,
            CliOption::Port => "--port"@,
            CliOption::User => "--user"@,
            CliOption::Password => "--password"@,
            CliOption::Key => "--key"@,
            CliOption::KeyPassphrase => "--key-passphrase"@,
            CliOption::Tmux => "--tmux"@,
            CliOption::Term => "--term"@,
            CliOption::Cols => "--cols"@,
            CliOption::Rows => "--rows"@,
            CliOption::HostKeySha256 => "--host-key-sha256"@,
        }
    }

    /// The name by which messages speak of an option.
    pub fn name(self) -> (name: &'static str)
        ensures
            name@ == self.spelled(),
    {
        match self {
            CliOption::Host => "--host",
            CliOption::Port => "--port",
            CliOption::User => "--user",
            CliOption::Password => "--password",
            CliOption::Key => "--key",
            CliOption::KeyPassphrase => "--key-passphrase",
            CliOption::Tmux => "--tmux",
            CliOption::Term => "--term",
            CliOption::Cols => "--cols",
            CliOption::Rows => "--rows",
            CliOption::HostKeySha256 => "--host-key-sha256",
        }
    }
}

/// What one argument is, where it does not stand for the value of an option.
#[derive(Clone, Copy, Debug, PartialEq, Eq, Structural)]
pub enum Argument {
    Valued(CliOption),
    AcceptAnyHostKey,
    Help,
    Unknown,
}

/// What an argument is. Some options have two spellings.
pub open spec fn argument(arg: Seq<char>) -> Argument {
    if arg == "--host"@ {
        Argument::Valued(CliOption::Host)
    } else if arg == "--port"@ {
        Argument::Valued(CliOption::Port)
    } else if arg == "--user"@ || arg == "--username"@ {
        Argument::Valued(CliOption::User)
    } else if arg == "--password"@ {
        Argument::Valued(CliOption::Password)
    } else if arg == "--key"@ {
        Argument::Valued(CliOption::Key)
    } else if arg == "--key-passphrase"@ {
        Argument::Valued(CliOption::KeyPassphrase)
    } else if arg == "--tmux"@ || arg == "--tmux-session"@ {
        Argument::Valued(CliOption::Tmux)
    } else if arg == "--term"@ {
        Argument::Valued(CliOption::Term)
    } else if arg == "--cols"@ || arg == "--columns"@ {
        Argument::Valued(CliOption::Cols)
    } else if arg == "--rows"@ {
        Argument::Valued(CliOption::Rows)
    } else if arg == "--host-key-sha256"@ {
        Argument::Valued(CliOption::HostKeySha256)
    } else if arg == "--accept-any-host-key"@ {
        Argument::AcceptAnyHostKey
    } else if arg == "--help"@ || arg == "-h"@ {
        Argument::Help
    } else {
        Argument::Unknown
    }
}

/// Tells what an argument is.
fn classify(arg: &str) -> (kind: Argument)
    ensures
        kind == argument(arg@),
{
    if same_text(arg, "--host") {
        Argument::Valued(CliOption::Host)
    } else if same_text(arg, "--port") {
        Argument::Valued(CliOption::Port)
    } else if same_text(arg, "--user") || same_text(arg, "--username") {
        Argument::Valued(CliOption::User)
    } else if same_text(arg, "--password") {
        Argument::Valued(CliOption::Password)
    } else if same_text(arg, "--key") {
        Argument::Valued(CliOption::Key)
    } else if same_text(arg, "--key-passphrase") {
        Argument::Valued(CliOption::KeyPassphrase)
    } else if same_text(arg, "--tmux") || same_text(arg, "--tmux-session") {
        Argument::Valued(CliOption::Tmux)
    } else if same_text(arg, "--term") {
        Argument::Valued(CliOption::Term)
    } else if same_text(arg, "--cols") || same_text(arg, "--columns") {
        Argument::Valued(CliOption::Cols)
    } else if same_text(arg, "--rows") {
        Argument::Valued(CliOption::Rows)
    } else if same_text(arg, "--host-key-sha256") {
        Argument::Valued(CliOption::HostKeySha256)
    } else if same_text(arg, "--accept-any-host-key") {
        Argument::AcceptAnyHostKey
    } else if same_text(arg, "--help") || same_text(arg, "-h") {
        Argument::Help
    } else {
        Argument::Unknown
    }
}

/// Why the program cannot start.
#[derive(Debug)]
pub enum CliError {
    /// An option stands last, without its value.
    MissingValue(CliOption),
    /// The value of an option should be a number.
    NotANumber(CliOption, NumberError),
    UnknownArgument(String),
    /// The value of the host option names no host.
    BadHost(HostError),
    MissingHost,
    MissingUser,
    MissingAuth,
    MissingHostKeyPolicy,
}

pub enum CliErrorView {
    MissingValue(CliOption),
    NotANumber(CliOption, NumberError),
    UnknownArgument(Seq<char>),
    BadHost(HostErrorView),
    MissingHost,
    MissingUser,
    MissingAuth,
    MissingHostKeyPolicy,
}

impl View for CliError {
    type V = CliErrorView;

    open spec fn view(&self) -> CliErrorView {
        match self {
            CliError::MissingValue(option) => CliErrorView::MissingValue(*option),
            CliError::NotANumber(option, reason) => CliErrorView::NotANumber(*option, *reason),
            CliError::UnknownArgument(arg) => CliErrorView::UnknownArgument(arg@),
            CliError::BadHost(error) => CliErrorView::BadHost(error@),
            CliError::MissingHost => CliErrorView::MissingHost,
            CliError::MissingUser => CliErrorView::MissingUser,
            CliError::MissingAuth => CliErrorView::MissingAuth,
            CliError::MissingHostKeyPolicy => CliErrorView::MissingHostKeyPolicy,
        }
    }
}

/// The message for an error.
pub open spec fn error_words(error: CliErrorView) -> Seq<char> {
    match error {
        CliErrorView::MissingValue(option) => option.spelled() + " requires a value"@,
        CliErrorView::NotANumber(option, _) => option.spelled() + " must be a number"@,
        CliErrorView::UnknownArgument(arg) => "unknown argument: "@ + arg,
        CliErrorView::BadHost(error) => host_error_words(error),
        CliErrorView::MissingHost => "missing --host"@,
        CliErrorView::MissingUser => "missing --user"@,
        CliErrorView::MissingAuth =>
            "missing auth method: pass --key, --password, or set ARYLTERM_SSH_PASSWORD"@,
        CliErrorView::MissingHostKeyPolicy =>
            "missing host key policy: pass --host-key-sha256 or --accept-any-host-key"@,
    }
}

/// The reason behind an error, where a text should have been a number.
pub open spec fn error_cause(error: CliErrorView) -> Option<NumberError> {
    match error {
        CliErrorView::NotANumber(_, reason) => Some(reason),
        CliErrorView::BadHost(HostErrorView::Port(reason)) => Some(reason),
        _ => None,
    }
}

impl CliError {
    /// The message for an error.
    pub fn message(&self) -> (message: String)
        ensures
            message@ == error_words(self@),
    {
        match self {
            CliError::MissingValue(option) => option.name().to_owned().concat(" requires a value"),
            CliError::NotANumber(option, _) => option.name().to_owned().concat(" must be a number"),
            CliError::UnknownArgument(arg) => "unknown argument: ".to_owned().concat(arg.as_str()),
            CliError::BadHost(error) => error.message(),
            CliError::MissingHost => "missing --host".to_owned(),
            CliError::MissingUser => "missing --user".to_owned(),
            CliError::MissingAuth =>
                "missing auth method: pass --key, --password, or set ARYLTERM_SSH_PASSWORD".to_owned(),
            CliError::MissingHostKeyPolicy =>
                "missing host key policy: pass --host-key-sha256 or --accept-any-host-key".to_owned(),
        }
    }

    /// The reason behind the error, where a text should have been a number.
    pub fn cause(&self) -> (cause: Option<NumberError>)
        ensures
            cause == error_cause(self@),
    {
        match self {
            CliError::NotANumber(_, reason) => Some(*reason),
            CliError::BadHost(HostError::Port(reason)) => Some(*reason),
            _ => None,
        }
    }
}

/// What the command line and the environment say.
#[derive(Debug)]
pub struct CliConfig {
    pub host: Option<String>,
    pub host_port: Option<u16>,
    pub port: Option<u16>,
    pub username: Option<String>,
    pub password: Option<String>,
    pub key: Option<String>,
    pub key_passphrase: Option<String>,
    pub tmux_session: String,
    pub term: String,
    pub columns: u32,
    pub rows: u32,
    pub host_key_sha256: Option<String>,
    pub accept_any_host_key: bool,
}

pub struct CliConfigView {
    pub host: Option<Seq<char>>,
    pub host_port: Option<u16>,
    pub port: Option<u16>,
    pub username: Option<Seq<char>>,
    pub password: Option<Seq<char>>,
    pub key: Option<Seq<char>>,
    pub key_passphrase: Option<Seq<char>>,
    pub tmux_session: Seq<char>,
    pub term: Seq<char>,
    pub columns: u32,
    pub rows: u32,
    pub host_key_sha256: Option<Seq<char>>,
    pub accept_any_host_key: bool,
}

impl View for CliConfig {
    type V = CliConfigView;

    open spec fn view(&self) -> CliConfigView {
        CliConfigView {
            host: opt_text(self.host),
            host_port: self.host_port,
            port: self.port,
            username: opt_text(self.username),
            password: opt_text(self.password),
            key: opt_text(self.key),
            key_passphrase: opt_text(self.key_passphrase),
            tmux_session: self.tmux_session@,
            term: self.term@,
            columns: self.columns,
            rows: self.rows,
            host_key_sha256: opt_text(self.host_key_sha256),
            accept_any_host_key: self.accept_any_host_key,
        }
    }
}

/// What is set before any argument: the secrets of the environment, a session
/// named main, and a common terminal.
pub open spec fn defaults(
    password: Option<Seq<char>>,
    key_passphrase: Option<Seq<char>>,
) -> CliConfigView {
    CliConfigView {
        host: None,
        host_port: None,
        port: None,
        username: None,
        password,
        key: None,
        key_passphrase,
        tmux_session: "main"@,
        term: "xterm-256color"@,
        columns: 120,
        rows: 40,
        host_key_sha256: None,
        accept_any_host_key: false,
    }
}

/// What an option with a value sets. The last value of an option counts.
pub open spec fn with_option(config: CliConfigView, option: CliOption, value: Seq<char>) -> Result<
    CliConfigView,
    CliErrorView,
> {
    match option {
        CliOption::Host => match host_and_port(value) {
            Ok((host, host_port)) => Ok(CliConfigView { host: Some(host), host_port, ..config }),
            Err(error) => Err(CliErrorView::BadHost(error)),
        },
        CliOption::Port => match number(value, u16::MAX as nat) {
            Ok(port) => Ok(CliConfigView { port: Some(port as u16), ..config }),
            Err(reason) => Err(CliErrorView::NotANumber(option, reason)),
        },
        CliOption::User => Ok(CliConfigView { username: Some(value), ..config }),
        CliOption::Password => Ok(CliConfigView { password: Some(value), ..config }),
        CliOption::Key => Ok(CliConfigView { key: Some(value), ..config }),
        CliOption::KeyPassphrase => Ok(CliConfigView { key_passphrase: Some(value), ..config }),
        CliOption::Tmux => Ok(CliConfigView { tmux_session: value, ..config }),
        CliOption::Term => Ok(CliConfigView { term: value, ..config }),
        CliOption::Cols => match number(value, u32::MAX as nat) {
            Ok(columns) => Ok(CliConfigView { columns: columns as u32, ..config }),
            Err(reason) => Err(CliErrorView::NotANumber(option, reason)),
        },
        CliOption::Rows => match number(value, u32::MAX as nat) {
            Ok(rows) => Ok(CliConfigView { rows: rows as u32, ..config }),
            Err(reason) => Err(CliErrorView::NotANumber(option, reason)),
        },
        CliOption::HostKeySha256 => Ok(CliConfigView { host_key_sha256: Some(value), ..config }),
    }
}

/// What the program is asked to do.
#[derive(Debug)]
pub enum CliCommand {
    /// To run a session.
    Run(CliConfig),
    /// To explain itself.
    Help,
}

pub enum CliCommandView {
    Run(CliConfigView),
    Help,
}

impl View for CliCommand {
    type V = CliCommandView;

    open spec fn view(&self) -> CliCommandView {
        match self {
            CliCommand::Run(config) => CliCommandView::Run(config@),
            CliCommand::Help => CliCommandView::Help,
        }
    }
}

/// What arguments ask for, read from the left. The first that is wrong, or that
/// asks for help, decides.
pub open spec fn parsed(config: CliConfigView, args: Seq<Seq<char>>) -> Result<
    CliCommandView,
    CliErrorView,
>
    decreases args.len(),
{
    if args.len() == 0 {
        Ok(CliCommandView::Run(config))
    } else {
        match argument(args[0]) {
            Argument::Help => Ok(CliCommandView::Help),
            Argument::Unknown => Err(CliErrorView::UnknownArgument(args[0])),
            Argument::AcceptAnyHostKey => parsed(
                CliConfigView { accept_any_host_key: true, ..config },
                args.skip(1),
            ),
            Argument::Valued(option) => if args.len() == 1 {
                Err(CliErrorView::MissingValue(option))
            } else {
                match with_option(config, option, args[1]) {
                    Ok(next) => parsed(next, args.skip(2)),
                    Err(error) => Err(error),
                }
            },
        }
    }
}

/// The view of what arguments ask for.
pub open spec fn command_view(r: Result<CliCommand, CliError>) -> Result<
    CliCommandView,
    CliErrorView,
> {
    match r {
        Ok(command) => Ok(command@),
        Err(error) => Err(error@),
    }
}

/// The texts of a list of strings.
pub open spec fn texts(args: Seq<String>) -> Seq<Seq<char>> {
    args.map_values(|arg: String| arg@)
}

/// The session that a complete command line describes. The port option counts
/// before a port in the host, a key before a password, and accepting any host
/// key before a fingerprint.
pub open spec fn session_config(config: CliConfigView) -> Result<
    TmuxSessionConfigView,
    CliErrorView,
> {
    match (config.host, config.username) {
        (None, _) => Err(CliErrorView::MissingHost),
        (_, None) => Err(CliErrorView::MissingUser),
        (Some(host), Some(username)) => match (session_auth(config), session_policy(config)) {
            (None, _) => Err(CliErrorView::MissingAuth),
            (_, None) => Err(CliErrorView::MissingHostKeyPolicy),
            (Some(auth), Some(host_key_policy)) => Ok(
                TmuxSessionConfigView {
                    target: SshTargetView { host, port: session_port(config), username },
                    auth,
                    host_key_policy,
                    tmux_session: config.tmux_session,
                    term: config.term,
                    size: TerminalSize {
                        columns: config.columns,
                        rows: config.rows,
                        pixel_width: 0,
                        pixel_height: 0,
                    },
                    keepalive_interval: whole_seconds(15),
                    keepalive_max: 3,
                },
            ),
        },
    }
}

/// The port to connect to.
pub open spec fn session_port(config: CliConfigView) -> u16 {
    match (config.port, config.host_port) {
        (Some(port), _) => port,
        (None, Some(port)) => port,
        (None, None) => 22,
    }
}

/// How to authenticate, if that is said.
pub open spec fn session_auth(config: CliConfigView) -> Option<AuthMethodView> {
    match (config.key, config.password) {
        (Some(path), _) => Some(
            AuthMethodView::PrivateKey { path, passphrase: config.key_passphrase },
        ),
        (None, Some(password)) => Some(AuthMethodView::Password(password)),
        (None, None) => None,
    }
}

/// Which host keys to accept, if that is said.
pub open spec fn session_policy(config: CliConfigView) -> Option<HostKeyPolicyView> {
    match (config.accept_any_host_key, config.host_key_sha256) {
        (true, _) => Some(HostKeyPolicyView::InsecureAcceptAny),
        (false, Some(fingerprint)) => Some(HostKeyPolicyView::FingerprintSha256(fingerprint)),
        (false, None) => None,
    }
}

/// The view of a session's configuration.
pub open spec fn config_view(r: Result<TmuxSessionConfig, CliError>) -> Result<
    TmuxSessionConfigView,
    CliErrorView,
> {
    match r {
        Ok(config) => Ok(config@),
        Err(error) => Err(error@),
    }
}

/// The value after the option at `at`.
fn next_value(args: &Vec<String>, at: usize, option: CliOption) -> (r: Result<String, CliError>)
    requires
        at < args@.len(),
    ensures
        match r {
            Ok(value) => at + 1 < args@.len() && value@ == args@[at + 1]@,
            Err(error) => at + 1 == args@.len() && error@ == CliErrorView::MissingValue(option),
        },
{
    if at < args.len() - 1 {
        Ok(args[at + 1].clone())
    } else {
        Err(CliError::MissingValue(option))
    }
}

impl CliConfig {
    /// What is set before any argument, with the secrets that the environment
    /// holds.
    pub fn new(password: Option<String>, key_passphrase: Option<String>) -> (config: CliConfig)
        ensures
            config@ == defaults(opt_text(password), opt_text(key_passphrase)),
    {
        CliConfig {
            host: None,
            host_port: None,
            port: None,
            username: None,
            password,
            key: None,
            key_passphrase,
            tmux_session: "main".to_owned(),
            term: "xterm-256color".to_owned(),
            columns: 120,
            rows: 40,
            host_key_sha256: None,
            accept_any_host_key: false,
        }
    }

    /// Sets an option to a value.
    fn set_option(&mut self, option: CliOption, value: String) -> (r: Result<(), CliError>)
        ensures
            match with_option(old(self)@, option, value@) {
                Ok(config) => r is Ok && final(self)@ == config,
                Err(error) => r matches Err(e) && e@ == error,
            },
    {
        match option {
            CliOption::Host => match parse_host_and_port(value.as_str()) {
                Ok((host, host_port)) => {
                    self.host = Some(host);
                    self.host_port = host_port;
                },
                Err(error) => return Err(CliError::BadHost(error)),
            },
            CliOption::Port => match parse_u16(value.as_str()) {
                Ok(port) => self.port = Some(port),
                Err(reason) => return Err(CliError::NotANumber(option, reason)),
            },
            CliOption::User => self.username = Some(value),
            CliOption::Password => self.password = Some(value),
            CliOption::Key => self.key = Some(value),
            CliOption::KeyPassphrase => self.key_passphrase = Some(value),
            CliOption::Tmux => self.tmux_session = value,
            CliOption::Term => self.term = value,
            CliOption::Cols => match parse_number(value.as_str(), u32::MAX) {
                Ok(columns) => self.columns = columns,
                Err(reason) => return Err(CliError::NotANumber(option, reason)),
            },
            CliOption::Rows => match parse_number(value.as_str(), u32::MAX) {
                Ok(rows) => self.rows = rows,
                Err(reason) => return Err(CliError::NotANumber(option, reason)),
            },
            CliOption::HostKeySha256 => self.host_key_sha256 = Some(value),
        }
        Ok(())
    }

    /// Reads the arguments of the program, on top of what is set already.
    pub fn parse(self, args: &Vec<String>) -> (r: Result<CliCommand, CliError>)
        ensures
            command_view(r) == parsed(self@, texts(args@)),
    {
        let mut config = self;
        let ghost all = texts(args@);
        let mut i: usize = 0;
        assert(all.skip(0) =~= all);
        while i < args.len()
            invariant
                i <= args@.len(),
                all == texts(args@),
                parsed(config@, all.skip(i as int)) == parsed(self@, all),
            decreases args@.len() - i,
        {
            let ghost left = all.skip(i as int);
            assert(left[0] == args@[i as int]@);
            match classify(args[i].as_str()) {
                Argument::Help => return Ok(CliCommand::Help),
                Argument::Unknown => return Err(CliError::UnknownArgument(args[i].clone())),
                Argument::AcceptAnyHostKey => {
                    config.accept_any_host_key = true;
                    assert(left.skip(1) =~= all.skip(i + 1));
                    i = i + 1;
                },
                Argument::Valued(option) => match next_value(args, i, option) {
                    Err(error) => return Err(error),
                    Ok(value) => {
                        assert(left[1] == value@);
                        if let Err(error) = config.set_option(option, value) {
                            return Err(error);
                        }
                        assert(left.skip(2) =~= all.skip(i + 2));
                        i = i + 2;
                    },
                },
            }
        }
        assert(all.skip(all.len() as int).len() == 0);
        Ok(CliCommand::Run(config))
    }

    /// The session that the command line describes.
    pub fn into_session_config(self) -> (r: Result<TmuxSessionConfig, CliError>)
        ensures
            config_view(r) == session_config(self@),
            r matches Ok(session) ==> {
                &&& session.target.host@ == self.host->0@
                &&& session.target.username@ == self.username->0@
                &&& session.target.port == if self.port is Some {
                    self.port->0
                } else if self.host_port is Some {
                    self.host_port->0
                } else {
                    22
                }
                &&& session.tmux_session@ == self.tmux_session@
                &&& session.term@ == self.term@
                &&& session.size.columns == self.columns
                &&& session.size.rows == self.rows
            },
    {
        let host = match self.host {
            Some(host) => host,
            None => return Err(CliError::MissingHost),
        };
        let username = match self.username {
            Some(username) => username,
            None => return Err(CliError::MissingUser),
        };
        let port: u16 = match self.port {
            Some(port) => port,
            None => self.host_port.unwrap_or(22),
        };
        let auth = match (self.key, self.password) {
            (Some(path), _) => AuthMethod::PrivateKey { path, passphrase: self.key_passphrase },
            (None, Some(password)) => AuthMethod::Password(password),
            (None, None) => return Err(CliError::MissingAuth),
        };
        let host_key_policy = match (self.accept_any_host_key, self.host_key_sha256) {
            (true, _) => HostKeyPolicy::InsecureAcceptAny,
            (false, Some(fingerprint)) => HostKeyPolicy::FingerprintSha256(fingerprint),
            (false, None) => return Err(CliError::MissingHostKeyPolicy),
        };
        Ok(
            TmuxSessionConfig {
                target: SshTarget { host, port, username },
                auth,
                host_key_policy,
                tmux_session: self.tmux_session,
                term: self.term,
                size: TerminalSize {
                    columns: self.columns,
                    rows: self.rows,
                    pixel_width: 0,
                    pixel_height: 0,
                },
                keepalive_interval: Duration::from_secs(15),
                keepalive_max: 3,
            },
        )
    }
}

/// Arguments are read from the left: those at the end are read with what those
/// before them have set.
pub proof fn law_arguments_add_up(
    config: CliConfigView,
    first: Seq<Seq<char>>,
    between: CliConfigView,
    rest: Seq<Seq<char>>,
)
    requires
        parsed(config, first) == Ok::<_, CliErrorView>(CliCommandView::Run(between)),
    ensures
        parsed(config, first + rest) == parsed(between, rest),
    decreases first.len(),
{
    let all = first + rest;
    if first.len() == 0 {
        assert(all =~= rest);
    } else {
        assert(all[0] == first[0]);
        match argument(first[0]) {
            Argument::AcceptAnyHostKey => {
                let next = CliConfigView { accept_any_host_key: true, ..config };
                law_arguments_add_up(next, first.skip(1), between, rest);
                assert(all.skip(1) =~= first.skip(1) + rest);
            },
            Argument::Valued(option) => {
                assert(all[1] == first[1]);
                if let Ok(next) = with_option(config, option, first[1]) {
                    law_arguments_add_up(next, first.skip(2), between, rest);
                    assert(all.skip(2) =~= first.skip(2) + rest);
                }
            },
            _ => {},
        }
    }
}

/// An option that is set twice has its last value.
pub proof fn law_last_value_counts(
    config: CliConfigView,
    option: CliOption,
    earlier: Seq<char>,
    later: Seq<char>,
)
    requires
        with_option(config, option, earlier) is Ok,
    ensures
        with_option(with_option(config, option, earlier)->Ok_0, option, later) == with_option(config, option, later),
{
}

/// Options do not disturb each other: two different ones can be set in either
/// order.
pub proof fn law_options_commute(
    config: CliConfigView,
    a: CliOption,
    va: Seq<char>,
    b: CliOption,
    vb: Seq<char>,
)
    requires
        a != b,
        with_option(config, a, va) is Ok,
        with_option(config, b, vb) is Ok,
    ensures
        with_option(with_option(config, a, va)->Ok_0, b, vb) == with_option(with_option(config, b, vb)->Ok_0, a, va),
{
}

/// An option sets what it is for and nothing else, so what no option is given
/// for keeps its default.
pub proof fn law_option_sets_only_its_own(
    config: CliConfigView,
    option: CliOption,
    value: Seq<char>,
)
    ensures
        with_option(config, option, value) matches Ok(next) ==> {
            &&& option != CliOption::Host ==> next.host == config.host && next.host_port
                == config.host_port
            &&& option != CliOption::Port ==> next.port == config.port
            &&& option != CliOption::User ==> next.username == config.username
            &&& option != CliOption::Password ==> next.password == config.password
            &&& option != CliOption::Key ==> next.key == config.key
            &&& option != CliOption::KeyPassphrase ==> next.key_passphrase == config.key_passphrase
            &&& option != CliOption::Tmux ==> next.tmux_session == config.tmux_session
            &&& option != CliOption::Term ==> next.term == config.term
            &&& option != CliOption::Cols ==> next.columns == config.columns
            &&& option != CliOption::Rows ==> next.rows == config.rows
            &&& option != CliOption::HostKeySha256 ==> next.host_key_sha256
                == config.host_key_sha256
            &&& next.accept_any_host_key == config.accept_any_host_key
        },
{
}

/// The port option overrides a port in the host, and without either the port is
/// that of SSH.
pub proof fn law_port_option_overrides(config: CliConfigView)
    ensures
        session_config(config) matches Ok(session) ==> session.target.port
            == if config.port is Some {
            config.port->0
        } else if config.host_port is Some {
            config.host_port->0
        } else {
            22
        },
{
}

/// Host keys are accepted unseen only where that was asked for, and otherwise
/// only by a fingerprint that was given.
pub proof fn law_host_keys_are_checked_unless_told(config: CliConfigView)
    ensures
        session_config(config) matches Ok(session) ==> {
            &&& session.host_key_policy is InsecureAcceptAny <==> config.accept_any_host_key
            &&& session.host_key_policy matches HostKeyPolicyView::FingerprintSha256(fingerprint)
                ==> config.host_key_sha256 == Some(fingerprint)
        },
{
}

/// A session can be made exactly where there are a host, a user, a way to
/// authenticate, and a host key policy.
pub proof fn law_what_a_session_needs(config: CliConfigView)
    ensures
        session_config(config) is Ok <==> {
            &&& config.host is Some
            &&& config.username is Some
            &&& config.key is Some || config.password is Some
            &&& config.accept_any_host_key || config.host_key_sha256 is Some
        },
{
}

/// What tells the spellings of the options apart: their lengths, and two
/// characters where those are equal.
proof fn lemma_spellings_differ()
    ensures
        "--host"@.len() == 6,
        "--port"@.len() == 6,
        "--user"@.len() == 6,
        "--username"@.len() == 10,
        "--password"@.len() == 10,
        "--key"@.len() == 5,
        "--key-passphrase"@.len() == 16,
        "--tmux"@.len() == 6,
        "--tmux-session"@.len() == 14,
        "--term"@.len() == 6,
        "--cols"@.len() == 6,
        "--columns"@.len() == 9,
        "--rows"@.len() == 6,
        "--host-key-sha256"@.len() == 17,
        "--accept-any-host-key"@.len() == 21,
        "--help"@.len() == 6,
        "-h"@.len() == 2,
        "--host"@[2] == 'h',
        "--host"@[3] == 'o',
        "--port"@[2] == 'p',
        "--port"@[3] == 'o',
        "--user"@[2] == 'u',
        "--user"@[3] == 's',
        "--username"@[2] == 'u',
        "--username"@[3] == 's',
        "--password"@[2] == 'p',
        "--password"@[3] == 'a',
        "--tmux"@[2] == 't',
        "--tmux"@[3] == 'm',
        "--term"@[2] == 't',
        "--term"@[3] == 'e',
        "--cols"@[2] == 'c',
        "--cols"@[3] == 'o',
        "--rows"@[2] == 'r',
        "--rows"@[3] == 'o',
        "--help"@[2] == 'h',
        "--help"@[3] == 'e',
{
    reveal_strlit("--host");
    reveal_strlit("--port");
    reveal_strlit("--user");
    reveal_strlit("--username");
    reveal_strlit("--password");
    reveal_strlit("--key");
    reveal_strlit("--key-passphrase");
    reveal_strlit("--tmux");
    reveal_strlit("--tmux-session");
    reveal_strlit("--term");
    reveal_strlit("--cols");
    reveal_strlit("--columns");
    reveal_strlit("--rows");
    reveal_strlit("--host-key-sha256");
    reveal_strlit("--accept-any-host-key");
    reveal_strlit("--help");
    reveal_strlit("-h");
}

/// A command line without arguments changes nothing. Help is given where it is
/// asked for, any host key is accepted where that is asked for, and an argument
/// that is none of the options is refused.
pub proof fn law_arguments_without_a_value(config: CliConfigView, args: Seq<Seq<char>>)
    ensures
        args.len() == 0 ==> parsed(config, args) == Ok::<_, CliErrorView>(
            CliCommandView::Run(config),
        ),
        args.len() > 0 && (args[0] == "--help"@ || args[0] == "-h"@) ==> parsed(config, args)
            == Ok::<_, CliErrorView>(CliCommandView::Help),
        args.len() > 0 && args[0] == "--accept-any-host-key"@ ==> parsed(config, args) == parsed(
            CliConfigView { accept_any_host_key: true, ..config },
            args.skip(1),
        ),
        args.len() > 0 && args[0] != "--host"@ && args[0] != "--port"@ && args[0] != "--user"@
            && args[0] != "--username"@ && args[0] != "--password"@ && args[0] != "--key"@
            && args[0] != "--key-passphrase"@ && args[0] != "--tmux"@ && args[0]
            != "--tmux-session"@ && args[0] != "--term"@ && args[0] != "--cols"@ && args[0]
            != "--columns"@ && args[0] != "--rows"@ && args[0] != "--host-key-sha256"@ && args[0]
            != "--accept-any-host-key"@ && args[0] != "--help"@ && args[0] != "-h"@ ==> parsed(
            config,
            args,
        ) == Err::<CliCommandView, _>(CliErrorView::UnknownArgument(args[0])),
{
    lemma_spellings_differ();
}

/// An option that takes a text takes the argument after it, whatever that is,
/// and the rest is read with the option set to it and all else as it was.
pub proof fn law_options_with_a_text(config: CliConfigView, args: Seq<Seq<char>>)
    requires
        args.len() >= 2,
    ensures
        args[0] == "--user"@ || args[0] == "--username"@ ==> parsed(config, args) == parsed(
            CliConfigView { username: Some(args[1]), ..config },
            args.skip(2),
        ),
        args[0] == "--password"@ ==> parsed(config, args) == parsed(
            CliConfigView { password: Some(args[1]), ..config },
            args.skip(2),
        ),
        args[0] == "--key"@ ==> parsed(config, args) == parsed(
            CliConfigView { key: Some(args[1]), ..config },
            args.skip(2),
        ),
        args[0] == "--key-passphrase"@ ==> parsed(config, args) == parsed(
            CliConfigView { key_passphrase: Some(args[1]), ..config },
            args.skip(2),
        ),
        args[0] == "--tmux"@ || args[0] == "--tmux-session"@ ==> parsed(config, args) == parsed(
            CliConfigView { tmux_session: args[1], ..config },
            args.skip(2),
        ),
        args[0] == "--term"@ ==> parsed(config, args) == parsed(
            CliConfigView { term: args[1], ..config },
            args.skip(2),
        ),
        args[0] == "--host-key-sha256"@ ==> parsed(config, args) == parsed(
            CliConfigView { host_key_sha256: Some(args[1]), ..config },
            args.skip(2),
        ),
{
    lemma_spellings_differ();
}

/// An option that takes a number takes the argument after it where that is a
/// number in its range, and is refused with the reason where it is not.
pub proof fn law_options_with_a_number(config: CliConfigView, args: Seq<Seq<char>>)
    requires
        args.len() >= 2,
    ensures
        args[0] == "--port"@ ==> parsed(config, args) == match number(args[1], 65535) {
            Ok(n) => parsed(CliConfigView { port: Some(n as u16), ..config }, args.skip(2)),
            Err(reason) => Err(CliErrorView::NotANumber(CliOption::Port, reason)),
        },
        args[0] == "--cols"@ || args[0] == "--columns"@ ==> parsed(config, args) == match number(
            args[1],
            4294967295,
        ) {
            Ok(n) => parsed(CliConfigView { columns: n as u32, ..config }, args.skip(2)),
            Err(reason) => Err(CliErrorView::NotANumber(CliOption::Cols, reason)),
        },
        args[0] == "--rows"@ ==> parsed(config, args) == match number(args[1], 4294967295) {
            Ok(n) => parsed(CliConfigView { rows: n as u32, ..config }, args.skip(2)),
            Err(reason) => Err(CliErrorView::NotANumber(CliOption::Rows, reason)),
        },
{
    lemma_spellings_differ();
}

/// The host option takes the host and the port, or the lack of one, from the
/// argument after it.
pub proof fn law_host_option(config: CliConfigView, args: Seq<Seq<char>>)
    requires
        args.len() >= 2,
        args[0] == "--host"@,
    ensures
        parsed(config, args) == match host_and_port(args[1]) {
            Ok((host, host_port)) => parsed(
                CliConfigView { host: Some(host), host_port, ..config },
                args.skip(2),
            ),
            Err(error) => Err(CliErrorView::BadHost(error)),
        },
{
}

/// An option that stands last is refused for want of its value.
pub proof fn law_option_wants_its_value(config: CliConfigView, args: Seq<Seq<char>>)
    requires
        args.len() == 1,
    ensures
        ({
            let wants = |option: CliOption|
                parsed(config, args) == Err::<CliCommandView, _>(CliErrorView::MissingValue(option));
            &&& args[0] == "--host"@ ==> wants(CliOption::Host)
            &&& args[0] == "--port"@ ==> wants(CliOption::Port)
            &&& args[0] == "--user"@ || args[0] == "--username"@ ==> wants(CliOption::User)
            &&& args[0] == "--password"@ ==> wants(CliOption::Password)
            &&& args[0] == "--key"@ ==> wants(CliOption::Key)
            &&& args[0] == "--key-passphrase"@ ==> wants(CliOption::KeyPassphrase)
            &&& args[0] == "--tmux"@ || args[0] == "--tmux-session"@ ==> wants(CliOption::Tmux)
            &&& args[0] == "--term"@ ==> wants(CliOption::Term)
            &&& args[0] == "--cols"@ || args[0] == "--columns"@ ==> wants(CliOption::Cols)
            &&& args[0] == "--rows"@ ==> wants(CliOption::Rows)
            &&& args[0] == "--host-key-sha256"@ ==> wants(CliOption::HostKeySha256)
        }),
{
    lemma_spellings_differ();
}

/// Before any argument the secrets are those of the environment, the session is
/// named main, its terminal is a common one of 120 by 40, and nothing else is
/// said.
pub proof fn law_what_is_set_before_any_argument(
    password: Option<Seq<char>>,
    key_passphrase: Option<Seq<char>>,
)
    ensures
        ({
            let config = defaults(password, key_passphrase);
            &&& config.password == password && config.key_passphrase == key_passphrase
            &&& config.tmux_session == "main"@ && config.term == "xterm-256color"@
            &&& config.columns == 120 && config.rows == 40
            &&& config.host is None && config.host_port is None && config.port is None
            &&& config.username is None && config.key is None
            &&& config.host_key_sha256 is None && !config.accept_any_host_key
        }),
{
}

/// A session is the one that the command line describes: its host and user, its
/// tmux session, kind of terminal and size, and its credentials, where a key
/// counts before a password. It is kept alive by a message each fifteen seconds,
/// three of which may stay unanswered.
pub proof fn law_session_is_that_of_the_command_line(config: CliConfigView)
    ensures
        session_config(config) matches Ok(session) ==> {
            &&& Some(session.target.host) == config.host
            &&& Some(session.target.username) == config.username
            &&& session.tmux_session == config.tmux_session
            &&& session.term == config.term
            &&& session.size.columns == config.columns
            &&& session.size.rows == config.rows
            &&& session.size.pixel_width == 0 && session.size.pixel_height == 0
            &&& config.key is Some ==> session.auth == (AuthMethodView::PrivateKey {
                path: config.key->0,
                passphrase: config.key_passphrase,
            })
            &&& config.key is None ==> config.password is Some && session.auth
                == AuthMethodView::Password(config.password->0)
            &&& !config.accept_any_host_key ==> config.host_key_sha256 is Some
                && session.host_key_policy == HostKeyPolicyView::FingerprintSha256(
                config.host_key_sha256->0,
            )
            &&& session.keepalive_interval == whole_seconds(15) && session.keepalive_max == 3
        },
{
}

/// What is missing for a session is told, the first of it in this order: the
/// host, the user, the credentials, the host key policy.
pub proof fn law_what_is_missing_is_told(config: CliConfigView)
    ensures
        session_config(config) matches Err(error) ==> error == if config.host is None {
            CliErrorView::MissingHost
        } else if config.username is None {
            CliErrorView::MissingUser
        } else if config.key is None && config.password is None {
            CliErrorView::MissingAuth
        } else {
            CliErrorView::MissingHostKeyPolicy
        },
{
}

/// What is said of a command line that is refused: the option is named by its
/// first spelling, and an argument or a host as it was written.
pub proof fn law_refusals_in_words(option: CliOption, reason: NumberError, arg: Seq<char>)
    ensures
        error_words(CliErrorView::MissingValue(option)) == option.spelled()
            + " requires a value"@,
        error_words(CliErrorView::NotANumber(option, reason)) == option.spelled()
            + " must be a number"@,
        error_words(CliErrorView::UnknownArgument(arg)) == "unknown argument: "@ + arg,
        error_words(CliErrorView::BadHost(HostErrorView::Invalid(arg))) == "invalid host value: "@
            + arg,
        error_words(CliErrorView::BadHost(HostErrorView::Port(reason)))
            == "host port must be a number"@,
        error_words(CliErrorView::MissingHost) == "missing --host"@,
        error_words(CliErrorView::MissingUser) == "missing --user"@,
        error_words(CliErrorView::MissingAuth)
            == "missing auth method: pass --key, --password, or set ARYLTERM_SSH_PASSWORD"@,
        error_words(CliErrorView::MissingHostKeyPolicy)
            == "missing host key policy: pass --host-key-sha256 or --accept-any-host-key"@,
{
}

/// An option is named in messages by a spelling by which it is also given.
pub proof fn law_option_is_named_as_it_is_given(option: CliOption)
    ensures
        argument(option.spelled()) == Argument::Valued(option),
        option == CliOption::User ==> option.spelled() == "--user"@,
        option == CliOption::Tmux ==> option.spelled() == "--tmux"@,
        option == CliOption::Cols ==> option.spelled() == "--cols"@,
{
    lemma_spellings_differ();
}

/// The reason behind a refusal is that for which a text was no number, and there
/// is one exactly where a text should have been a number.
pub proof fn law_reason_behind_a_refusal(error: CliErrorView)
    ensures
        error_cause(error) == if error is NotANumber {
            Some(error->NotANumber_1)
        } else if error is BadHost && error->BadHost_0 is Port {
            Some(error->BadHost_0->Port_0)
        } else {
            None
        },
{
}

} // verus!
