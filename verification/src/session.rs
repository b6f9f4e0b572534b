//! Opening a tmux session over SSH: which request follows which, what each
//! request holds, and what is reported where one fails.
//!
//! Three procedures, each a step at a time: [`handshake_next`] reaches a server
//! and authenticates, [`tmux_next`] starts tmux in a terminal, and
//! [`connect_next`] does both and sets the size of the terminal.
use crate::config::{
    attach_command, law_attach_command_names_the_session, AuthMethod, AuthMethodView, HostKeyPolicy,
    HostKeyPolicyView, TerminalSize, TmuxSessionConfig, TmuxSessionConfigView,
};
use crate::shell::shell_words;
use crate::text::{decimal, opt_text, to_decimal};
use std::time::Duration;
use vstd::prelude::*;
use vstd::string::*;

verus! {

/// How the SSH client is set up.
#[derive(Clone, Copy, Debug)]
pub struct ClientSettings {
    /// The time between two keepalive messages.
    pub keepalive_interval: Option<Duration>,
    /// How many keepalive messages may stay unanswered.
    pub keepalive_max: usize,
    /// The time without traffic after which to hang up, if any.
    pub inactivity_timeout: Option<Duration>,
    /// Whether small packets are sent at once.
    pub nodelay: bool,
}

/// The settings for a session: keepalive as configured, no delay, and no limit
/// on inactivity.
pub open spec fn settings_for(config: TmuxSessionConfigView) -> ClientSettings {
    ClientSettings {
        keepalive_interval: Some(config.keepalive_interval),
        keepalive_max: config.keepalive_max,
        inactivity_timeout: None,
        nodelay: true,
    }
}

/// How the SSH client is set up for a session.
pub fn client_settings(config: &TmuxSessionConfig) -> (settings: ClientSettings)
    ensures
        settings == settings_for(config@),
        settings.keepalive_interval == Some(config.keepalive_interval),
        settings.keepalive_max == config.keepalive_max,
{
    ClientSettings {
        keepalive_interval: Some(config.keepalive_interval),
        keepalive_max: config.keepalive_max,
        inactivity_timeout: None,
        nodelay: true,
    }
}

/// What is asked of the SSH client to reach and enter a server.
#[derive(Debug)]
pub enum HandshakeRequest {
    /// Connect to an address and exchange keys, with a server whose key the
    /// policy accepts.
    Dial { host: String, port: u16, settings: ClientSettings, host_key_policy: HostKeyPolicy },
    AuthenticatePassword { username: String, password: String },
    /// Load the private key in a file.
    LoadKey { path: String, passphrase: Option<String> },
    /// Ask which hash the server takes with an RSA key.
    QueryRsaHash,
    /// Authenticate with the key that was loaded and the hash that was found.
    AuthenticateKey { username: String },
}

pub enum HandshakeRequestView {
    Dial {
        host: Seq<char>,
        port: u16,
        settings: ClientSettings,
        host_key_policy: HostKeyPolicyView,
    },
    AuthenticatePassword { username: Seq<char>, password: Seq<char> },
    LoadKey { path: Seq<char>, passphrase: Option<Seq<char>> },
    QueryRsaHash,
    AuthenticateKey { username: Seq<char> },
}

impl View for HandshakeRequest {
    type V = HandshakeRequestView;

    open spec fn view(&self) -> HandshakeRequestView {
        match self {
            HandshakeRequest::Dial { host, port, settings, host_key_policy } =>
                HandshakeRequestView::Dial {
                host: host@,
                port: *port,
                settings: *settings,
                host_key_policy: host_key_policy@,
            },
            HandshakeRequest::AuthenticatePassword { username, password } =>
                HandshakeRequestView::AuthenticatePassword {
                username: username@,
                password: password@,
            },
            HandshakeRequest::LoadKey { path, passphrase } => HandshakeRequestView::LoadKey {
                path: path@,
                passphrase: opt_text(*passphrase),
            },
            HandshakeRequest::QueryRsaHash => HandshakeRequestView::QueryRsaHash,
            HandshakeRequest::AuthenticateKey { username } =>
                HandshakeRequestView::AuthenticateKey { username: username@ },
        }
    }
}

/// How a request ended.
#[derive(Debug)]
pub enum Reply {
    Done,
    /// The server answered an authentication with no.
    Rejected,
    /// The request could not be carried out, for this reason.
    Failed(String),
}

pub enum ReplyView {
    Done,
    Rejected,
    Failed(Seq<char>),
}

impl View for Reply {
    type V = ReplyView;

    open spec fn view(&self) -> ReplyView {
        match self {
            Reply::Done => ReplyView::Done,
            Reply::Rejected => ReplyView::Rejected,
            Reply::Failed(reason) => ReplyView::Failed(reason@),
        }
    }
}

/// How a procedure goes on after a reply.
#[derive(Debug)]
pub enum Progress<R> {
    /// With this request.
    Request(R),
    /// It has succeeded.
    Finished,
    /// It has failed, with this message.
    Failed(String),
}

pub enum ProgressView<V> {
    Request(V),
    Finished,
    Failed(Seq<char>),
}

impl<R: View> View for Progress<R> {
    type V = ProgressView<R::V>;

    open spec fn view(&self) -> ProgressView<R::V> {
        match self {
            Progress::Request(request) => ProgressView::Request(request@),
            Progress::Finished => ProgressView::Finished,
            Progress::Failed(message) => ProgressView::Failed(message@),
        }
    }
}

/// The first request: to dial the server.
pub open spec fn dial(config: TmuxSessionConfigView) -> HandshakeRequestView {
    HandshakeRequestView::Dial {
        host: config.target.host,
        port: config.target.port,
        settings: settings_for(config),
        host_key_policy: config.host_key_policy,
    }
}

/// The request after `request` was done: authentication after dialling, with a
/// password or with a key, which is loaded first. `None` after the last.
pub open spec fn handshake_after(
    config: TmuxSessionConfigView,
    request: HandshakeRequestView,
) -> Option<HandshakeRequestView> {
    match request {
        HandshakeRequestView::Dial { .. } => Some(
            match config.auth {
                AuthMethodView::Password(password) => HandshakeRequestView::AuthenticatePassword {
                    username: config.target.username,
                    password,
                },
                AuthMethodView::PrivateKey { path, passphrase } => HandshakeRequestView::LoadKey {
                    path,
                    passphrase,
                },
            },
        ),
        HandshakeRequestView::LoadKey { .. } => Some(HandshakeRequestView::QueryRsaHash),
        HandshakeRequestView::QueryRsaHash => Some(
            HandshakeRequestView::AuthenticateKey { username: config.target.username },
        ),
        HandshakeRequestView::AuthenticatePassword { .. } => None,
        HandshakeRequestView::AuthenticateKey { .. } => None,
    }
}

/// What is reported where a request fails for some reason. Only the query for
/// the hash is reported by its reason.
pub open spec fn handshake_failure(request: HandshakeRequestView, reason: Seq<char>) -> Seq<char> {
    match request {
        HandshakeRequestView::Dial { host, port, .. } => "failed to connect to "@ + host + ":"@
            + decimal(port as nat),
        HandshakeRequestView::AuthenticatePassword { .. } => "password authentication failed"@,
        HandshakeRequestView::LoadKey { path, .. } => "failed to load private key "@ + path,
        HandshakeRequestView::QueryRsaHash => reason,
        HandshakeRequestView::AuthenticateKey { .. } => "public key authentication failed"@,
    }
}

/// Whether a request is one that a server can reject.
pub open spec fn authenticates(request: HandshakeRequestView) -> bool {
    request is AuthenticatePassword || request is AuthenticateKey
}

/// How the handshake goes on after the reply to a request.
pub open spec fn handshake_step(
    config: TmuxSessionConfigView,
    request: HandshakeRequestView,
    reply: ReplyView,
) -> ProgressView<HandshakeRequestView> {
    match reply {
        ReplyView::Failed(reason) => ProgressView::Failed(handshake_failure(request, reason)),
        ReplyView::Rejected => ProgressView::Failed("SSH authentication rejected by server"@),
        ReplyView::Done => match handshake_after(config, request) {
            Some(next) => ProgressView::Request(next),
            None => ProgressView::Finished,
        },
    }
}

/// The request that a handshake starts with.
pub fn handshake_start(config: &TmuxSessionConfig) -> (request: HandshakeRequest)
    ensures
        request@ == dial(config@),
        request matches HandshakeRequest::Dial { host, port, host_key_policy, .. } && host@
            == config.target.host@ && port == config.target.port && host_key_policy
            == config.host_key_policy,
{
    let (host, port) = config.target.address();
    HandshakeRequest::Dial {
        host: host.to_owned(),
        port,
        settings: client_settings(config),
        host_key_policy: config.host_key_policy.clone(),
    }
}

/// How a server is entered once it is reached: the first request to do so.
fn authentication_start(config: &TmuxSessionConfig) -> (request: HandshakeRequest)
    ensures
        Some(request@) == handshake_after(config@, dial(config@)),
{
    match &config.auth {
        AuthMethod::Password(password) => HandshakeRequest::AuthenticatePassword {
            username: config.target.username.clone(),
            password: password.clone(),
        },
        AuthMethod::PrivateKey { path, passphrase } => HandshakeRequest::LoadKey {
            path: path.clone(),
            passphrase: passphrase.clone(),
        },
    }
}

/// How the handshake goes on after the reply to a request.
pub fn handshake_next(
    config: &TmuxSessionConfig,
    request: &HandshakeRequest,
    reply: Reply,
) -> (progress: Progress<HandshakeRequest>)
    ensures
        progress@ == handshake_step(config@, request@, reply@),
{
    match reply {
        Reply::Rejected => Progress::Failed("SSH authentication rejected by server".to_owned()),
        Reply::Failed(reason) => Progress::Failed(
            match request {
                HandshakeRequest::Dial { host, port, .. } => {
                    let mut message = "failed to connect to ".to_owned();
                    message.append(host.as_str());
                    message.append(":");
                    message.append(to_decimal(*port).as_str());
                    message
                },
                HandshakeRequest::AuthenticatePassword { .. } =>
                    "password authentication failed".to_owned(),
                HandshakeRequest::LoadKey { path, .. } => {
                    let mut message = "failed to load private key ".to_owned();
                    message.append(path.as_str());
                    message
                },
                HandshakeRequest::QueryRsaHash => reason,
                HandshakeRequest::AuthenticateKey { .. } =>
                    "public key authentication failed".to_owned(),
            },
        ),
        Reply::Done => match request {
            HandshakeRequest::Dial { .. } => Progress::Request(authentication_start(config)),
            HandshakeRequest::LoadKey { .. } => Progress::Request(HandshakeRequest::QueryRsaHash),
            HandshakeRequest::QueryRsaHash => Progress::Request(
                HandshakeRequest::AuthenticateKey { username: config.target.username.clone() },
            ),
            HandshakeRequest::AuthenticatePassword { .. } => Progress::Finished,
            HandshakeRequest::AuthenticateKey { .. } => Progress::Finished,
        },
    }
}

/// What is asked of the SSH client to start tmux.
#[derive(Debug)]
pub enum TmuxRequest {
    OpenChannel,
    /// Ask for a terminal of this kind and size.
    RequestPty { term: String, size: TerminalSize, want_reply: bool },
    /// Run a command in the terminal.
    Exec { command: String, want_reply: bool },
}

pub enum TmuxRequestView {
    OpenChannel,
    RequestPty { term: Seq<char>, size: TerminalSize, want_reply: bool },
    Exec { command: Seq<char>, want_reply: bool },
}

impl View for TmuxRequest {
    type V = TmuxRequestView;

    open spec fn view(&self) -> TmuxRequestView {
        match self {
            TmuxRequest::OpenChannel => TmuxRequestView::OpenChannel,
            TmuxRequest::RequestPty { term, size, want_reply } => TmuxRequestView::RequestPty {
                term: term@,
                size: *size,
                want_reply: *want_reply,
            },
            TmuxRequest::Exec { command, want_reply } => TmuxRequestView::Exec {
                command: command@,
                want_reply: *want_reply,
            },
        }
    }
}

/// The terminal that a session asks for, with a reply.
pub open spec fn pty_request(config: TmuxSessionConfigView) -> TmuxRequestView {
    TmuxRequestView::RequestPty { term: config.term, size: config.size, want_reply: true }
}

/// The command that a session runs in its terminal, with a reply.
pub open spec fn exec_request(config: TmuxSessionConfigView) -> TmuxRequestView {
    TmuxRequestView::Exec { command: attach_command(config.tmux_session), want_reply: true }
}

/// How the start of tmux goes on after a request was done, or failed: a
/// channel, a terminal in it, and the attach command in the terminal.
pub open spec fn tmux_step(
    config: TmuxSessionConfigView,
    request: TmuxRequestView,
    done: bool,
) -> ProgressView<TmuxRequestView> {
    match request {
        TmuxRequestView::OpenChannel => if done {
            ProgressView::Request(pty_request(config))
        } else {
            ProgressView::Failed("failed to open SSH session channel"@)
        },
        TmuxRequestView::RequestPty { .. } => if done {
            ProgressView::Request(exec_request(config))
        } else {
            ProgressView::Failed("failed to request remote PTY"@)
        },
        TmuxRequestView::Exec { .. } => if done {
            ProgressView::Finished
        } else {
            ProgressView::Failed("failed to execute tmux attach command"@)
        },
    }
}

/// How the start of tmux goes on after a request. It begins with
/// [`TmuxRequest::OpenChannel`].
pub fn tmux_next(config: &TmuxSessionConfig, request: &TmuxRequest, done: bool) -> (progress:
    Progress<TmuxRequest>)
    ensures
        progress@ == tmux_step(config@, request@, done),
        request is OpenChannel && done ==> (progress matches Progress::Request(
            TmuxRequest::RequestPty { term, size, .. },
        ) && term@ == config.term@ && size == config.size),
        request is RequestPty && done ==> (progress matches Progress::Request(
            TmuxRequest::Exec { command, .. },
        ) && shell_words(command@) == Some(
            seq!["tmux"@, "new-session"@, "-A"@, "-s"@, config.tmux_session@],
        )),
{
    match request {
        TmuxRequest::OpenChannel => if done {
            Progress::Request(
                TmuxRequest::RequestPty {
                    term: config.term.clone(),
                    size: config.size,
                    want_reply: true,
                },
            )
        } else {
            Progress::Failed("failed to open SSH session channel".to_owned())
        },
        TmuxRequest::RequestPty { .. } => if done {
            Progress::Request(
                TmuxRequest::Exec { command: config.tmux_attach_command(), want_reply: true },
            )
        } else {
            Progress::Failed("failed to request remote PTY".to_owned())
        },
        TmuxRequest::Exec { .. } => if done {
            Progress::Finished
        } else {
            Progress::Failed("failed to execute tmux attach command".to_owned())
        },
    }
}

/// What is asked for to open a connection.
#[derive(Debug)]
pub enum ConnectRequest {
    /// Reach the server and enter it.
    Handshake,
    /// Start tmux on the server.
    OpenTmux,
    /// Leave the server, since tmux could not be started, for this reason.
    CloseSession { reason: String },
    /// Give the terminal its size.
    ApplySize(TerminalSize),
}

pub enum ConnectRequestView {
    Handshake,
    OpenTmux,
    CloseSession { reason: Seq<char> },
    ApplySize(TerminalSize),
}

impl View for ConnectRequest {
    type V = ConnectRequestView;

    open spec fn view(&self) -> ConnectRequestView {
        match self {
            ConnectRequest::Handshake => ConnectRequestView::Handshake,
            ConnectRequest::OpenTmux => ConnectRequestView::OpenTmux,
            ConnectRequest::CloseSession { reason } => ConnectRequestView::CloseSession {
                reason: reason@,
            },
            ConnectRequest::ApplySize(size) => ConnectRequestView::ApplySize(*size),
        }
    }
}

/// How the opening of a connection goes on after a request ended. Where tmux
/// cannot be started, the server is left first; whether that works does not
/// matter.
pub open spec fn connect_step(
    size: TerminalSize,
    request: ConnectRequestView,
    outcome: Result<(), Seq<char>>,
) -> ProgressView<ConnectRequestView> {
    match (request, outcome) {
        (ConnectRequestView::Handshake, Ok(())) => ProgressView::Request(
            ConnectRequestView::OpenTmux,
        ),
        (ConnectRequestView::Handshake, Err(message)) => ProgressView::Failed(message),
        (ConnectRequestView::OpenTmux, Ok(())) => ProgressView::Request(
            ConnectRequestView::ApplySize(size),
        ),
        (ConnectRequestView::OpenTmux, Err(message)) => ProgressView::Request(
            ConnectRequestView::CloseSession { reason: message },
        ),
        (ConnectRequestView::CloseSession { reason }, _) => ProgressView::Failed(reason),
        (ConnectRequestView::ApplySize(_), Ok(())) => ProgressView::Finished,
        (ConnectRequestView::ApplySize(_), Err(_)) => ProgressView::Failed(
            "failed to apply PTY size after connection"@,
        ),
    }
}

/// How the opening of a connection goes on after a request ended. It begins
/// with [`ConnectRequest::Handshake`].
pub fn connect_next(
    size: TerminalSize,
    request: ConnectRequest,
    outcome: Result<(), String>,
) -> (progress: Progress<ConnectRequest>)
    ensures
        progress@ == connect_step(size, request@, crate::manager::outcome_text(outcome)),
{
    match request {
        ConnectRequest::Handshake => match outcome {
            Ok(()) => Progress::Request(ConnectRequest::OpenTmux),
            Err(message) => Progress::Failed(message),
        },
        ConnectRequest::OpenTmux => match outcome {
            Ok(()) => Progress::Request(ConnectRequest::ApplySize(size)),
            Err(message) => Progress::Request(ConnectRequest::CloseSession { reason: message }),
        },
        ConnectRequest::CloseSession { reason } => Progress::Failed(reason),
        ConnectRequest::ApplySize(_) => match outcome {
            Ok(()) => Progress::Finished,
            Err(_) => Progress::Failed("failed to apply PTY size after connection".to_owned()),
        },
    }
}

/// How many requests can still come after one, in a handshake.
pub open spec fn handshake_left(request: HandshakeRequestView) -> nat {
    match request {
        HandshakeRequestView::Dial { .. } => 3,
        HandshakeRequestView::LoadKey { .. } => 2,
        HandshakeRequestView::QueryRsaHash => 1,
        HandshakeRequestView::AuthenticatePassword { .. } => 0,
        HandshakeRequestView::AuthenticateKey { .. } => 0,
    }
}

/// A handshake ends: each request is followed by one that has fewer after it.
pub proof fn law_handshake_ends(
    config: TmuxSessionConfigView,
    request: HandshakeRequestView,
    reply: ReplyView,
)
    ensures
        handshake_step(config, request, reply) matches ProgressView::Request(next)
            ==> handshake_left(next) < handshake_left(request),
{
}

/// A handshake dials once, with its first request.
pub proof fn law_handshake_dials_once(
    config: TmuxSessionConfigView,
    request: HandshakeRequestView,
    reply: ReplyView,
)
    ensures
        dial(config) is Dial,
        handshake_step(config, request, reply) matches ProgressView::Request(next)
            ==> !(next is Dial),
{
}

/// A handshake succeeds only where the server has said yes to an
/// authentication.
pub proof fn law_handshake_needs_authentication(
    config: TmuxSessionConfigView,
    request: HandshakeRequestView,
    reply: ReplyView,
)
    ensures
        handshake_step(config, request, reply) is Finished <==> authenticates(request)
            && reply is Done,
{
}

/// The requests of a handshake in which all goes well.
pub open spec fn handshake_plan(config: TmuxSessionConfigView) -> Seq<HandshakeRequestView> {
    let username = config.target.username;
    match config.auth {
        AuthMethodView::Password(password) => seq![
            dial(config),
            HandshakeRequestView::AuthenticatePassword { username, password },
        ],
        AuthMethodView::PrivateKey { path, passphrase } => seq![
            dial(config),
            HandshakeRequestView::LoadKey { path, passphrase },
            HandshakeRequestView::QueryRsaHash,
            HandshakeRequestView::AuthenticateKey { username },
        ],
    }
}

/// A handshake makes the requests of its plan, in order, for as long as each
/// is done, and then has succeeded.
pub proof fn law_handshake_follows_its_plan(config: TmuxSessionConfigView, i: int)
    requires
        0 <= i < handshake_plan(config).len(),
    ensures
        handshake_plan(config)[0] == dial(config),
        handshake_step(config, handshake_plan(config)[i], ReplyView::Done) == if i + 1
            < handshake_plan(config).len() {
            ProgressView::Request(handshake_plan(config)[i + 1])
        } else {
            ProgressView::Finished
        },
{
}

/// The requests that start tmux when all goes well.
pub open spec fn tmux_plan(config: TmuxSessionConfigView) -> Seq<TmuxRequestView> {
    seq![TmuxRequestView::OpenChannel, pty_request(config), exec_request(config)]
}

/// tmux is started by the requests of the plan, in order, for as long as each
/// is done; one that is not ends it.
pub proof fn law_tmux_follows_its_plan(config: TmuxSessionConfigView, i: int)
    requires
        0 <= i < tmux_plan(config).len(),
    ensures
        tmux_step(config, tmux_plan(config)[i], true) == if i + 1 < tmux_plan(config).len() {
            ProgressView::Request(tmux_plan(config)[i + 1])
        } else {
            ProgressView::Finished
        },
        tmux_step(config, tmux_plan(config)[i], false) is Failed,
{
}

/// A connection is opened by a handshake, then tmux, then the size, for as long
/// as each succeeds.
pub proof fn law_connect_order(size: TerminalSize)
    ensures
        connect_step(size, ConnectRequestView::Handshake, Ok(())) == ProgressView::Request(
            ConnectRequestView::OpenTmux,
        ),
        connect_step(size, ConnectRequestView::OpenTmux, Ok(())) == ProgressView::Request(
            ConnectRequestView::ApplySize(size),
        ),
        connect_step(size, ConnectRequestView::ApplySize(size), Ok(()))
            == ProgressView::<ConnectRequestView>::Finished,
{
}

/// The server is left again exactly where tmux could not be started, and that
/// failure is what is reported, whether or not leaving works.
pub proof fn law_failed_tmux_leaves_the_server(
    size: TerminalSize,
    request: ConnectRequestView,
    outcome: Result<(), Seq<char>>,
    reason: Seq<char>,
    left: Result<(), Seq<char>>,
)
    ensures
        connect_step(size, request, outcome) == ProgressView::Request(
            ConnectRequestView::CloseSession { reason },
        ) <==> request is OpenTmux && outcome == Err::<(), Seq<char>>(reason),
        connect_step(size, ConnectRequestView::CloseSession { reason }, left)
            == ProgressView::<ConnectRequestView>::Failed(reason),
{
}

/// A connection counts as open only once its terminal has its size.
pub proof fn law_connect_needs_the_size(
    size: TerminalSize,
    request: ConnectRequestView,
    outcome: Result<(), Seq<char>>,
)
    ensures
        connect_step(size, request, outcome) is Finished <==> request is ApplySize && outcome
            is Ok,
{
}

/// Whatever the way to authenticate, the server that is dialled is the one of
/// the session, at its port and under its host key policy; keepalive is as
/// configured, small packets are not held back, and silence is no reason to hang
/// up.
pub proof fn law_dials_the_server_of_the_session(config: TmuxSessionConfigView)
    ensures
        dial(config) matches HandshakeRequestView::Dial { host, port, settings, host_key_policy }
            && {
            &&& host == config.target.host
            &&& port == config.target.port
            &&& host_key_policy == config.host_key_policy
            &&& settings.keepalive_interval == Some(config.keepalive_interval)
            &&& settings.keepalive_max == config.keepalive_max
            &&& settings.inactivity_timeout == None::<Duration>
            &&& settings.nodelay
        },
        settings_for(config) == dial(config)->settings,
{
}

/// A server that was reached is entered as the user of the session. With a
/// password that takes one request; with a key, the key is loaded from its file,
/// the hash for it is asked for, and then the key is used.
pub proof fn law_enters_as_the_user_of_the_session(
    config: TmuxSessionConfigView,
    request: HandshakeRequestView,
)
    ensures
        ({
            let next = handshake_step(config, request, ReplyView::Done);
            &&& request is Dial ==> (config.auth matches AuthMethodView::Password(password) ==> next
                == ProgressView::Request(
                HandshakeRequestView::AuthenticatePassword {
                    username: config.target.username,
                    password,
                },
            ))
            &&& request is Dial ==> (config.auth matches AuthMethodView::PrivateKey {
                path,
                passphrase,
            } ==> next == ProgressView::Request(
                HandshakeRequestView::LoadKey { path, passphrase },
            ))
            &&& request is LoadKey ==> next == ProgressView::Request(
                HandshakeRequestView::QueryRsaHash,
            )
            &&& request is QueryRsaHash ==> next == ProgressView::Request(
                HandshakeRequestView::AuthenticateKey { username: config.target.username },
            )
            &&& request is AuthenticatePassword ==> next is Finished
            &&& request is AuthenticateKey ==> next is Finished
        }),
{
}

/// A request that fails ends the handshake with a message on that request; a
/// rejection ends it as such. No other request follows.
pub proof fn law_failed_handshake_says_what_failed(
    config: TmuxSessionConfigView,
    request: HandshakeRequestView,
    reason: Seq<char>,
)
    ensures
        ({
            let failed = handshake_step(config, request, ReplyView::Failed(reason));
            &&& request matches HandshakeRequestView::Dial { host, port, .. } ==> failed
                == ProgressView::<HandshakeRequestView>::Failed(
                "failed to connect to "@ + host + ":"@ + decimal(port as nat),
            )
            &&& request matches HandshakeRequestView::LoadKey { path, .. } ==> failed
                == ProgressView::<HandshakeRequestView>::Failed(
                "failed to load private key "@ + path,
            )
            &&& request is QueryRsaHash ==> failed == ProgressView::<HandshakeRequestView>::Failed(
                reason,
            )
            &&& request is AuthenticatePassword ==> failed == ProgressView::<
                HandshakeRequestView,
            >::Failed("password authentication failed"@)
            &&& request is AuthenticateKey ==> failed == ProgressView::<
                HandshakeRequestView,
            >::Failed("public key authentication failed"@)
        }),
        handshake_step(config, request, ReplyView::Rejected) == ProgressView::<
            HandshakeRequestView,
        >::Failed("SSH authentication rejected by server"@),
{
}

/// In a channel that was opened a terminal of the kind and size of the session
/// is asked for, and in the terminal a command is run that a shell reads as the
/// call of tmux with the name of the session. Both ask for a reply, and then
/// tmux is started.
pub proof fn law_starts_the_tmux_session_of_the_config(
    config: TmuxSessionConfigView,
    request: TmuxRequestView,
)
    ensures
        ({
            let next = tmux_step(config, request, true);
            &&& request is OpenChannel ==> next == ProgressView::Request(
                TmuxRequestView::RequestPty {
                    term: config.term,
                    size: config.size,
                    want_reply: true,
                },
            )
            &&& request is RequestPty ==> (next matches ProgressView::Request(
                TmuxRequestView::Exec { command, want_reply },
            ) && want_reply && command == attach_command(config.tmux_session) && shell_words(
                command,
            ) == Some(seq!["tmux"@, "new-session"@, "-A"@, "-s"@, config.tmux_session]))
            &&& request is Exec ==> next is Finished
        }),
{
    law_attach_command_names_the_session(config.tmux_session);
}

/// Where one of these requests fails, tmux is not started, and the message says
/// which one.
pub proof fn law_failed_tmux_says_what_failed(
    config: TmuxSessionConfigView,
    request: TmuxRequestView,
)
    ensures
        tmux_step(config, request, false) == ProgressView::<TmuxRequestView>::Failed(
            if request is OpenChannel {
                "failed to open SSH session channel"@
            } else if request is RequestPty {
                "failed to request remote PTY"@
            } else {
                "failed to execute tmux attach command"@
            },
        ),
{
}

/// A handshake that fails is reported with its own message, and at once; a size
/// that cannot be set is reported as such.
pub proof fn law_failed_connection_says_what_failed(
    size: TerminalSize,
    asked: TerminalSize,
    message: Seq<char>,
)
    ensures
        connect_step(size, ConnectRequestView::Handshake, Err(message)) == ProgressView::<
            ConnectRequestView,
        >::Failed(message),
        connect_step(size, ConnectRequestView::ApplySize(asked), Err(message)) == ProgressView::<
            ConnectRequestView,
        >::Failed("failed to apply PTY size after connection"@),
{
}

} // verus!
