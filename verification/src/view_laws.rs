//! Contracts speak of values by their views. Here is what a view shows of a
//! value: each part of it, as it is.
use crate::cli::{
    command_view, config_view, texts, CliCommand, CliCommandView, CliConfig, CliError,
    CliErrorView,
};
use crate::config::{
    AuthMethod, AuthMethodView, HostKeyPolicy, HostKeyPolicyView, TmuxSessionConfig,
};
use crate::host::{host_view, HostError, HostErrorView};
use crate::manager::{
    action_views, outcome_text, ConnectionEvent, ConnectionEventView, ManagerAction,
    ManagerActionView, ManagerInput, ManagerInputView, SessionCommand, SessionCommandView,
    SessionEvent, SessionEventView,
};
use crate::payload::contents;
use crate::session::{
    ConnectRequest, ConnectRequestView, HandshakeRequest, HandshakeRequestView, Progress,
    ProgressView, Reply, ReplyView, TmuxRequest, TmuxRequestView,
};
use crate::stdio::{
    event_view, frontend_views, message_view, BridgeAction, BridgeActionView, ChannelMessage,
    ChannelMessageView, FrontendAction, FrontendActionView, ReaderAction, ReaderActionView,
};
use crate::text::opt_text;
use vstd::prelude::*;

verus! {

/// An optional text, and the outcome of an action.
pub proof fn law_view_of_optional_text(text: Option<String>, outcome: Result<(), String>)
    ensures
        text is Some <==> opt_text(text) is Some,
        text is Some ==> opt_text(text)->0 == text->0@,
        outcome is Ok <==> outcome_text(outcome) is Ok,
        outcome is Err ==> outcome_text(outcome)->Err_0 == outcome->Err_0@,
{
}

/// Lists are shown item by item.
pub proof fn law_views_of_lists(
    actions: Seq<ManagerAction>,
    shown: Seq<FrontendAction>,
    args: Seq<String>,
)
    ensures
        action_views(actions).len() == actions.len(),
        forall|i: int|
            0 <= i < actions.len() ==> #[trigger] action_views(actions)[i] == actions[i]@,
        frontend_views(shown).len() == shown.len(),
        forall|i: int| 0 <= i < shown.len() ==> #[trigger] frontend_views(shown)[i] == shown[i]@,
        texts(args).len() == args.len(),
        forall|i: int| 0 <= i < args.len() ==> #[trigger] texts(args)[i] == args[i]@,
{
}

/// What a command line says.
pub proof fn law_view_of_command_line(config: CliConfig)
    ensures
        config@.host == opt_text(config.host),
        config@.host_port == config.host_port,
        config@.port == config.port,
        config@.username == opt_text(config.username),
        config@.password == opt_text(config.password),
        config@.key == opt_text(config.key),
        config@.key_passphrase == opt_text(config.key_passphrase),
        config@.tmux_session == config.tmux_session@,
        config@.term == config.term@,
        config@.columns == config.columns,
        config@.rows == config.rows,
        config@.host_key_sha256 == opt_text(config.host_key_sha256),
        config@.accept_any_host_key == config.accept_any_host_key,
{
}

/// What arguments ask for, and what is made of them.
pub proof fn law_views_of_command_line_results(
    command: Result<CliCommand, CliError>,
    session: Result<TmuxSessionConfig, CliError>,
    host: Result<(String, Option<u16>), HostError>,
)
    ensures
        command matches Ok(CliCommand::Run(config)) ==> command_view(command) == Ok::<
            _,
            CliErrorView,
        >(CliCommandView::Run(config@)),
        command matches Ok(CliCommand::Help) ==> command_view(command) == Ok::<_, CliErrorView>(
            CliCommandView::Help,
        ),
        command matches Err(error) ==> command_view(command) == Err::<CliCommandView, _>(error@),
        session is Ok <==> config_view(session) is Ok,
        session is Ok ==> config_view(session)->Ok_0 == session->Ok_0@,
        session is Err ==> config_view(session)->Err_0 == session->Err_0@,
        host is Ok <==> host_view(host) is Ok,
        host is Ok ==> host_view(host)->Ok_0 == (host->Ok_0.0@, host->Ok_0.1),
        host is Err ==> host_view(host)->Err_0 == host->Err_0@,
{
}

/// Why a command line or a host is refused.
pub proof fn law_views_of_refusals(error: CliError, host: HostError)
    ensures
        match error {
            CliError::MissingValue(option) => error@ == CliErrorView::MissingValue(option),
            CliError::NotANumber(option, reason) => error@ == CliErrorView::NotANumber(
                option,
                reason,
            ),
            CliError::UnknownArgument(arg) => error@ == CliErrorView::UnknownArgument(arg@),
            CliError::BadHost(inner) => error@ == CliErrorView::BadHost(inner@),
            CliError::MissingHost => error@ == CliErrorView::MissingHost,
            CliError::MissingUser => error@ == CliErrorView::MissingUser,
            CliError::MissingAuth => error@ == CliErrorView::MissingAuth,
            CliError::MissingHostKeyPolicy => error@ == CliErrorView::MissingHostKeyPolicy,
        },
        match host {
            HostError::Invalid(input) => host@ == HostErrorView::Invalid(input@),
            HostError::Port(reason) => host@ == HostErrorView::Port(reason),
        },
{
}

/// What a session is made from.
pub proof fn law_view_of_session_config(config: TmuxSessionConfig)
    ensures
        config@.target.host == config.target.host@,
        config@.target.port == config.target.port,
        config@.target.username == config.target.username@,
        match config.auth {
            AuthMethod::Password(password) => config@.auth == AuthMethodView::Password(password@),
            AuthMethod::PrivateKey { path, passphrase } => config@.auth
                == (AuthMethodView::PrivateKey { path: path@, passphrase: opt_text(passphrase) }),
        },
        config@.host_key_policy == config.host_key_policy@,
        match config.host_key_policy {
            HostKeyPolicy::FingerprintSha256(text) => config.host_key_policy@
                == HostKeyPolicyView::FingerprintSha256(text@),
            HostKeyPolicy::InsecureAcceptAny => config.host_key_policy@
                == HostKeyPolicyView::InsecureAcceptAny,
        },
        config@.tmux_session == config.tmux_session@,
        config@.term == config.term@,
        config@.size == config.size,
        config@.keepalive_interval == config.keepalive_interval,
        config@.keepalive_max == config.keepalive_max,
{
}

/// What is asked of the SSH client, and what it answers.
pub proof fn law_views_of_requests(
    handshake: HandshakeRequest,
    tmux: TmuxRequest,
    connect: ConnectRequest,
    reply: Reply,
)
    ensures
        match handshake {
            HandshakeRequest::Dial { host, port, settings, host_key_policy } => handshake@
                == (HandshakeRequestView::Dial {
                host: host@,
                port,
                settings,
                host_key_policy: host_key_policy@,
            }),
            HandshakeRequest::AuthenticatePassword { username, password } => handshake@
                == (HandshakeRequestView::AuthenticatePassword {
                username: username@,
                password: password@,
            }),
            HandshakeRequest::LoadKey { path, passphrase } => handshake@
                == (HandshakeRequestView::LoadKey {
                path: path@,
                passphrase: opt_text(passphrase),
            }),
            HandshakeRequest::QueryRsaHash => handshake@ == HandshakeRequestView::QueryRsaHash,
            HandshakeRequest::AuthenticateKey { username } => handshake@
                == (HandshakeRequestView::AuthenticateKey { username: username@ }),
        },
        match tmux {
            TmuxRequest::OpenChannel => tmux@ == TmuxRequestView::OpenChannel,
            TmuxRequest::RequestPty { term, size, want_reply } => tmux@
                == (TmuxRequestView::RequestPty { term: term@, size, want_reply }),
            TmuxRequest::Exec { command, want_reply } => tmux@ == (TmuxRequestView::Exec {
                command: command@,
                want_reply,
            }),
        },
        match connect {
            ConnectRequest::Handshake => connect@ == ConnectRequestView::Handshake,
            ConnectRequest::OpenTmux => connect@ == ConnectRequestView::OpenTmux,
            ConnectRequest::CloseSession { reason } => connect@
                == (ConnectRequestView::CloseSession { reason: reason@ }),
            ConnectRequest::ApplySize(size) => connect@ == ConnectRequestView::ApplySize(size),
        },
        match reply {
            Reply::Done => reply@ == ReplyView::Done,
            Reply::Rejected => reply@ == ReplyView::Rejected,
            Reply::Failed(reason) => reply@ == ReplyView::Failed(reason@),
        },
{
}

/// How a procedure goes on.
pub proof fn law_view_of_progress<R: View>(progress: Progress<R>)
    ensures
        match progress {
            Progress::Request(request) => progress@ == ProgressView::Request(request@),
            Progress::Finished => progress@ == ProgressView::<R::V>::Finished,
            Progress::Failed(message) => progress@ == ProgressView::<R::V>::Failed(message@),
        },
{
}

/// What the manager is asked, what happens to its connection, and what it tells.
pub proof fn law_views_of_manager_messages(
    command: SessionCommand,
    news: ConnectionEvent,
    event: SessionEvent,
)
    ensures
        match command {
            SessionCommand::Connect => command@ == SessionCommandView::Connect,
            SessionCommand::Disconnect => command@ == SessionCommandView::Disconnect,
            SessionCommand::Write(data) => command@ == SessionCommandView::Write(contents(data)),
            SessionCommand::Resize(size) => command@ == SessionCommandView::Resize(size),
            SessionCommand::Retry => command@ == SessionCommandView::Retry,
            SessionCommand::Shutdown => command@ == SessionCommandView::Shutdown,
        },
        match news {
            ConnectionEvent::Output(data) => news@ == ConnectionEventView::Output(contents(data)),
            ConnectionEvent::Closed { exit_status } => news@ == (ConnectionEventView::Closed {
                exit_status,
            }),
        },
        match event {
            SessionEvent::StateChanged(state) => event@ == SessionEventView::StateChanged(state),
            SessionEvent::Output(data) => event@ == SessionEventView::Output(contents(data)),
            SessionEvent::ExitStatus(status) => event@ == SessionEventView::ExitStatus(status),
            SessionEvent::Error(message) => event@ == SessionEventView::Error(message@),
        },
        event_view(Some(event)) == Some(event@),
        event_view(None) == None::<SessionEventView>,
{
}

/// What comes to the manager, and what it has done.
pub proof fn law_views_of_manager_steps(input: ManagerInput, action: ManagerAction)
    ensures
        match input {
            ManagerInput::Command(None) => input@ == ManagerInputView::Command(None),
            ManagerInput::Command(Some(command)) => input@ == ManagerInputView::Command(
                Some(command@),
            ),
            ManagerInput::Connection(None) => input@ == ManagerInputView::Connection(None),
            ManagerInput::Connection(Some(news)) => input@ == ManagerInputView::Connection(
                Some(news@),
            ),
            ManagerInput::RetryDue => input@ == ManagerInputView::RetryDue,
            ManagerInput::Connected(outcome) => input@ == ManagerInputView::Connected(
                outcome_text(outcome),
            ),
            ManagerInput::Written(outcome) => input@ == ManagerInputView::Written(
                outcome_text(outcome),
            ),
            ManagerInput::Resized(outcome) => input@ == ManagerInputView::Resized(
                outcome_text(outcome),
            ),
        },
        match action {
            ManagerAction::Emit(event) => action@ == ManagerActionView::Emit(event@),
            ManagerAction::Connect(size) => action@ == ManagerActionView::Connect(size),
            ManagerAction::Write(data) => action@ == ManagerActionView::Write(contents(data)),
            ManagerAction::Resize(size) => action@ == ManagerActionView::Resize(size),
            ManagerAction::Close => action@ == ManagerActionView::Close,
            ManagerAction::ScheduleRetry(wait) => action@ == ManagerActionView::ScheduleRetry(wait),
            ManagerAction::Stop => action@ == ManagerActionView::Stop,
        },
{
}

/// What comes through a channel, and what is done with it.
pub proof fn law_views_of_channel_steps(
    message: ChannelMessage,
    reader: ReaderAction,
    bridge: BridgeAction,
    frontend: FrontendAction,
)
    ensures
        match message {
            ChannelMessage::Data(data) => message@ == ChannelMessageView::Data(contents(data)),
            ChannelMessage::ExtendedData(data) => message@ == ChannelMessageView::ExtendedData(
                contents(data),
            ),
            ChannelMessage::ExitStatus(status) => message@ == ChannelMessageView::ExitStatus(
                status,
            ),
            ChannelMessage::Eof => message@ == ChannelMessageView::Eof,
            ChannelMessage::Close => message@ == ChannelMessageView::Close,
            ChannelMessage::Other => message@ == ChannelMessageView::Other,
        },
        message_view(Some(message)) == Some(message@),
        message_view(None) == None::<ChannelMessageView>,
        match reader {
            ReaderAction::Continue => reader@ == ReaderActionView::Continue,
            ReaderAction::Forward(event) => reader@ == ReaderActionView::Forward(event@),
            ReaderAction::Finish(event) => reader@ == ReaderActionView::Finish(event@),
            ReaderAction::Stop => reader@ == ReaderActionView::Stop,
        },
        match bridge {
            BridgeAction::Continue => bridge@ == BridgeActionView::Continue,
            BridgeAction::SendEof => bridge@ == BridgeActionView::SendEof,
            BridgeAction::Write(data) => bridge@ == BridgeActionView::Write(contents(data)),
            BridgeAction::Print(data) => bridge@ == BridgeActionView::Print(contents(data)),
            BridgeAction::Finish(status) => bridge@ == BridgeActionView::Finish(status),
        },
        match frontend {
            FrontendAction::Send(command) => frontend@ == FrontendActionView::Send(command@),
            FrontendAction::Print(data) => frontend@ == FrontendActionView::Print(contents(data)),
            FrontendAction::LogState(state) => frontend@ == FrontendActionView::LogState(state),
            FrontendAction::LogError(text) => frontend@ == FrontendActionView::LogError(text@),
            FrontendAction::Finish(status) => frontend@ == FrontendActionView::Finish(status),
        },
{
}

} // verus!
