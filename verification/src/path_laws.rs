//! What holds of the whole way between the user and the remote program: from the
//! command line to the server, and through the reader of the channel, the manager,
//! and the terminal program.
use crate::cli::{session_config, CliConfigView};
use crate::config::{law_attach_command_names_the_session, HostKeyPolicyView};
use crate::hostkey::trusted;
use crate::manager::{
    initial, on_input, valid, ConnectionEventView, ManagerActionView, ManagerInputView, ManagerView, Phase,
    SessionCommandView, SessionEventView,
};
use crate::manager_laws::told;
use crate::session::{
    dial, handshake_step, tmux_step, HandshakeRequestView, ProgressView, ReplyView, TmuxRequestView,
};
use crate::shell::shell_words;
use crate::stdio::{
    data_in, ends, on_event_told, on_input_read, reading, status_of, ChannelMessageView,
    FrontendActionView, ReaderActionView,
};
use vstd::prelude::*;

verus! {

/// The server is dialled under the host key policy of the command line: any key
/// is accepted exactly where that was asked for, and otherwise just the keys
/// with the fingerprint that was given.
pub proof fn law_server_is_dialled_under_the_policy_asked_for(
    config: CliConfigView,
    fingerprint: Seq<char>,
)
    requires
        session_config(config) is Ok,
    ensures
        dial(session_config(config)->Ok_0) matches HandshakeRequestView::Dial {
            host_key_policy,
            ..
        } && {
            &&& host_key_policy is InsecureAcceptAny <==> config.accept_any_host_key
            &&& !config.accept_any_host_key ==> config.host_key_sha256 is Some
                && host_key_policy == HostKeyPolicyView::FingerprintSha256(
                config.host_key_sha256->0,
            )
            &&& trusted(host_key_policy, fingerprint) <==> config.accept_any_host_key
                || config.host_key_sha256 == Some(fingerprint)
        },
{
}

/// The program ends with the status with which the remote program ended.
pub proof fn law_remote_status_is_the_program_s(
    m: ManagerView,
    messages: Seq<ChannelMessageView>,
    end: Option<ChannelMessageView>,
    status: u32,
)
    requires
        valid(m),
        m.phase == Phase::Idle,
        m.active,
        status_of(messages) == Some(status),
        ends(end),
    ensures
        ({
            let closed = ConnectionEventView::Closed { exit_status: Some(status) };
            &&& reading(status_of(messages), end) == ReaderActionView::Finish(closed)
            &&& on_input(m, ManagerInputView::Connection(Some(closed))).actions.contains(
                ManagerActionView::Emit(SessionEventView::ExitStatus(status)),
            )
            &&& on_event_told(Some(SessionEventView::ExitStatus(status)))
                == FrontendActionView::Finish(status)
        }),
{
    let closed = ConnectionEventView::Closed { exit_status: Some(status) };
    assert(on_input(m, ManagerInputView::Connection(Some(closed))).actions[1]
        == ManagerActionView::Emit(SessionEventView::ExitStatus(status)));
}

/// What the user types reaches the open connection as it was typed.
pub proof fn law_typed_input_is_sent(m: ManagerView, data: Seq<u8>)
    requires
        valid(m),
        m.phase == Phase::Idle,
        m.active,
        data.len() > 0,
    ensures
        on_input_read(data) == seq![FrontendActionView::Send(SessionCommandView::Write(data))],
        on_input(m, told(SessionCommandView::Write(data))).actions == seq![
            ManagerActionView::Write(data),
        ],
{
    assert(on_input(m, told(SessionCommandView::Write(data))).actions =~= seq![
        ManagerActionView::Write(data),
    ]);
}

/// What the remote program prints, on either stream, is shown as it was
/// printed.
pub proof fn law_remote_output_is_shown(
    m: ManagerView,
    known: Option<u32>,
    message: ChannelMessageView,
    data: Seq<u8>,
)
    requires
        valid(m),
        m.phase == Phase::Idle,
        m.active,
        data_in(Some(message)) == Some(data),
    ensures
        ({
            let output = ConnectionEventView::Output(data);
            &&& reading(known, Some(message)) == ReaderActionView::Forward(output)
            &&& on_input(m, ManagerInputView::Connection(Some(output))).actions == seq![
                ManagerActionView::Emit(SessionEventView::Output(data)),
            ]
            &&& on_event_told(Some(SessionEventView::Output(data))) == FrontendActionView::Print(
                data,
            )
        }),
{
    let output = ConnectionEventView::Output(data);
    assert(on_input(m, ManagerInputView::Connection(Some(output))).actions =~= seq![
        ManagerActionView::Emit(SessionEventView::Output(data)),
    ]);
}

/// The end of the user's input ends the session and then the program.
pub proof fn law_end_of_input_disconnects(m: ManagerView)
    requires
        valid(m),
        m.phase == Phase::Idle,
    ensures
        on_input_read(Seq::empty()) == seq![
            FrontendActionView::Send(SessionCommandView::Disconnect),
            FrontendActionView::Finish(0),
        ],
        !on_input(m, told(SessionCommandView::Disconnect)).manager.active,
        m.active ==> on_input(m, told(SessionCommandView::Disconnect)).actions.contains(
            ManagerActionView::Close,
        ),
{
    if m.active {
        assert(on_input(m, told(SessionCommandView::Disconnect)).actions[0]
            == ManagerActionView::Close);
    }
}

/// The server that is dialled is the one of the command line, at the port of the
/// port option, else at that of the host, else at that of SSH, whatever the
/// credentials; and it is entered as the user of the command line.
pub proof fn law_server_of_the_command_line_is_dialled(config: CliConfigView)
    requires
        session_config(config) is Ok,
    ensures
        ({
            let session = session_config(config)->Ok_0;
            let entered = handshake_step(session, dial(session), ReplyView::Done);
            &&& dial(session) matches HandshakeRequestView::Dial { host, port, .. } && Some(host)
                == config.host && port == if config.port is Some {
                config.port->0
            } else if config.host_port is Some {
                config.host_port->0
            } else {
                22
            }
            &&& config.key is Some ==> entered == ProgressView::Request(
                HandshakeRequestView::LoadKey {
                    path: config.key->0,
                    passphrase: config.key_passphrase,
                },
            )
            &&& config.key is None ==> entered == ProgressView::Request(
                HandshakeRequestView::AuthenticatePassword {
                    username: config.username->0,
                    password: config.password->0,
                },
            )
            &&& handshake_step(session, HandshakeRequestView::QueryRsaHash, ReplyView::Done)
                == ProgressView::Request(
                HandshakeRequestView::AuthenticateKey { username: config.username->0 },
            )
        }),
{
}

/// The terminal that is asked for has the kind and the size of the command line,
/// and what is run in it attaches to the tmux session of the command line.
pub proof fn law_tmux_session_of_the_command_line_is_started(
    config: CliConfigView,
    asked: TmuxRequestView,
)
    requires
        session_config(config) is Ok,
        asked is RequestPty,
    ensures
        ({
            let session = session_config(config)->Ok_0;
            &&& tmux_step(session, TmuxRequestView::OpenChannel, true) matches ProgressView::Request(
                TmuxRequestView::RequestPty { term, size, .. },
            ) && term == config.term && size.columns == config.columns && size.rows == config.rows
            &&& tmux_step(session, asked, true) matches ProgressView::Request(
                TmuxRequestView::Exec { command, .. },
            ) && shell_words(command) == Some(
                seq!["tmux"@, "new-session"@, "-A"@, "-s"@, config.tmux_session],
            )
            &&& initial(session.size).pending_size.columns == config.columns
            &&& initial(session.size).pending_size.rows == config.rows
        }),
{
    law_attach_command_names_the_session(config.tmux_session);
}

} // verus!
