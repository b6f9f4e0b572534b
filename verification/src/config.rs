//! What a session is made from: the server, the credentials, the host key
//! policy, the terminal; and the pace of reconnecting.
use crate::shell::{
    fresh, law_quoted_value_reads_back, law_quoting_is_injective, lemma_read_adds_up,
    lemma_read_plain_word, lemma_read_quoted, quoted, shell_quote, shell_words, Line,
};
use crate::text::opt_text;
use std::time::Duration;
use vstd::arithmetic::power2::{lemma2_to64, pow2};
use vstd::prelude::*;
use vstd::string::*;

verus! {

/// The duration of a number of whole seconds.
pub uninterp spec fn whole_seconds(secs: u64) -> Duration;

/// `Duration::from_secs` makes the duration of that many whole seconds.
pub assume_specification[ Duration::from_secs ](secs: u64) -> (duration: Duration)
    ensures
        duration == whole_seconds(secs),
;

/// `==` on two durations tells whether they are the same duration.
pub assume_specification[ <Duration as PartialEq>::eq ](a: &Duration, b: &Duration) -> (same: bool)
    ensures
        same == (*a == *b),
;

/// An account on an SSH server.
#[derive(Debug, PartialEq, Eq)]
pub struct SshTarget {
    pub host: String,
    pub port: u16,
    pub username: String,
}

pub struct SshTargetView {
    pub host: Seq<char>,
    pub port: u16,
    pub username: Seq<char>,
}

impl View for SshTarget {
    type V = SshTargetView;

    open spec fn view(&self) -> SshTargetView {
        SshTargetView { host: self.host@, port: self.port, username: self.username@ }
    }
}

impl Clone for SshTarget {
    fn clone(&self) -> (copy: SshTarget)
        ensures
            copy == *self,
    {
        SshTarget { host: self.host.clone(), port: self.port, username: self.username.clone() }
    }
}

impl SshTarget {
    /// Where to connect to.
    pub fn address(&self) -> (address: (&str, u16))
        ensures
            address.0@ == self@.host,
            address.1 == self@.port,
    {
        (self.host.as_str(), self.port)
    }
}

/// How to authenticate. A private key is named by the path of its file.
#[derive(Debug, PartialEq, Eq)]
pub enum AuthMethod {
    Password(String),
    PrivateKey { path: String, passphrase: Option<String> },
}

pub enum AuthMethodView {
    Password(Seq<char>),
    PrivateKey { path: Seq<char>, passphrase: Option<Seq<char>> },
}

impl View for AuthMethod {
    type V = AuthMethodView;

    open spec fn view(&self) -> AuthMethodView {
        match self {
            AuthMethod::Password(password) => AuthMethodView::Password(password@),
            AuthMethod::PrivateKey { path, passphrase } => AuthMethodView::PrivateKey {
                path: path@,
                passphrase: opt_text(*passphrase),
            },
        }
    }
}

impl Clone for AuthMethod {
    fn clone(&self) -> (copy: AuthMethod)
        ensures
            copy == *self,
    {
        match self {
            AuthMethod::Password(password) => AuthMethod::Password(password.clone()),
            AuthMethod::PrivateKey { path, passphrase } => AuthMethod::PrivateKey {
                path: path.clone(),
                passphrase: passphrase.clone(),
            },
        }
    }
}

/// Which host keys to accept.
#[derive(Debug, PartialEq, Eq)]
pub enum HostKeyPolicy {
    FingerprintSha256(String),
    InsecureAcceptAny,
}

pub enum HostKeyPolicyView {
    FingerprintSha256(Seq<char>),
    InsecureAcceptAny,
}

impl View for HostKeyPolicy {
    type V = HostKeyPolicyView;

    open spec fn view(&self) -> HostKeyPolicyView {
        match self {
            HostKeyPolicy::FingerprintSha256(text) => HostKeyPolicyView::FingerprintSha256(text@),
            HostKeyPolicy::InsecureAcceptAny => HostKeyPolicyView::InsecureAcceptAny,
        }
    }
}

impl Clone for HostKeyPolicy {
    fn clone(&self) -> (copy: HostKeyPolicy)
        ensures
            copy == *self,
    {
        match self {
            HostKeyPolicy::FingerprintSha256(text) => HostKeyPolicy::FingerprintSha256(text.clone()),
            HostKeyPolicy::InsecureAcceptAny => HostKeyPolicy::InsecureAcceptAny,
        }
    }
}

/// The size of a terminal, in characters and in pixels.
#[derive(Clone, Copy, Debug, PartialEq, Eq, Structural)]
pub struct TerminalSize {
    pub columns: u32,
    pub rows: u32,
    pub pixel_width: u32,
    pub pixel_height: u32,
}

impl Default for TerminalSize {
    fn default() -> (size: TerminalSize)
        ensures
            size == (TerminalSize { columns: 120, rows: 40, pixel_width: 0, pixel_height: 0 }),
    {
        TerminalSize { columns: 120, rows: 40, pixel_width: 0, pixel_height: 0 }
    }
}

/// All that a tmux session over SSH needs.
#[derive(Debug, PartialEq, Eq)]
pub struct TmuxSessionConfig {
    pub target: SshTarget,
    pub auth: AuthMethod,
    pub host_key_policy: HostKeyPolicy,
    pub tmux_session: String,
    pub term: String,
    pub size: TerminalSize,
    pub keepalive_interval: Duration,
    pub keepalive_max: usize,
}

pub struct TmuxSessionConfigView {
    pub target: SshTargetView,
    pub auth: AuthMethodView,
    pub host_key_policy: HostKeyPolicyView,
    pub tmux_session: Seq<char>,
    pub term: Seq<char>,
    pub size: TerminalSize,
    pub keepalive_interval: Duration,
    pub keepalive_max: usize,
}

impl View for TmuxSessionConfig {
    type V = TmuxSessionConfigView;

    open spec fn view(&self) -> TmuxSessionConfigView {
        TmuxSessionConfigView {
            target: self.target@,
            auth: self.auth@,
            host_key_policy: self.host_key_policy@,
            tmux_session: self.tmux_session@,
            term: self.term@,
            size: self.size,
            keepalive_interval: self.keepalive_interval,
            keepalive_max: self.keepalive_max,
        }
    }
}

impl Clone for TmuxSessionConfig {
    fn clone(&self) -> (copy: TmuxSessionConfig)
        ensures
            copy == *self,
    {
        TmuxSessionConfig {
            target: self.target.clone(),
            auth: self.auth.clone(),
            host_key_policy: self.host_key_policy.clone(),
            tmux_session: self.tmux_session.clone(),
            term: self.term.clone(),
            size: self.size,
            keepalive_interval: self.keepalive_interval,
            keepalive_max: self.keepalive_max,
        }
    }
}

impl TmuxSessionConfig {
    /// The command that attaches to this session, or makes it.
    pub fn tmux_attach_command(&self) -> (command: String)
        ensures
            command@ == attach_command(self@.tmux_session),
            shell_words(command@) == Some(
                seq!["tmux"@, "new-session"@, "-A"@, "-s"@, self.tmux_session@],
            ),
    {
        tmux_attach_command(self.tmux_session.as_str())
    }
}

/// The command line that attaches to a tmux session, or makes it, with the
/// name of the session as one quoted word.
pub open spec fn attach_command(session_name: Seq<char>) -> Seq<char> {
    "tmux new-session -A -s "@ + quoted(session_name)
}

/// Whatever the name of a session, a shell reads the attach command as the
/// words of the call of tmux and one word more, which is the name.
pub proof fn law_attach_command_names_the_session(session_name: Seq<char>)
    ensures
        shell_words(attach_command(session_name)) == Some(
            seq!["tmux"@, "new-session"@, "-A"@, "-s"@, session_name],
        ),
{
    let fixed = "tmux new-session -A -s "@;
    let (w1, w2, w3, w4) = ("tmux"@, "new-session"@, "-A"@, "-s"@);
    let gap = seq![' '];
    reveal_strlit("tmux new-session -A -s ");
    reveal_strlit("tmux");
    reveal_strlit("new-session");
    reveal_strlit("-A");
    reveal_strlit("-s");
    let (p1, p2, p3, p4) = (w1 + gap, w2 + gap, w3 + gap, w4 + gap);
    assert(fixed =~= p1 + p2 + p3 + p4);
    let l1 = Line { words: fresh().words.push(w1), ..fresh() };
    let l2 = Line { words: l1.words.push(w2), ..l1 };
    let l3 = Line { words: l2.words.push(w3), ..l2 };
    let l4 = Line { words: l3.words.push(w4), ..l3 };
    lemma_read_plain_word(fresh(), w1);
    lemma_read_plain_word(l1, w2);
    lemma_read_plain_word(l2, w3);
    lemma_read_plain_word(l3, w4);
    lemma_read_adds_up(fresh(), p1, p2);
    lemma_read_adds_up(fresh(), p1 + p2, p3);
    lemma_read_adds_up(fresh(), p1 + p2 + p3, p4);
    lemma_read_adds_up(fresh(), fixed, quoted(session_name));
    lemma_read_quoted(l4, session_name);
    assert(l4.begun() + session_name =~= session_name);
    assert(l4.words.push(session_name) =~= seq![w1, w2, w3, w4, session_name]);
}

/// The attach commands of different sessions differ.
pub proof fn law_attach_commands_differ(a: Seq<char>, b: Seq<char>)
    requires
        attach_command(a) == attach_command(b),
    ensures
        a == b,
{
    let fixed = "tmux new-session -A -s "@;
    assert(attach_command(a).skip(fixed.len() as int) =~= quoted(a));
    assert(attach_command(b).skip(fixed.len() as int) =~= quoted(b));
    law_quoting_is_injective(a, b);
}

/// The command that attaches to a tmux session, or makes it.
pub fn tmux_attach_command(session_name: &str) -> (command: String)
    ensures
        command@ == attach_command(session_name@),
        shell_words(command@) == Some(
            seq!["tmux"@, "new-session"@, "-A"@, "-s"@, session_name@],
        ),
{
    proof {
        law_attach_command_names_the_session(session_name@);
    }
    let mut command = "tmux new-session -A -s ".to_owned();
    command.append(shell_quote(session_name).as_str());
    command
}

/// The seconds to wait before an attempt to reconnect: one, doubled with each
/// attempt after the first, and never more than thirty.
pub open spec fn delay_secs(attempt: u32) -> nat {
    let doublings: nat = if attempt <= 1 {
        0
    } else if attempt <= 6 {
        (attempt - 1) as nat
    } else {
        5
    };
    if pow2(doublings) < 30 {
        pow2(doublings)
    } else {
        30
    }
}

/// The duration to wait before an attempt to reconnect.
pub open spec fn delay(attempt: u32) -> Duration {
    whole_seconds(delay_secs(attempt) as u64)
}

/// How long to wait before an attempt to reconnect.
pub fn reconnect_delay(attempt: u32) -> (wait: Duration)
    ensures
        wait == delay(attempt),
{
    let before: u32 = attempt.saturating_sub(1);
    let exponent: u32 = if before < 5 { before } else { 5 };
    let doubled: u64 = 1u64 << exponent;
    proof {
        lemma2_to64();
        assert(1u64 << 0u32 == 1 && 1u64 << 1u32 == 2 && 1u64 << 2u32 == 4 && 1u64 << 3u32 == 8
            && 1u64 << 4u32 == 16 && 1u64 << 5u32 == 32) by (bit_vector);
        assert(doubled == pow2(exponent as nat));
    }
    let seconds: u64 = if doubled < 30 { doubled } else { 30 };
    Duration::from_secs(seconds)
}

/// The wait is at least a second and at most thirty.
pub proof fn law_delay_is_bounded(attempt: u32)
    ensures
        1 <= delay_secs(attempt) <= 30,
{
    lemma2_to64();
}

/// A later attempt does not wait less.
pub proof fn law_delay_never_shrinks(earlier: u32, later: u32)
    requires
        earlier <= later,
    ensures
        delay_secs(earlier) <= delay_secs(later),
{
    lemma2_to64();
}

/// The wait doubles with each attempt until the bound of thirty seconds.
pub proof fn law_delay_doubles_up_to_the_bound(attempt: u32)
    requires
        1 <= attempt < u32::MAX,
    ensures
        delay_secs((attempt + 1) as u32) == if 2 * delay_secs(attempt) < 30 {
            2 * delay_secs(attempt)
        } else {
            30
        },
{
    lemma2_to64();
}

/// The wait before each attempt: a second before the first, twice as long
/// before each one after it, and half a minute from the sixth on.
pub proof fn law_waits(attempt: u32)
    ensures
        delay(attempt) == whole_seconds(
            if attempt <= 1 {
                1
            } else if attempt == 2 {
                2
            } else if attempt == 3 {
                4
            } else if attempt == 4 {
                8
            } else if attempt == 5 {
                16
            } else {
                30
            },
        ),
{
    lemma2_to64();
}

/// The attach command is the call of tmux, up to the name, and then the name as
/// a shell takes it for one word.
pub proof fn law_attach_command_has_the_name_last(session_name: Seq<char>)
    ensures
        ({
            let call = "tmux new-session -A -s "@;
            let command = attach_command(session_name);
            &&& call.is_prefix_of(command)
            &&& shell_words(command.skip(call.len() as int)) == Some(seq![session_name])
        }),
{
    let call = "tmux new-session -A -s "@;
    let command = attach_command(session_name);
    assert(command.take(call.len() as int) =~= call);
    assert(command.skip(call.len() as int) =~= quoted(session_name));
    law_quoted_value_reads_back(session_name);
}

} // verus!
