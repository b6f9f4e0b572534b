//! What passes between a channel to a remote terminal and whoever uses it.
use crate::manager::{
    ConnectionEvent, ConnectionEventView, SessionCommand, SessionCommandView, SessionEvent,
    SessionEventView, SessionState,
};
use crate::payload::{contents, received};
use bytes::Bytes;
use vstd::prelude::*;

verus! {

/// What comes from the remote end of a channel.
#[derive(Debug)]
pub enum ChannelMessage {
    Data(Bytes),
    /// Data of another stream than the main one.
    ExtendedData(Bytes),
    ExitStatus(u32),
    Eof,
    Close,
    /// Any other message.
    Other,
}

pub enum ChannelMessageView {
    Data(Seq<u8>),
    ExtendedData(Seq<u8>),
    ExitStatus(u32),
    Eof,
    Close,
    Other,
}

impl View for ChannelMessage {
    type V = ChannelMessageView;

    open spec fn view(&self) -> ChannelMessageView {
        match self {
            ChannelMessage::Data(data) => ChannelMessageView::Data(contents(*data)),
            ChannelMessage::ExtendedData(data) => ChannelMessageView::ExtendedData(contents(*data)),
            ChannelMessage::ExitStatus(status) => ChannelMessageView::ExitStatus(*status),
            ChannelMessage::Eof => ChannelMessageView::Eof,
            ChannelMessage::Close => ChannelMessageView::Close,
            ChannelMessage::Other => ChannelMessageView::Other,
        }
    }
}

/// A message, or `None` where no more can come.
pub open spec fn message_view(message: Option<ChannelMessage>) -> Option<ChannelMessageView> {
    match message {
        Some(message) => Some(message@),
        None => None,
    }
}

/// The data in a message, of whichever stream.
pub open spec fn data_in(message: Option<ChannelMessageView>) -> Option<Seq<u8>> {
    match message {
        Some(ChannelMessageView::Data(data)) => Some(data),
        Some(ChannelMessageView::ExtendedData(data)) => Some(data),
        _ => None,
    }
}

/// Whether a message is the last to look at.
pub open spec fn ends(message: Option<ChannelMessageView>) -> bool {
    message is None || message == Some(ChannelMessageView::Eof) || message == Some(
        ChannelMessageView::Close,
    )
}

/// The exit status known after a message.
pub open spec fn status_after(
    known: Option<u32>,
    message: Option<ChannelMessageView>,
) -> Option<u32> {
    match message {
        Some(ChannelMessageView::ExitStatus(status)) => Some(status),
        _ => known,
    }
}

/// What the reader of a channel does with a message.
#[derive(Debug)]
pub enum ReaderAction {
    /// Read the next message.
    Continue,
    /// Report this; whether somebody took it decides what comes next.
    Forward(ConnectionEvent),
    /// Report this, and stop.
    Finish(ConnectionEvent),
    /// Stop without a report.
    Stop,
}

pub enum ReaderActionView {
    Continue,
    Forward(ConnectionEventView),
    Finish(ConnectionEventView),
    Stop,
}

impl View for ReaderAction {
    type V = ReaderActionView;

    open spec fn view(&self) -> ReaderActionView {
        match self {
            ReaderAction::Continue => ReaderActionView::Continue,
            ReaderAction::Forward(event) => ReaderActionView::Forward(event@),
            ReaderAction::Finish(event) => ReaderActionView::Finish(event@),
            ReaderAction::Stop => ReaderActionView::Stop,
        }
    }
}

/// Turns the messages of a channel into connection events.
#[derive(Clone, Copy, Debug)]
pub struct ChannelReader {
    exit_status: Option<u32>,
}

impl View for ChannelReader {
    type V = Option<u32>;

    closed spec fn view(&self) -> Option<u32> {
        self.exit_status
    }
}

/// What a reader that knows an exit status, or none, does with a message: data
/// is forwarded, and the end is reported with the status.
pub open spec fn reading(
    known: Option<u32>,
    message: Option<ChannelMessageView>,
) -> ReaderActionView {
    if ends(message) {
        ReaderActionView::Finish(ConnectionEventView::Closed { exit_status: known })
    } else {
        match data_in(message) {
            Some(data) => ReaderActionView::Forward(ConnectionEventView::Output(data)),
            None => ReaderActionView::Continue,
        }
    }
}

impl ChannelReader {
    /// A reader that has read nothing.
    pub fn new() -> (reader: ChannelReader)
        ensures
            reader@ == None::<u32>,
    {
        ChannelReader { exit_status: None }
    }

    /// Takes one message in; `None` where no more can come.
    pub fn on_message(&mut self, message: Option<ChannelMessage>) -> (action: ReaderAction)
        ensures
            final(self)@ == status_after(old(self)@, message_view(message)),
            action@ == reading(old(self)@, message_view(message)),
    {
        match message {
            None => ReaderAction::Finish(ConnectionEvent::Closed { exit_status: self.exit_status }),
            Some(ChannelMessage::Data(data)) => ReaderAction::Forward(ConnectionEvent::Output(data)),
            Some(ChannelMessage::ExtendedData(data)) => ReaderAction::Forward(
                ConnectionEvent::Output(data),
            ),
            Some(ChannelMessage::ExitStatus(status)) => {
                self.exit_status = Some(status);
                ReaderAction::Continue
            },
            Some(ChannelMessage::Eof) => ReaderAction::Finish(
                ConnectionEvent::Closed { exit_status: self.exit_status },
            ),
            Some(ChannelMessage::Close) => ReaderAction::Finish(
                ConnectionEvent::Closed { exit_status: self.exit_status },
            ),
            Some(ChannelMessage::Other) => ReaderAction::Continue,
        }
    }

    /// What comes after a report was forwarded, or found nobody to take it.
    pub fn on_forwarded(&self, taken: bool) -> (action: ReaderAction)
        ensures
            action@ == if taken {
                ReaderActionView::Continue
            } else {
                ReaderActionView::Stop
            },
    {
        if taken {
            ReaderAction::Continue
        } else {
            ReaderAction::Stop
        }
    }
}

/// What is done for somebody who uses a remote terminal directly.
#[derive(Debug)]
pub enum BridgeAction {
    Continue,
    /// Tell the remote end that no more input comes.
    SendEof,
    /// Send input.
    Write(Bytes),
    /// Show output.
    Print(Bytes),
    /// End with this status.
    Finish(u32),
}

pub enum BridgeActionView {
    Continue,
    SendEof,
    Write(Seq<u8>),
    Print(Seq<u8>),
    Finish(u32),
}

impl View for BridgeAction {
    type V = BridgeActionView;

    open spec fn view(&self) -> BridgeActionView {
        match self {
            BridgeAction::Continue => BridgeActionView::Continue,
            BridgeAction::SendEof => BridgeActionView::SendEof,
            BridgeAction::Write(data) => BridgeActionView::Write(contents(*data)),
            BridgeAction::Print(data) => BridgeActionView::Print(contents(*data)),
            BridgeAction::Finish(status) => BridgeActionView::Finish(*status),
        }
    }
}

/// Joins standard input and output to a remote terminal.
#[derive(Clone, Copy, Debug)]
pub struct PtyBridge {
    stdin_closed: bool,
    exit_status: Option<u32>,
}

pub struct PtyBridgeView {
    pub stdin_closed: bool,
    pub exit_status: Option<u32>,
}

impl View for PtyBridge {
    type V = PtyBridgeView;

    closed spec fn view(&self) -> PtyBridgeView {
        PtyBridgeView { stdin_closed: self.stdin_closed, exit_status: self.exit_status }
    }
}

/// The status to end with: the one that is known, or zero.
pub open spec fn final_status(known: Option<u32>) -> u32 {
    match known {
        Some(status) => status,
        None => 0,
    }
}

/// What a bridge does with a message: data is shown, and at the end it
/// finishes with the status.
pub open spec fn bridging(
    known: Option<u32>,
    message: Option<ChannelMessageView>,
) -> BridgeActionView {
    if ends(message) {
        BridgeActionView::Finish(final_status(known))
    } else {
        match data_in(message) {
            Some(data) => BridgeActionView::Print(data),
            None => BridgeActionView::Continue,
        }
    }
}

impl PtyBridge {
    /// A bridge that nothing has crossed.
    pub fn new() -> (bridge: PtyBridge)
        ensures
            bridge@ == (PtyBridgeView { stdin_closed: false, exit_status: None }),
    {
        PtyBridge { stdin_closed: false, exit_status: None }
    }

    /// Whether input is still read.
    pub fn reads_stdin(&self) -> (reads: bool)
        ensures
            reads == !self@.stdin_closed,
    {
        !self.stdin_closed
    }

    /// Takes in the first `read` bytes of a buffer; none of them is the end of
    /// the input.
    pub fn on_stdin(&mut self, buf: &[u8], read: usize) -> (action: BridgeAction)
        requires
            !old(self)@.stdin_closed,
            read <= buf@.len(),
        ensures
            final(self)@ == (PtyBridgeView { stdin_closed: read == 0, ..old(self)@ }),
            action@ == if read == 0 {
                BridgeActionView::SendEof
            } else {
                BridgeActionView::Write(buf@.take(read as int))
            },
    {
        if read == 0 {
            self.stdin_closed = true;
            BridgeAction::SendEof
        } else {
            BridgeAction::Write(received(buf, read))
        }
    }

    /// Takes one message in; `None` where no more can come.
    pub fn on_message(&mut self, message: Option<ChannelMessage>) -> (action: BridgeAction)
        ensures
            final(self)@ == (PtyBridgeView {
                exit_status: status_after(old(self)@.exit_status, message_view(message)),
                ..old(self)@
            }),
            action@ == bridging(old(self)@.exit_status, message_view(message)),
    {
        match message {
            Some(ChannelMessage::Data(data)) => BridgeAction::Print(data),
            Some(ChannelMessage::ExtendedData(data)) => BridgeAction::Print(data),
            Some(ChannelMessage::ExitStatus(status)) => {
                self.exit_status = Some(status);
                BridgeAction::Continue
            },
            Some(ChannelMessage::Other) => BridgeAction::Continue,
            None | Some(ChannelMessage::Eof) | Some(ChannelMessage::Close) => BridgeAction::Finish(
                self.exit_status.unwrap_or(0),
            ),
        }
    }
}

/// What the terminal program does for its user.
#[derive(Debug)]
pub enum FrontendAction {
    /// Give the session manager a command.
    Send(SessionCommand),
    /// Show output.
    Print(Bytes),
    /// Log a state.
    LogState(SessionState),
    /// Log an error.
    LogError(String),
    /// End with this status.
    Finish(u32),
}

pub enum FrontendActionView {
    Send(SessionCommandView),
    Print(Seq<u8>),
    LogState(SessionState),
    LogError(Seq<char>),
    Finish(u32),
}

impl View for FrontendAction {
    type V = FrontendActionView;

    open spec fn view(&self) -> FrontendActionView {
        match self {
            FrontendAction::Send(command) => FrontendActionView::Send(command@),
            FrontendAction::Print(data) => FrontendActionView::Print(contents(*data)),
            FrontendAction::LogState(state) => FrontendActionView::LogState(*state),
            FrontendAction::LogError(message) => FrontendActionView::LogError(message@),
            FrontendAction::Finish(status) => FrontendActionView::Finish(*status),
        }
    }
}

/// The views of a list of actions.
pub open spec fn frontend_views(actions: Seq<FrontendAction>) -> Seq<FrontendActionView> {
    actions.map_values(|action: FrontendAction| action@)
}

/// What the program does at its start: it asks for the connection.
pub fn on_start() -> (actions: Vec<FrontendAction>)
    ensures
        frontend_views(actions@) == seq![FrontendActionView::Send(SessionCommandView::Connect)],
{
    let actions = vec![FrontendAction::Send(SessionCommand::Connect)];
    assert(frontend_views(actions@) =~= seq![
        FrontendActionView::Send(SessionCommandView::Connect),
    ]);
    actions
}

/// What the program does with input. Bytes are sent on; the end of the input
/// disconnects and ends the program with status zero.
pub open spec fn on_input_read(data: Seq<u8>) -> Seq<FrontendActionView> {
    if data.len() == 0 {
        seq![
            FrontendActionView::Send(SessionCommandView::Disconnect),
            FrontendActionView::Finish(0),
        ]
    } else {
        seq![FrontendActionView::Send(SessionCommandView::Write(data))]
    }
}

/// What the program does with the first `read` bytes of a buffer that it has
/// read; none of them is the end of the input.
pub fn on_stdin(buf: &[u8], read: usize) -> (actions: Vec<FrontendAction>)
    requires
        read <= buf@.len(),
    ensures
        frontend_views(actions@) == on_input_read(buf@.take(read as int)),
{
    let actions = if read == 0 {
        vec![FrontendAction::Send(SessionCommand::Disconnect), FrontendAction::Finish(0)]
    } else {
        vec![FrontendAction::Send(SessionCommand::Write(received(buf, read)))]
    };
    assert(frontend_views(actions@) =~= on_input_read(buf@.take(read as int)));
    actions
}

/// What the program does with an event; `None` where the manager is gone. An
/// exit status ends the program with that status.
pub open spec fn on_event_told(event: Option<SessionEventView>) -> FrontendActionView {
    match event {
        None => FrontendActionView::Finish(0),
        Some(SessionEventView::Output(data)) => FrontendActionView::Print(data),
        Some(SessionEventView::ExitStatus(status)) => FrontendActionView::Finish(status),
        Some(SessionEventView::StateChanged(state)) => FrontendActionView::LogState(state),
        Some(SessionEventView::Error(message)) => FrontendActionView::LogError(message),
    }
}

/// An event, or `None` where no more can come.
pub open spec fn event_view(event: Option<SessionEvent>) -> Option<SessionEventView> {
    match event {
        Some(event) => Some(event@),
        None => None,
    }
}

/// What the program does with an event of the manager.
pub fn on_event(event: Option<SessionEvent>) -> (actions: Vec<FrontendAction>)
    ensures
        frontend_views(actions@) == seq![on_event_told(event_view(event))],
{
    let ghost told = on_event_told(event_view(event));
    let action = match event {
        None => FrontendAction::Finish(0),
        Some(SessionEvent::Output(data)) => FrontendAction::Print(data),
        Some(SessionEvent::ExitStatus(status)) => FrontendAction::Finish(status),
        Some(SessionEvent::StateChanged(state)) => FrontendAction::LogState(state),
        Some(SessionEvent::Error(message)) => FrontendAction::LogError(message),
    };
    let actions = vec![action];
    assert(frontend_views(actions@) =~= seq![told]);
    actions
}

/// What the program does when its user interrupts it: it shuts the manager
/// down and ends with status zero.
pub fn on_interrupt() -> (actions: Vec<FrontendAction>)
    ensures
        frontend_views(actions@) == seq![
            FrontendActionView::Send(SessionCommandView::Shutdown),
            FrontendActionView::Finish(0),
        ],
{
    let actions = vec![FrontendAction::Send(SessionCommand::Shutdown), FrontendAction::Finish(0)];
    assert(frontend_views(actions@) =~= seq![
        FrontendActionView::Send(SessionCommandView::Shutdown),
        FrontendActionView::Finish(0),
    ]);
    actions
}

/// The exit status known after a course of messages.
pub open spec fn status_of(messages: Seq<ChannelMessageView>) -> Option<u32>
    decreases messages.len(),
{
    if messages.len() == 0 {
        None
    } else {
        status_after(status_of(messages.drop_last()), Some(messages.last()))
    }
}

/// What a reader reports of a course of messages.
pub open spec fn reports(messages: Seq<ChannelMessageView>) -> Seq<ConnectionEventView>
    decreases messages.len(),
{
    if messages.len() == 0 {
        Seq::empty()
    } else {
        let before = reports(messages.drop_last());
        match reading(status_of(messages.drop_last()), Some(messages.last())) {
            ReaderActionView::Forward(event) => before.push(event),
            ReaderActionView::Finish(event) => before.push(event),
            _ => before,
        }
    }
}

/// What a bridge shows of a course of messages.
pub open spec fn shown(messages: Seq<ChannelMessageView>) -> Seq<u8>
    decreases messages.len(),
{
    if messages.len() == 0 {
        Seq::empty()
    } else {
        let before = shown(messages.drop_last());
        match bridging(status_of(messages.drop_last()), Some(messages.last())) {
            BridgeActionView::Print(data) => before + data,
            _ => before,
        }
    }
}

/// The data in a course of messages, one after the other.
pub open spec fn data_of(messages: Seq<ChannelMessageView>) -> Seq<u8>
    decreases messages.len(),
{
    if messages.len() == 0 {
        Seq::empty()
    } else {
        match data_in(Some(messages.last())) {
            Some(data) => data_of(messages.drop_last()) + data,
            None => data_of(messages.drop_last()),
        }
    }
}

/// The output in a course of reports, one after the other.
pub open spec fn output_of(events: Seq<ConnectionEventView>) -> Seq<u8>
    decreases events.len(),
{
    if events.len() == 0 {
        Seq::empty()
    } else {
        match events.last() {
            ConnectionEventView::Output(data) => output_of(events.drop_last()) + data,
            _ => output_of(events.drop_last()),
        }
    }
}

/// A reader that has not come to the end has reported the data of all messages,
/// complete and in order, and nothing else.
pub proof fn law_reader_loses_no_output(messages: Seq<ChannelMessageView>)
    requires
        forall|i: int| 0 <= i < messages.len() ==> !ends(Some(#[trigger] messages[i])),
    ensures
        output_of(reports(messages)) == data_of(messages),
        forall|i: int|
            0 <= i < reports(messages).len() ==> #[trigger] reports(messages)[i] is Output,
    decreases messages.len(),
{
    if messages.len() > 0 {
        let front = messages.drop_last();
        assert forall|i: int| 0 <= i < front.len() implies !ends(Some(#[trigger] front[i])) by {
            assert(front[i] == messages[i]);
        }
        law_reader_loses_no_output(front);
        assert(!ends(Some(messages[messages.len() - 1])));
        if let Some(data) = data_in(Some(messages.last())) {
            let event = ConnectionEventView::Output(data);
            assert(reports(messages) == reports(front).push(event));
            assert(reports(messages).drop_last() =~= reports(front));
        }
    }
}

/// A bridge that has not come to the end has shown the data of all messages,
/// complete and in order.
pub proof fn law_bridge_loses_no_output(messages: Seq<ChannelMessageView>)
    requires
        forall|i: int| 0 <= i < messages.len() ==> !ends(Some(#[trigger] messages[i])),
    ensures
        shown(messages) == data_of(messages),
    decreases messages.len(),
{
    if messages.len() > 0 {
        let front = messages.drop_last();
        assert forall|i: int| 0 <= i < front.len() implies !ends(Some(#[trigger] front[i])) by {
            assert(front[i] == messages[i]);
        }
        law_bridge_loses_no_output(front);
        assert(!ends(Some(messages[messages.len() - 1])));
    }
}

/// The status at the end is that of the last message that told one; other
/// messages after it do not change it.
pub proof fn law_last_status_counts(messages: Seq<ChannelMessageView>, at: int, status: u32)
    requires
        0 <= at < messages.len(),
        messages[at] == ChannelMessageView::ExitStatus(status),
        forall|i: int| at < i < messages.len() ==> !(#[trigger] messages[i] is ExitStatus),
    ensures
        status_of(messages) == Some(status),
    decreases messages.len(),
{
    let front = messages.drop_last();
    if at < messages.len() - 1 {
        assert(front[at] == messages[at]);
        assert forall|i: int| at < i < front.len() implies !(#[trigger] front[i] is ExitStatus) by {
            assert(front[i] == messages[i]);
        }
        law_last_status_counts(front, at, status);
        assert(!(messages[messages.len() - 1] is ExitStatus));
    }
}

/// The end of a channel is reported with the status that was told, if any, and
/// a bridge ends with that status, or with zero.
pub proof fn law_end_carries_the_status(
    messages: Seq<ChannelMessageView>,
    end: Option<ChannelMessageView>,
)
    requires
        ends(end),
    ensures
        reading(status_of(messages), end) == ReaderActionView::Finish(
            ConnectionEventView::Closed { exit_status: status_of(messages) },
        ),
        bridging(status_of(messages), end) == BridgeActionView::Finish(
            match status_of(messages) {
                Some(status) => status,
                None => 0,
            },
        ),
{
}

/// What a reader and a bridge do with each message of a channel: data of either
/// stream is passed on as it is, a status is kept and shown to nobody, the end,
/// however it comes, is the end with the status known by then, and any other
/// message is passed over.
pub proof fn law_each_message(known: Option<u32>, message: ChannelMessageView)
    ensures
        message matches ChannelMessageView::Data(data) ==> {
            &&& reading(known, Some(message)) == ReaderActionView::Forward(
                ConnectionEventView::Output(data),
            )
            &&& bridging(known, Some(message)) == BridgeActionView::Print(data)
        },
        message matches ChannelMessageView::ExtendedData(data) ==> {
            &&& reading(known, Some(message)) == ReaderActionView::Forward(
                ConnectionEventView::Output(data),
            )
            &&& bridging(known, Some(message)) == BridgeActionView::Print(data)
        },
        message is ExitStatus || message is Other ==> {
            &&& reading(known, Some(message)) == ReaderActionView::Continue
            &&& bridging(known, Some(message)) == BridgeActionView::Continue
        },
        message is Eof || message is Close ==> {
            &&& reading(known, Some(message)) == ReaderActionView::Finish(
                ConnectionEventView::Closed { exit_status: known },
            )
            &&& bridging(known, Some(message)) == BridgeActionView::Finish(
                if known is Some {
                    known->0
                } else {
                    0
                },
            )
        },
        status_after(known, Some(message)) == if message is ExitStatus {
            Some(message->ExitStatus_0)
        } else {
            known
        },
{
}

/// A channel that gives no more messages is at its end, with the status known
/// by then.
pub proof fn law_no_more_messages(known: Option<u32>)
    ensures
        reading(known, None) == ReaderActionView::Finish(
            ConnectionEventView::Closed { exit_status: known },
        ),
        bridging(known, None) == BridgeActionView::Finish(
            if known is Some {
                known->0
            } else {
                0
            },
        ),
        status_after(known, None) == known,
{
}

/// What the program reads is sent as it is, whatever it is; the end of the input
/// disconnects and ends the program with success.
pub proof fn law_what_is_read_is_sent(data: Seq<u8>)
    ensures
        data.len() > 0 ==> on_input_read(data) == seq![
            FrontendActionView::Send(SessionCommandView::Write(data)),
        ],
        data.len() == 0 ==> on_input_read(data) == seq![
            FrontendActionView::Send(SessionCommandView::Disconnect),
            FrontendActionView::Finish(0),
        ],
{
}

/// Output is shown as it is, states and errors are logged, and the program ends
/// with the status of the remote program, whatever it is, or with success where
/// the manager is gone.
pub proof fn law_each_event(event: SessionEventView)
    ensures
        event matches SessionEventView::Output(data) ==> on_event_told(Some(event))
            == FrontendActionView::Print(data),
        event matches SessionEventView::ExitStatus(status) ==> on_event_told(Some(event))
            == FrontendActionView::Finish(status),
        event matches SessionEventView::StateChanged(state) ==> on_event_told(Some(event))
            == FrontendActionView::LogState(state),
        event matches SessionEventView::Error(message) ==> on_event_told(Some(event))
            == FrontendActionView::LogError(message),
        on_event_told(None) == FrontendActionView::Finish(0),
{
}

} // verus!
