use arylterm::manager::{ConnectionEvent, SessionCommand, SessionEvent, SessionState};
use arylterm::payload::received;
use arylterm::stdio::{
    on_event, on_interrupt, on_start, on_stdin, BridgeAction, ChannelMessage, ChannelReader,
    FrontendAction, PtyBridge, ReaderAction,
};
use bytes::Bytes;

fn bytes(data: &'static [u8]) -> Bytes {
    Bytes::from_static(data)
}

#[test]
fn received_takes_what_was_read() {
    assert_eq!(received(b"abcdef", 3), bytes(b"abc"));
    assert_eq!(received(b"abc", 3), bytes(b"abc"));
    assert_eq!(received(b"abc", 0), bytes(b""));
}

#[test]
fn reader_forwards_data_of_both_streams() {
    let mut reader = ChannelReader::new();
    for message in [ChannelMessage::Data(bytes(b"one")), ChannelMessage::ExtendedData(bytes(b"one"))]
    {
        match reader.on_message(Some(message)) {
            ReaderAction::Forward(ConnectionEvent::Output(data)) => assert_eq!(data, bytes(b"one")),
            other => panic!("{:?}", other),
        }
    }
    assert!(matches!(reader.on_forwarded(true), ReaderAction::Continue));
    assert!(matches!(reader.on_forwarded(false), ReaderAction::Stop));
}

#[test]
fn reader_reports_the_last_status_at_the_end() {
    for end in [None, Some(ChannelMessage::Eof), Some(ChannelMessage::Close)] {
        let mut reader = ChannelReader::new();
        for status in [4, 5] {
            assert!(matches!(
                reader.on_message(Some(ChannelMessage::ExitStatus(status))),
                ReaderAction::Continue
            ));
        }
        assert!(matches!(reader.on_message(Some(ChannelMessage::Other)), ReaderAction::Continue));
        assert!(matches!(
            reader.on_message(end),
            ReaderAction::Finish(ConnectionEvent::Closed { exit_status: Some(5) })
        ));
    }
}

#[test]
fn reader_reports_an_end_without_status() {
    let mut reader = ChannelReader::new();
    assert!(matches!(
        reader.on_message(None),
        ReaderAction::Finish(ConnectionEvent::Closed { exit_status: None })
    ));
}

#[test]
fn bridge_sends_input_until_it_ends() {
    let mut bridge = PtyBridge::new();
    assert!(bridge.reads_stdin());
    match bridge.on_stdin(b"hello, rest", 5) {
        BridgeAction::Write(data) => assert_eq!(data, bytes(b"hello")),
        other => panic!("{:?}", other),
    }
    assert!(bridge.reads_stdin());
    assert!(matches!(bridge.on_stdin(b"rest", 0), BridgeAction::SendEof));
    assert!(!bridge.reads_stdin());
}

#[test]
fn bridge_shows_output_and_ends_with_the_status() {
    let mut bridge = PtyBridge::new();
    for message in [ChannelMessage::Data(bytes(b"x")), ChannelMessage::ExtendedData(bytes(b"x"))] {
        match bridge.on_message(Some(message)) {
            BridgeAction::Print(data) => assert_eq!(data, bytes(b"x")),
            other => panic!("{:?}", other),
        }
    }
    assert!(matches!(bridge.on_message(Some(ChannelMessage::Other)), BridgeAction::Continue));
    assert!(matches!(
        bridge.on_message(Some(ChannelMessage::ExitStatus(9))),
        BridgeAction::Continue
    ));
    assert!(matches!(bridge.on_message(Some(ChannelMessage::Eof)), BridgeAction::Finish(9)));
    assert!(matches!(bridge.on_message(Some(ChannelMessage::Close)), BridgeAction::Finish(9)));
}

#[test]
fn bridge_ends_with_zero_without_a_status() {
    assert!(matches!(PtyBridge::new().on_message(None), BridgeAction::Finish(0)));
}

#[test]
fn program_asks_for_the_connection() {
    assert!(matches!(
        on_start().as_slice(),
        [FrontendAction::Send(SessionCommand::Connect)]
    ));
}

#[test]
fn program_sends_input() {
    match on_stdin(b"abcdef", 2).as_slice() {
        [FrontendAction::Send(SessionCommand::Write(data))] => assert_eq!(*data, bytes(b"ab")),
        other => panic!("{:?}", other),
    }
}

#[test]
fn program_disconnects_at_the_end_of_input() {
    assert!(matches!(
        on_stdin(b"abcdef", 0).as_slice(),
        [FrontendAction::Send(SessionCommand::Disconnect), FrontendAction::Finish(0)]
    ));
}

#[test]
fn program_shuts_down_when_interrupted() {
    assert!(matches!(
        on_interrupt().as_slice(),
        [FrontendAction::Send(SessionCommand::Shutdown), FrontendAction::Finish(0)]
    ));
}

#[test]
fn program_handles_events() {
    match on_event(Some(SessionEvent::Output(bytes(b"out")))).as_slice() {
        [FrontendAction::Print(data)] => assert_eq!(*data, bytes(b"out")),
        other => panic!("{:?}", other),
    }
    assert!(matches!(
        on_event(Some(SessionEvent::ExitStatus(7))).as_slice(),
        [FrontendAction::Finish(7)]
    ));
    assert!(matches!(
        on_event(Some(SessionEvent::StateChanged(SessionState::Connected))).as_slice(),
        [FrontendAction::LogState(SessionState::Connected)]
    ));
    match on_event(Some(SessionEvent::Error("oops".to_string()))).as_slice() {
        [FrontendAction::LogError(message)] => assert_eq!(message, "oops"),
        other => panic!("{:?}", other),
    }
    assert!(matches!(on_event(None).as_slice(), [FrontendAction::Finish(0)]));
}
