use fe2io::command::Command;
use fe2io::error::Fe2IoError;
use fe2io::event::{
    after_frame, event_loop, handle_events, read_server_response, Incoming, NetAction, NetEvent,
    NetStep,
};
use fe2io::protocol::Decoded;

fn frame(text: &str) -> NetEvent {
    NetEvent::Frame(Incoming::Text(text.to_string()))
}

#[test]
fn ended_stream_asks_for_a_reconnect() {
    assert_eq!(
        read_server_response(Incoming::Closed),
        Err(Fe2IoError::Reconnect("Connection closed normally".to_string()))
    );
}

#[test]
fn failed_read_asks_for_a_reconnect() {
    assert_eq!(
        read_server_response(Incoming::Failed("Connection reset without closing handshake".to_string())),
        Err(Fe2IoError::Reconnect("Connection reset without closing handshake".to_string()))
    );
}

#[test]
fn frame_that_is_not_text_is_a_websocket_failure() {
    assert_eq!(
        read_server_response(Incoming::Unreadable("UTF-8 encoding error".to_string())),
        Err(Fe2IoError::WebSocket("UTF-8 encoding error".to_string()))
    );
}

#[test]
fn text_frame_is_handed_on_unchanged() {
    assert_eq!(read_server_response(Incoming::Text("{ }".to_string())), Ok("{ }".to_string()));
    assert_eq!(read_server_response(Incoming::Text(String::new())), Ok(String::new()));
}

#[test]
fn handle_events_decodes_the_text_of_a_frame() {
    assert_eq!(
        handle_events(Incoming::Text(r#"{"msgType":"bgm","audioUrl":"u"}"#.to_string())),
        Ok(Decoded::Command(Command::PlayAudio("u".to_string())))
    );
    assert_eq!(
        handle_events(Incoming::Text(r#"{"msgType":"ping"}"#.to_string())),
        Ok(Decoded::Ignored("ping".to_string()))
    );
    assert!(matches!(handle_events(Incoming::Text("oops".to_string())), Err(Fe2IoError::Json(_))));
}

#[test]
fn handle_events_passes_read_failures_on() {
    assert_eq!(
        handle_events(Incoming::Closed),
        Err(Fe2IoError::Reconnect("Connection closed normally".to_string()))
    );
    assert_eq!(
        handle_events(Incoming::Failed("io".to_string())),
        Err(Fe2IoError::Reconnect("io".to_string()))
    );
    assert_eq!(
        handle_events(Incoming::Unreadable("utf8".to_string())),
        Err(Fe2IoError::WebSocket("utf8".to_string()))
    );
}

#[test]
fn command_frame_is_submitted() {
    assert_eq!(
        event_loop(frame(r#"{"msgType":"gameStatus","statusType":"died"}"#)),
        NetStep {
            report: None,
            ignored: None,
            next: NetAction::Submit(Command::SetStatus("died".to_string())),
        }
    );
}

#[test]
fn frame_of_unknown_kind_is_ignored_and_named() {
    assert_eq!(
        event_loop(frame(r#"{"msgType":"chat"}"#)),
        NetStep { report: None, ignored: Some("chat".to_string()), next: NetAction::Read }
    );
}

#[test]
fn malformed_frame_is_reported_and_reading_goes_on() {
    let step = event_loop(frame("{{"));
    assert!(matches!(step.report, Some(Fe2IoError::Json(_))));
    assert_eq!(step.ignored, None);
    assert_eq!(step.next, NetAction::Read);
    let step = event_loop(frame("{}"));
    assert_eq!(step.report, Some(Fe2IoError::Json("missing field `type_`".to_string())));
    assert_eq!(step.next, NetAction::Read);
}

#[test]
fn frames_after_a_bad_one_are_still_decoded() {
    let frames = ["nonsense", r#"{"msgType":"bgm","audioUrl":"a"}"#, "{}", r#"{"type":"gameStatus","status_type":"left"}"#];
    let mut submitted = Vec::new();
    let mut reported = 0;
    for text in frames {
        let step = event_loop(frame(text));
        if step.report.is_some() {
            reported += 1;
        }
        match step.next {
            NetAction::Submit(command) => {
                submitted.push(command);
                assert_eq!(event_loop(NetEvent::Submitted).next, NetAction::Read);
            }
            NetAction::Read => {}
            other => panic!("unexpected {:?}", other),
        }
    }
    assert_eq!(reported, 2);
    assert_eq!(
        submitted,
        vec![Command::PlayAudio("a".to_string()), Command::SetStatus("left".to_string())]
    );
}

#[test]
fn frame_missing_its_payload_is_reported() {
    let step = event_loop(frame(r#"{"msgType":"bgm"}"#));
    assert_eq!(
        step,
        NetStep {
            report: Some(Fe2IoError::Invalid(
                "Server sent response of type bgm but no URL was provided".to_string()
            )),
            ignored: None,
            next: NetAction::Read,
        }
    );
}

#[test]
fn lost_connection_is_reported_and_reopened() {
    assert_eq!(
        event_loop(NetEvent::Frame(Incoming::Closed)),
        NetStep {
            report: Some(Fe2IoError::Reconnect("Connection closed normally".to_string())),
            ignored: None,
            next: NetAction::Reconnect,
        }
    );
    assert_eq!(
        event_loop(NetEvent::Frame(Incoming::Failed("broken".to_string()))),
        NetStep {
            report: Some(Fe2IoError::Reconnect("broken".to_string())),
            ignored: None,
            next: NetAction::Reconnect,
        }
    );
}

#[test]
fn unreadable_frame_is_reported_and_reading_goes_on() {
    assert_eq!(
        event_loop(NetEvent::Frame(Incoming::Unreadable("utf8".to_string()))),
        NetStep {
            report: Some(Fe2IoError::WebSocket("utf8".to_string())),
            ignored: None,
            next: NetAction::Read,
        }
    );
}

#[test]
fn reading_goes_on_after_submit_and_reconnect() {
    let read = NetStep { report: None, ignored: None, next: NetAction::Read };
    assert_eq!(event_loop(NetEvent::Submitted), read);
    assert_eq!(event_loop(NetEvent::Reconnected), read);
}

#[test]
fn closed_queue_halts_the_network_unit_with_the_command() {
    let step = event_loop(NetEvent::QueueClosed(Command::PlayAudio("u".to_string())));
    assert_eq!(
        step,
        NetStep {
            report: None,
            ignored: None,
            next: NetAction::Halt(Fe2IoError::Send(Command::PlayAudio("u".to_string()))),
        }
    );
    assert!(Fe2IoError::Send(Command::PlayAudio("u".to_string())).is_fatal());
}

#[test]
fn failed_reconnect_halts_with_its_condition() {
    assert_eq!(
        event_loop(NetEvent::ReconnectFailed(Fe2IoError::NoRetry)).next,
        NetAction::Halt(Fe2IoError::NoRetry)
    );
    assert_eq!(
        event_loop(NetEvent::ReconnectFailed(Fe2IoError::Url("bad".to_string()))).next,
        NetAction::Halt(Fe2IoError::Url("bad".to_string()))
    );
}

#[test]
fn after_frame_sorts_the_outcomes() {
    assert_eq!(
        after_frame(Ok(Decoded::Command(Command::PlayAudio("u".to_string())))).next,
        NetAction::Submit(Command::PlayAudio("u".to_string()))
    );
    assert_eq!(
        after_frame(Ok(Decoded::Ignored("x".to_string()))),
        NetStep { report: None, ignored: Some("x".to_string()), next: NetAction::Read }
    );
    assert_eq!(
        after_frame(Err(Fe2IoError::Reconnect("gone".to_string()))).next,
        NetAction::Reconnect
    );
    for error in [
        Fe2IoError::Json("j".to_string()),
        Fe2IoError::Invalid("i".to_string()),
        Fe2IoError::WebSocket("w".to_string()),
    ] {
        let step = after_frame(Err(error));
        assert_eq!(step.next, NetAction::Read);
        assert!(step.report.is_some());
    }
}
