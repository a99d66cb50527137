use fe2io::command::Command;
use fe2io::error::Fe2IoError;

fn detail() -> String {
    "detail".to_string()
}

#[test]
fn conditions_scoped_to_one_event_are_recoverable() {
    for error in [
        Fe2IoError::WebSocket(detail()),
        Fe2IoError::Decoder(detail()),
        Fe2IoError::Http(detail()),
        Fe2IoError::Json(detail()),
        Fe2IoError::Reconnect(detail()),
        Fe2IoError::Invalid(detail()),
    ] {
        assert!(!error.is_fatal(), "{:?}", error);
    }
}

#[test]
fn every_other_condition_is_fatal() {
    for error in [
        Fe2IoError::Url(detail()),
        Fe2IoError::Stream(detail()),
        Fe2IoError::Player(detail()),
        Fe2IoError::Send(Command::SetStatus(detail())),
        Fe2IoError::Io(detail()),
        Fe2IoError::Join(detail()),
        Fe2IoError::Subscriber,
        Fe2IoError::NoTasks,
        Fe2IoError::NoRetry,
        Fe2IoError::RecvClosed,
    ] {
        assert!(error.is_fatal(), "{:?}", error);
    }
}

#[test]
fn messages_name_the_condition_and_its_detail() {
    assert_eq!(Fe2IoError::WebSocket(detail()).message(), "WebSocket Error: detail");
    assert_eq!(Fe2IoError::Url(detail()).message(), "WebSocket Error: detail");
    assert_eq!(Fe2IoError::Decoder(detail()).message(), "Audio Decode Error: detail");
    assert_eq!(Fe2IoError::Stream(detail()).message(), "Audio Stream Error: detail");
    assert_eq!(Fe2IoError::Player(detail()).message(), "Audio Player Error: detail");
    assert_eq!(Fe2IoError::Http(detail()).message(), "HTTP Request Error: detail");
    assert_eq!(Fe2IoError::Io(detail()).message(), "IO Error: detail");
    assert_eq!(Fe2IoError::Join(detail()).message(), "Join Error: detail");
    assert_eq!(Fe2IoError::Json(detail()).message(), "JSON Error: detail");
    assert_eq!(
        Fe2IoError::Reconnect(detail()).message(),
        "Reconnecting to server due to error: detail"
    );
    assert_eq!(Fe2IoError::Invalid(detail()).message(), "Invalid response from server: detail");
}

#[test]
fn messages_without_detail_are_fixed() {
    assert_eq!(
        Fe2IoError::Send(Command::PlayAudio(detail())).message(),
        "Send Error: channel closed"
    );
    assert_eq!(
        Fe2IoError::Subscriber.message(),
        "Failed to set log subscriber as global default"
    );
    assert_eq!(Fe2IoError::NoTasks.message(), "No tasks spawned");
    assert_eq!(Fe2IoError::NoRetry.message(), "Failed to connect after allowed attempts");
    assert_eq!(Fe2IoError::RecvClosed.message(), "Audio receiver channels closed");
}

#[test]
fn message_with_empty_detail_ends_after_the_colon() {
    assert_eq!(Fe2IoError::Http(String::new()).message(), "HTTP Request Error: ");
}
