//! The conditions that a unit can end or stumble on, and which of the two
//! each one is.

use crate::command::{Command, CommandView};
use vstd::prelude::*;
use vstd::string::*;

verus! {

/// Everything that can go wrong while the client runs.
///
/// A text field holds what the failing collaborator said about the failure.
#[derive(Debug, PartialEq, Eq)]
pub enum Fe2IoError {
    /// A frame arrived that cannot be read as text.
    WebSocket(String),
    /// The endpoint address is malformed; no retry can help.
    Url(String),
    /// The fetched bytes are not a clip that can be decoded.
    Decoder(String),
    /// No audio output device could be opened.
    Stream(String),
    /// The sink could not be attached to the output device.
    Player(String),
    /// The clip could not be fetched.
    Http(String),
    /// The command queue was closed under the sender; the command comes back.
    Send(Command),
    /// An operating system call failed.
    Io(String),
    /// A unit ended without returning.
    Join(String),
    /// A frame is not the structured message it should be.
    Json(String),
    /// The log sink was already installed.
    Subscriber,
    /// The connection is gone and has to be opened again.
    Reconnect(String),
    /// A message is well formed but cannot be acted on.
    Invalid(String),
    /// No unit is left running.
    NoTasks,
    /// Every allowed retry has failed.
    NoRetry,
    /// The command queue was closed under the receiver.
    RecvClosed,
}

/// A `Fe2IoError` as mathematical values.
pub enum ErrorView {
    WebSocket(Seq<char>),
    Url(Seq<char>),
    Decoder(Seq<char>),
    Stream(Seq<char>),
    Player(Seq<char>),
    Http(Seq<char>),
    Send(CommandView),
    Io(Seq<char>),
    Join(Seq<char>),
    Json(Seq<char>),
    Subscriber,
    Reconnect(Seq<char>),
    Invalid(Seq<char>),
    NoTasks,
    NoRetry,
    RecvClosed,
}

impl ErrorView {
    /// Whether the condition ends the process.
    ///
    /// Recoverable are the conditions scoped to one event: an unreadable or
    /// malformed frame, a message that cannot be acted on, a clip that cannot
    /// be fetched or decoded, and a lost connection, which is opened again.
    /// Everything else is fatal.
    pub open spec fn is_fatal(self) -> bool {
        match self {
            ErrorView::WebSocket(_) => false,
            ErrorView::Decoder(_) => false,
            ErrorView::Http(_) => false,
            ErrorView::Json(_) => false,
            ErrorView::Reconnect(_) => false,
            ErrorView::Invalid(_) => false,
            ErrorView::Url(_) => true,
            ErrorView::Stream(_) => true,
            ErrorView::Player(_) => true,
            ErrorView::Send(_) => true,
            ErrorView::Io(_) => true,
            ErrorView::Join(_) => true,
            ErrorView::Subscriber => true,
            ErrorView::NoTasks => true,
            ErrorView::NoRetry => true,
            ErrorView::RecvClosed => true,
        }
    }

    /// The line that describes the condition in a log.
    pub open spec fn message(self) -> Seq<char> {
        match self {
            ErrorView::WebSocket(detail) => "WebSocket Error: "@ + detail,
            ErrorView::Url(detail) => "WebSocket Error: "@ + detail,
            ErrorView::Decoder(detail) => "Audio Decode Error: "@ + detail,
            ErrorView::Stream(detail) => "Audio Stream Error: "@ + detail,
            ErrorView::Player(detail) => "Audio Player Error: "@ + detail,
            ErrorView::Http(detail) => "HTTP Request Error: "@ + detail,
            ErrorView::Send(_) => "Send Error: channel closed"@,
            ErrorView::Io(detail) => "IO Error: "@ + detail,
            ErrorView::Join(detail) => "Join Error: "@ + detail,
            ErrorView::Json(detail) => "JSON Error: "@ + detail,
            ErrorView::Subscriber => "Failed to set log subscriber as global default"@,
            ErrorView::Reconnect(detail) => "Reconnecting to server due to error: "@ + detail,
            ErrorView::Invalid(detail) => "Invalid response from server: "@ + detail,
            ErrorView::NoTasks => "No tasks spawned"@,
            ErrorView::NoRetry => "Failed to connect after allowed attempts"@,
            ErrorView::RecvClosed => "Audio receiver channels closed"@,
        }
    }
}

impl View for Fe2IoError {
    type V = ErrorView;

    open spec fn view(&self) -> ErrorView {
        match self {
            Fe2IoError::WebSocket(detail) => ErrorView::WebSocket(detail@),
            Fe2IoError::Url(detail) => ErrorView::Url(detail@),
            Fe2IoError::Decoder(detail) => ErrorView::Decoder(detail@),
            Fe2IoError::Stream(detail) => ErrorView::Stream(detail@),
            Fe2IoError::Player(detail) => ErrorView::Player(detail@),
            Fe2IoError::Http(detail) => ErrorView::Http(detail@),
            Fe2IoError::Send(command) => ErrorView::Send(command@),
            Fe2IoError::Io(detail) => ErrorView::Io(detail@),
            Fe2IoError::Join(detail) => ErrorView::Join(detail@),
            Fe2IoError::Json(detail) => ErrorView::Json(detail@),
            Fe2IoError::Subscriber => ErrorView::Subscriber,
            Fe2IoError::Reconnect(detail) => ErrorView::Reconnect(detail@),
            Fe2IoError::Invalid(detail) => ErrorView::Invalid(detail@),
            Fe2IoError::NoTasks => ErrorView::NoTasks,
            Fe2IoError::NoRetry => ErrorView::NoRetry,
            Fe2IoError::RecvClosed => ErrorView::RecvClosed,
        }
    }
}

impl DeepView for Fe2IoError {
    type V = ErrorView;

    open spec fn deep_view(&self) -> ErrorView {
        self@
    }
}

/// `prefix` followed by `detail`.
fn prefixed(prefix: &str, detail: &String) -> (line: String)
    ensures
        line@ == prefix@ + detail@,
{
    prefix.to_owned().concat(detail.as_str())
}

impl Fe2IoError {
    /// The single question a supervisor asks of a failure.
    pub fn is_fatal(&self) -> (fatal: bool)
        ensures
            fatal == self@.is_fatal(),
    {
        match self {
            Fe2IoError::WebSocket(_) => false,
            Fe2IoError::Decoder(_) => false,
            Fe2IoError::Http(_) => false,
            Fe2IoError::Json(_) => false,
            Fe2IoError::Reconnect(_) => false,
            Fe2IoError::Invalid(_) => false,
            _ => true,
        }
    }

    /// The line to write to the log for this failure.
    pub fn message(&self) -> (line: String)
        ensures
            line@ == self@.message(),
    {
        match self {
            Fe2IoError::WebSocket(detail) => prefixed("WebSocket Error: ", detail),
            Fe2IoError::Url(detail) => prefixed("WebSocket Error: ", detail),
            Fe2IoError::Decoder(detail) => prefixed("Audio Decode Error: ", detail),
            Fe2IoError::Stream(detail) => prefixed("Audio Stream Error: ", detail),
            Fe2IoError::Player(detail) => prefixed("Audio Player Error: ", detail),
            Fe2IoError::Http(detail) => prefixed("HTTP Request Error: ", detail),
            Fe2IoError::Send(_) => "Send Error: channel closed".to_owned(),
            Fe2IoError::Io(detail) => prefixed("IO Error: ", detail),
            Fe2IoError::Join(detail) => prefixed("Join Error: ", detail),
            Fe2IoError::Json(detail) => prefixed("JSON Error: ", detail),
            Fe2IoError::Subscriber => "Failed to set log subscriber as global default".to_owned(),
            Fe2IoError::Reconnect(detail) => prefixed(
                "Reconnecting to server due to error: ",
                detail,
            ),
            Fe2IoError::Invalid(detail) => prefixed("Invalid response from server: ", detail),
            Fe2IoError::NoTasks => "No tasks spawned".to_owned(),
            Fe2IoError::NoRetry => "Failed to connect after allowed attempts".to_owned(),
            Fe2IoError::RecvClosed => "Audio receiver channels closed".to_owned(),
        }
    }
}

} // verus!
