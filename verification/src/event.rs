//! The network-facing unit: what to do with each frame that the connection
//! delivers, and when to open the connection again.
//!
//! The caller reads frames, hands commands to the queue and runs the
//! connection procedure. After each of these it reports what happened and is
//! told what to do next.

use crate::command::{Command, CommandView};
use crate::error::{ErrorView, Fe2IoError};
use crate::json::document;
use crate::protocol::{decode, decode_spec, result_view, Decoded, DecodedView};
use vstd::prelude::*;
use vstd::string::*;

verus! {

/// What a read on the connection came back with.
#[derive(Debug, PartialEq, Eq)]
pub enum Incoming {
    /// The stream of frames has ended.
    Closed,
    /// The read failed.
    Failed(String),
    /// A frame arrived that is not text.
    Unreadable(String),
    /// A frame arrived; this is its text.
    Text(String),
}

/// An `Incoming` as mathematical values.
pub enum IncomingView {
    Closed,
    Failed(Seq<char>),
    Unreadable(Seq<char>),
    Text(Seq<char>),
}

impl View for Incoming {
    type V = IncomingView;

    open spec fn view(&self) -> IncomingView {
        match self {
            Incoming::Closed => IncomingView::Closed,
            Incoming::Failed(detail) => IncomingView::Failed(detail@),
            Incoming::Unreadable(detail) => IncomingView::Unreadable(detail@),
            Incoming::Text(text) => IncomingView::Text(text@),
        }
    }
}

/// What the caller reports to the unit.
#[derive(Debug, PartialEq, Eq)]
pub enum NetEvent {
    /// A read on the connection came back.
    Frame(Incoming),
    /// The queue took the command.
    Submitted,
    /// The queue is closed; the command comes back.
    QueueClosed(Command),
    /// The connection procedure ended with a ready connection.
    Reconnected,
    /// The connection procedure gave up with this condition.
    ReconnectFailed(Fe2IoError),
}

/// A `NetEvent` as mathematical values.
pub enum NetEventView {
    Frame(IncomingView),
    Submitted,
    QueueClosed(CommandView),
    Reconnected,
    ReconnectFailed(ErrorView),
}

impl View for NetEvent {
    type V = NetEventView;

    open spec fn view(&self) -> NetEventView {
        match self {
            NetEvent::Frame(incoming) => NetEventView::Frame(incoming@),
            NetEvent::Submitted => NetEventView::Submitted,
            NetEvent::QueueClosed(command) => NetEventView::QueueClosed(command@),
            NetEvent::Reconnected => NetEventView::Reconnected,
            NetEvent::ReconnectFailed(error) => NetEventView::ReconnectFailed(error@),
        }
    }
}

/// What the caller does next.
#[derive(Debug, PartialEq, Eq)]
pub enum NetAction {
    /// Read the next frame.
    Read,
    /// Hand this command to the queue, waiting while the queue is full.
    Submit(Command),
    /// Drop the connection and run the connection procedure.
    Reconnect,
    /// Stop the unit with this fatal condition.
    Halt(Fe2IoError),
}

/// A `NetAction` as mathematical values.
pub enum NetActionView {
    Read,
    Submit(CommandView),
    Reconnect,
    Halt(ErrorView),
}

impl View for NetAction {
    type V = NetActionView;

    open spec fn view(&self) -> NetActionView {
        match self {
            NetAction::Read => NetActionView::Read,
            NetAction::Submit(command) => NetActionView::Submit(command@),
            NetAction::Reconnect => NetActionView::Reconnect,
            NetAction::Halt(error) => NetActionView::Halt(error@),
        }
    }
}

/// The unit's answer to one report.
#[derive(Debug, PartialEq, Eq)]
pub struct NetStep {
    /// A recoverable failure to log.
    pub report: Option<Fe2IoError>,
    /// The kind of a frame that was ignored, to log.
    pub ignored: Option<String>,
    /// What to do after that.
    pub next: NetAction,
}

/// A `NetStep` as mathematical values.
pub struct NetStepView {
    pub report: Option<ErrorView>,
    pub ignored: Option<Seq<char>>,
    pub next: NetActionView,
}

impl View for NetStep {
    type V = NetStepView;

    open spec fn view(&self) -> NetStepView {
        NetStepView {
            report: self.report.deep_view(),
            ignored: self.ignored.deep_view(),
            next: self.next@,
        }
    }
}

/// The text of the frame that a read delivered. The end of the stream and a
/// failed read both mean that the connection is gone; a frame that is not
/// text costs only itself.
pub open spec fn read_server_response_spec(incoming: IncomingView) -> Result<Seq<char>, ErrorView> {
    match incoming {
        IncomingView::Closed => Err(ErrorView::Reconnect("Connection closed normally"@)),
        IncomingView::Failed(detail) => Err(ErrorView::Reconnect(detail)),
        IncomingView::Unreadable(detail) => Err(ErrorView::WebSocket(detail)),
        IncomingView::Text(text) => Ok(text),
    }
}

/// The step that follows a frame, from what the frame was decoded to.
///
/// A command goes to the queue. An ignored frame and a recoverable failure
/// are logged and the next frame is read; a lost connection is logged and
/// opened again.
pub open spec fn after_frame_spec(handled: Result<DecodedView, ErrorView>) -> NetStepView {
    match handled {
        Ok(DecodedView::Command(command)) => NetStepView {
            report: None,
            ignored: None,
            next: NetActionView::Submit(command),
        },
        Ok(DecodedView::Ignored(kind)) => NetStepView {
            report: None,
            ignored: Some(kind),
            next: NetActionView::Read,
        },
        Err(ErrorView::Reconnect(detail)) => NetStepView {
            report: Some(ErrorView::Reconnect(detail)),
            ignored: None,
            next: NetActionView::Reconnect,
        },
        Err(error) => NetStepView { report: Some(error), ignored: None, next: NetActionView::Read },
    }
}

/// The step that follows a report other than a frame.
pub open spec fn after_report_spec(event: NetEventView) -> NetStepView
    recommends
        !(event is Frame),
{
    NetStepView {
        report: None,
        ignored: None,
        next: match event {
            NetEventView::QueueClosed(command) => NetActionView::Halt(ErrorView::Send(command)),
            NetEventView::ReconnectFailed(error) => NetActionView::Halt(error),
            _ => NetActionView::Read,
        },
    }
}

/// The text of the frame that a read delivered.
pub fn read_server_response(incoming: Incoming) -> (response: Result<String, Fe2IoError>)
    ensures
        result_view(response) == read_server_response_spec(incoming@),
{
    match incoming {
        Incoming::Closed => Err(Fe2IoError::Reconnect("Connection closed normally".to_owned())),
        Incoming::Failed(detail) => Err(Fe2IoError::Reconnect(detail)),
        Incoming::Unreadable(detail) => Err(Fe2IoError::WebSocket(detail)),
        Incoming::Text(text) => Ok(text),
    }
}

/// Takes what a read came back with to the command it carries, if any.
pub fn handle_events(incoming: Incoming) -> (handled: Result<Decoded, Fe2IoError>)
    ensures
        match read_server_response_spec(incoming@) {
            Err(error) => result_view(handled) == Err::<DecodedView, _>(error),
            Ok(text) => match document(text) {
                None => handled matches Err(Fe2IoError::Json(_)),
                Some(members) => result_view(handled) == decode_spec(members),
            },
        },
{
    let response = read_server_response(incoming)?;
    decode(response.as_str())
}

/// Decides how the unit goes on after a frame was handled.
pub fn after_frame(handled: Result<Decoded, Fe2IoError>) -> (step: NetStep)
    ensures
        step@ == after_frame_spec(result_view(handled)),
{
    match handled {
        Ok(Decoded::Command(command)) => NetStep {
            report: None,
            ignored: None,
            next: NetAction::Submit(command),
        },
        Ok(Decoded::Ignored(kind)) => NetStep {
            report: None,
            ignored: Some(kind),
            next: NetAction::Read,
        },
        Err(Fe2IoError::Reconnect(detail)) => NetStep {
            report: Some(Fe2IoError::Reconnect(detail)),
            ignored: None,
            next: NetAction::Reconnect,
        },
        Err(error) => NetStep { report: Some(error), ignored: None, next: NetAction::Read },
    }
}

/// Takes the caller's report and returns the next step of the network unit.
///
/// A frame is handled and answered as `after_frame` says. A closed queue
/// and a connection that cannot be opened again stop the unit; after
/// everything else the next frame is read.
pub fn event_loop(event: NetEvent) -> (step: NetStep)
    ensures
        match event@ {
            NetEventView::Frame(incoming) => match read_server_response_spec(incoming) {
                Err(error) => step@ == after_frame_spec(Err(error)),
                Ok(text) => match document(text) {
                    None => step@.report matches Some(ErrorView::Json(_)) && step@.ignored is None
                        && step@.next == NetActionView::Read,
                    Some(members) => step@ == after_frame_spec(decode_spec(members)),
                },
            },
            other => step@ == after_report_spec(other),
        },
{
    match event {
        NetEvent::Frame(incoming) => after_frame(handle_events(incoming)),
        NetEvent::Submitted => NetStep { report: None, ignored: None, next: NetAction::Read },
        NetEvent::Reconnected => NetStep { report: None, ignored: None, next: NetAction::Read },
        NetEvent::QueueClosed(command) => NetStep {
            report: None,
            ignored: None,
            next: NetAction::Halt(Fe2IoError::Send(command)),
        },
        NetEvent::ReconnectFailed(error) => NetStep {
            report: None,
            ignored: None,
            next: NetAction::Halt(error),
        },
    }
}

/// No frame stops the unit. A frame that carries a command sends exactly
/// that command to the queue; a frame that fails to decode is reported and
/// the next frame is read; only a lost connection leads to a reconnect.
pub proof fn lemma_frames_never_stop_the_unit(handled: Result<DecodedView, ErrorView>)
    ensures
        !(after_frame_spec(handled).next is Halt),
        after_frame_spec(handled).next is Submit <==> handled matches Ok(DecodedView::Command(_)),
        handled matches Ok(DecodedView::Command(command)) ==> after_frame_spec(handled).next
            == NetActionView::Submit(command),
        after_frame_spec(handled).next is Reconnect <==> handled matches Err(
            ErrorView::Reconnect(_),
        ),
        handled matches Err(error) ==> after_frame_spec(handled).report == Some(error),
{
}

/// The unit stops on two reports only: the queue is closed, or the
/// connection could not be opened again.
pub proof fn lemma_unit_stops_on_closed_queue_or_lost_server(event: NetEventView)
    requires
        !(event is Frame),
    ensures
        after_report_spec(event).next is Halt <==> event is QueueClosed || event is ReconnectFailed,
        event matches NetEventView::QueueClosed(command) ==> after_report_spec(event).next
            == NetActionView::Halt(ErrorView::Send(command)) && ErrorView::Send(
            command,
        ).is_fatal(),
        !(after_report_spec(event).next is Halt) ==> after_report_spec(event).next
            == NetActionView::Read,
{
}

} // verus!
