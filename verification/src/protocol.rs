//! The protocol decoder: from the text of a frame to the command it carries.
//!
//! A frame is one JSON object. Its kind stands under `msgType`, `msg_type`,
//! `type_` or `type`; the address of a clip under `audioUrl` or `audio_url`;
//! a status token under `statusType` or `status_type`.

use crate::command::{Command, CommandView};
use crate::error::{ErrorView, Fe2IoError};
use crate::json::{describe, document, member, parse, Member, MemberView};
use vstd::prelude::*;
use vstd::string::*;

verus! {

/// What a frame holds under each spelling that the protocol knows. `None`
/// means that the frame has no member under that spelling.
#[derive(Debug, PartialEq, Eq)]
pub struct Spellings {
    /// Under `msgType`.
    pub msg_type_camel: Option<Member>,
    /// Under `msg_type`.
    pub msg_type_snake: Option<Member>,
    /// Under `type_`.
    pub type_underscore: Option<Member>,
    /// Under `type`.
    pub type_plain: Option<Member>,
    /// Under `audioUrl`.
    pub audio_url_camel: Option<Member>,
    /// Under `audio_url`.
    pub audio_url_snake: Option<Member>,
    /// Under `statusType`.
    pub status_type_camel: Option<Member>,
    /// Under `status_type`.
    pub status_type_snake: Option<Member>,
}

/// `Spellings` as mathematical values.
pub struct SpellingsView {
    pub msg_type_camel: Option<MemberView>,
    pub msg_type_snake: Option<MemberView>,
    pub type_underscore: Option<MemberView>,
    pub type_plain: Option<MemberView>,
    pub audio_url_camel: Option<MemberView>,
    pub audio_url_snake: Option<MemberView>,
    pub status_type_camel: Option<MemberView>,
    pub status_type_snake: Option<MemberView>,
}

impl View for Spellings {
    type V = SpellingsView;

    open spec fn view(&self) -> SpellingsView {
        SpellingsView {
            msg_type_camel: self.msg_type_camel.deep_view(),
            msg_type_snake: self.msg_type_snake.deep_view(),
            type_underscore: self.type_underscore.deep_view(),
            type_plain: self.type_plain.deep_view(),
            audio_url_camel: self.audio_url_camel.deep_view(),
            audio_url_snake: self.audio_url_snake.deep_view(),
            status_type_camel: self.status_type_camel.deep_view(),
            status_type_snake: self.status_type_snake.deep_view(),
        }
    }
}

/// A frame with its spellings resolved: the kind of the message and its two
/// optional payloads.
#[derive(Debug, PartialEq, Eq)]
pub struct Envelope {
    pub msg_type: String,
    pub audio_url: Option<String>,
    pub status_type: Option<String>,
}

/// An `Envelope` as mathematical values.
pub struct EnvelopeView {
    pub msg_type: Seq<char>,
    pub audio_url: Option<Seq<char>>,
    pub status_type: Option<Seq<char>>,
}

impl View for Envelope {
    type V = EnvelopeView;

    open spec fn view(&self) -> EnvelopeView {
        EnvelopeView {
            msg_type: self.msg_type@,
            audio_url: self.audio_url.deep_view(),
            status_type: self.status_type.deep_view(),
        }
    }
}

/// What a well-formed frame amounts to.
#[derive(Debug, PartialEq, Eq)]
pub enum Decoded {
    /// The frame carries this command.
    Command(Command),
    /// The frame is of a kind that the client does not act on; the kind is
    /// kept for the log.
    Ignored(String),
}

/// A `Decoded` as mathematical values.
pub enum DecodedView {
    Command(CommandView),
    Ignored(Seq<char>),
}

impl View for Decoded {
    type V = DecodedView;

    open spec fn view(&self) -> DecodedView {
        match self {
            Decoded::Command(command) => DecodedView::Command(command@),
            Decoded::Ignored(kind) => DecodedView::Ignored(kind@),
        }
    }
}

/// The failure for a field that a frame spells in two ways at once.
pub open spec fn duplicate_field(name: Seq<char>) -> ErrorView {
    ErrorView::Json("duplicate field `"@ + name + "`"@)
}

/// The failure for a frame without its kind.
pub open spec fn missing_field(name: Seq<char>) -> ErrorView {
    ErrorView::Json("missing field `"@ + name + "`"@)
}

/// The failure for a field that holds something other than a string.
pub open spec fn mistyped_field(name: Seq<char>) -> ErrorView {
    ErrorView::Json("invalid type for field `"@ + name + "`, expected a string"@)
}

/// The member found under one of two spellings: at most one may be there.
pub open spec fn either_spelling(
    name: Seq<char>,
    first: Option<MemberView>,
    second: Option<MemberView>,
) -> Result<Option<MemberView>, ErrorView> {
    match (first, second) {
        (Some(_), Some(_)) => Err(duplicate_field(name)),
        (Some(found), None) => Ok(Some(found)),
        (None, found) => Ok(found),
    }
}

/// The text of a field that must be there: a missing member, `null` and any
/// other non-string are failures.
pub open spec fn required_text(name: Seq<char>, found: Option<MemberView>) -> Result<
    Seq<char>,
    ErrorView,
> {
    match found {
        None => Err(missing_field(name)),
        Some(MemberView::Text(text)) => Ok(text),
        Some(_) => Err(mistyped_field(name)),
    }
}

/// The text of a field that may be left out: a missing member and `null`
/// both mean that there is none.
pub open spec fn optional_text(name: Seq<char>, found: Option<MemberView>) -> Result<
    Option<Seq<char>>,
    ErrorView,
> {
    match found {
        None => Ok(None),
        Some(MemberView::Null) => Ok(None),
        Some(MemberView::Text(text)) => Ok(Some(text)),
        Some(MemberView::Other) => Err(mistyped_field(name)),
    }
}

/// The kind of the message, from its four spellings.
pub open spec fn msg_type_of(spellings: SpellingsView) -> Result<Seq<char>, ErrorView> {
    let name = "type_"@;
    match either_spelling(name, spellings.msg_type_camel, spellings.msg_type_snake) {
        Err(error) => Err(error),
        Ok(found) => match either_spelling(name, found, spellings.type_underscore) {
            Err(error) => Err(error),
            Ok(found) => match either_spelling(name, found, spellings.type_plain) {
                Err(error) => Err(error),
                Ok(found) => required_text(name, found),
            },
        },
    }
}

/// One optional payload, from its two spellings.
pub open spec fn payload_of(
    name: Seq<char>,
    camel: Option<MemberView>,
    snake: Option<MemberView>,
) -> Result<Option<Seq<char>>, ErrorView> {
    match either_spelling(name, camel, snake) {
        Err(error) => Err(error),
        Ok(found) => optional_text(name, found),
    }
}

/// The envelope that the spellings of a frame resolve to. The kind is
/// looked at first, then the address, then the status.
pub open spec fn envelope_spec(spellings: SpellingsView) -> Result<EnvelopeView, ErrorView> {
    match msg_type_of(spellings) {
        Err(error) => Err(error),
        Ok(msg_type) => match payload_of(
            "audio_url"@,
            spellings.audio_url_camel,
            spellings.audio_url_snake,
        ) {
            Err(error) => Err(error),
            Ok(audio_url) => match payload_of(
                "status_type"@,
                spellings.status_type_camel,
                spellings.status_type_snake,
            ) {
                Err(error) => Err(error),
                Ok(status_type) => Ok(EnvelopeView { msg_type, audio_url, status_type }),
            },
        },
    }
}

/// The play command of an envelope of kind `bgm`.
pub open spec fn get_audio_spec(envelope: EnvelopeView) -> Result<CommandView, ErrorView> {
    match envelope.audio_url {
        Some(url) => Ok(CommandView::PlayAudio(url)),
        None => Err(
            ErrorView::Invalid("Server sent response of type bgm but no URL was provided"@),
        ),
    }
}

/// The status command of an envelope of kind `gameStatus`.
pub open spec fn get_status_spec(envelope: EnvelopeView) -> Result<CommandView, ErrorView> {
    match envelope.status_type {
        Some(token) => Ok(CommandView::SetStatus(token)),
        None => Err(
            ErrorView::Invalid(
                "Server sent response of type gameStatus but no status was provided"@,
            ),
        ),
    }
}

/// What an envelope amounts to: `bgm` plays a clip, `gameStatus` sets a
/// status, every other kind is ignored.
pub open spec fn match_server_response_spec(envelope: EnvelopeView) -> Result<
    DecodedView,
    ErrorView,
> {
    if envelope.msg_type == "bgm"@ {
        match get_audio_spec(envelope) {
            Ok(command) => Ok(DecodedView::Command(command)),
            Err(error) => Err(error),
        }
    } else if envelope.msg_type == "gameStatus"@ {
        match get_status_spec(envelope) {
            Ok(command) => Ok(DecodedView::Command(command)),
            Err(error) => Err(error),
        }
    } else {
        Ok(DecodedView::Ignored(envelope.msg_type))
    }
}

/// What a document holds under `key`.
pub open spec fn lookup(members: Map<Seq<char>, MemberView>, key: Seq<char>) -> Option<
    MemberView,
> {
    if members.contains_key(key) {
        Some(members[key])
    } else {
        None
    }
}

/// What a document holds under each spelling that the protocol knows.
pub open spec fn spellings_of(members: Map<Seq<char>, MemberView>) -> SpellingsView {
    SpellingsView {
        msg_type_camel: lookup(members, "msgType"@),
        msg_type_snake: lookup(members, "msg_type"@),
        type_underscore: lookup(members, "type_"@),
        type_plain: lookup(members, "type"@),
        audio_url_camel: lookup(members, "audioUrl"@),
        audio_url_snake: lookup(members, "audio_url"@),
        status_type_camel: lookup(members, "statusType"@),
        status_type_snake: lookup(members, "status_type"@),
    }
}

/// What the members of a document decode to.
pub open spec fn decode_spec(members: Map<Seq<char>, MemberView>) -> Result<
    DecodedView,
    ErrorView,
> {
    match envelope_spec(spellings_of(members)) {
        Err(error) => Err(error),
        Ok(envelope) => match_server_response_spec(envelope),
    }
}

/// The views of both sides of a result.
pub open spec fn result_view<T: View, E: View>(result: Result<T, E>) -> Result<T::V, E::V> {
    match result {
        Ok(value) => Ok(value@),
        Err(error) => Err(error@),
    }
}

/// `start`, then `name`, then `end`, as the detail of a malformed frame.
fn field_fault(start: &str, name: &str, end: &str) -> (error: Fe2IoError)
    ensures
        error@ == ErrorView::Json(start@ + name@ + end@),
{
    Fe2IoError::Json(start.to_owned().concat(name).concat(end))
}

/// Resolves two spellings of one field.
fn either(name: &str, first: Option<Member>, second: Option<Member>) -> (found: Result<
    Option<Member>,
    Fe2IoError,
>)
    ensures
        match found {
            Ok(member) => either_spelling(name@, first.deep_view(), second.deep_view()) == Ok::<
                _,
                ErrorView,
            >(member.deep_view()),
            Err(error) => either_spelling(name@, first.deep_view(), second.deep_view()) == Err::<
                Option<MemberView>,
                _,
            >(error@),
        },
{
    match first {
        Some(found) => match second {
            Some(_) => Err(field_fault("duplicate field `", name, "`")),
            None => Ok(Some(found)),
        },
        None => Ok(second),
    }
}

/// The text of a field that must be there.
fn required(name: &str, found: Option<Member>) -> (text: Result<String, Fe2IoError>)
    ensures
        result_view(text) == required_text(name@, found.deep_view()),
{
    match found {
        None => Err(field_fault("missing field `", name, "`")),
        Some(Member::Text(text)) => Ok(text),
        Some(_) => Err(field_fault("invalid type for field `", name, "`, expected a string")),
    }
}

/// One optional payload, from its two spellings.
fn payload(name: &str, camel: Option<Member>, snake: Option<Member>) -> (text: Result<
    Option<String>,
    Fe2IoError,
>)
    ensures
        match text {
            Ok(payload) => payload_of(name@, camel.deep_view(), snake.deep_view()) == Ok::<
                _,
                ErrorView,
            >(payload.deep_view()),
            Err(error) => payload_of(name@, camel.deep_view(), snake.deep_view()) == Err::<
                Option<Seq<char>>,
                _,
            >(error@),
        },
{
    match either(name, camel, snake) {
        Err(error) => Err(error),
        Ok(None) => Ok(None),
        Ok(Some(Member::Null)) => Ok(None),
        Ok(Some(Member::Text(text))) => Ok(Some(text)),
        Ok(Some(Member::Other)) => Err(
            field_fault("invalid type for field `", name, "`, expected a string"),
        ),
    }
}

/// Resolves the spellings of a frame into its envelope.
///
/// A field may be spelled in one way only. The kind must be a string. A
/// payload is a string, or is left out, or is `null`. Everything else fails
/// with `Json`.
pub fn envelope_of(spellings: Spellings) -> (envelope: Result<Envelope, Fe2IoError>)
    ensures
        result_view(envelope) == envelope_spec(spellings@),
{
    let found = either("type_", spellings.msg_type_camel, spellings.msg_type_snake)?;
    let found = either("type_", found, spellings.type_underscore)?;
    let found = either("type_", found, spellings.type_plain)?;
    let msg_type = required("type_", found)?;
    let audio_url = payload("audio_url", spellings.audio_url_camel, spellings.audio_url_snake)?;
    let status_type = payload(
        "status_type",
        spellings.status_type_camel,
        spellings.status_type_snake,
    )?;
    Ok(Envelope { msg_type, audio_url, status_type })
}

/// The play command of an envelope of kind `bgm`; the address must be there.
pub fn get_audio(msg: Envelope) -> (command: Result<Command, Fe2IoError>)
    ensures
        result_view(command) == get_audio_spec(msg@),
{
    match msg.audio_url {
        Some(url) => Ok(Command::PlayAudio(url)),
        None => Err(
            Fe2IoError::Invalid(
                "Server sent response of type bgm but no URL was provided".to_owned(),
            ),
        ),
    }
}

/// The status command of an envelope of kind `gameStatus`; the token must
/// be there.
pub fn get_status(msg: Envelope) -> (command: Result<Command, Fe2IoError>)
    ensures
        result_view(command) == get_status_spec(msg@),
{
    match msg.status_type {
        Some(token) => Ok(Command::SetStatus(token)),
        None => Err(
            Fe2IoError::Invalid(
                "Server sent response of type gameStatus but no status was provided".to_owned(),
            ),
        ),
    }
}

/// Turns an envelope into the command it stands for. A kind that the client
/// does not know is no failure: the frame is ignored.
pub fn match_server_response(msg: Envelope) -> (decoded: Result<Decoded, Fe2IoError>)
    ensures
        result_view(decoded) == match_server_response_spec(msg@),
{
    if msg.msg_type == "bgm".to_owned() {
        match get_audio(msg) {
            Ok(command) => Ok(Decoded::Command(command)),
            Err(error) => Err(error),
        }
    } else if msg.msg_type == "gameStatus".to_owned() {
        match get_status(msg) {
            Ok(command) => Ok(Decoded::Command(command)),
            Err(error) => Err(error),
        }
    } else {
        Ok(Decoded::Ignored(msg.msg_type))
    }
}

/// Parses the text of a frame and resolves its spellings.
///
/// Fails with `Json` where the parser refuses the text, and as
/// `envelope_of` does where it accepts it.
pub fn parse_server_response(response: &str) -> (envelope: Result<Envelope, Fe2IoError>)
    ensures
        match document(response@) {
            None => envelope matches Err(Fe2IoError::Json(_)),
            Some(members) => result_view(envelope) == envelope_spec(spellings_of(members)),
        },
{
    let value = match parse(response) {
        Ok(value) => value,
        Err(error) => {
            return Err(Fe2IoError::Json(describe(&error)));
        },
    };
    envelope_of(
        Spellings {
            msg_type_camel: member(&value, "msgType"),
            msg_type_snake: member(&value, "msg_type"),
            type_underscore: member(&value, "type_"),
            type_plain: member(&value, "type"),
            audio_url_camel: member(&value, "audioUrl"),
            audio_url_snake: member(&value, "audio_url"),
            status_type_camel: member(&value, "statusType"),
            status_type_snake: member(&value, "status_type"),
        },
    )
}

/// Decodes the text of a frame.
///
/// A text that the parser refuses, a frame without its kind, and a field of
/// the wrong shape fail with `Json`; a known kind without its payload fails
/// with `Invalid`. All of these are recoverable.
pub fn decode(raw: &str) -> (decoded: Result<Decoded, Fe2IoError>)
    ensures
        match document(raw@) {
            None => decoded matches Err(Fe2IoError::Json(_)),
            Some(members) => result_view(decoded) == decode_spec(members),
        },
        decoded matches Err(error) ==> !error@.is_fatal(),
{
    match parse_server_response(raw) {
        Ok(envelope) => match_server_response(envelope),
        Err(error) => Err(error),
    }
}

/// A frame that spells its kind in none of the four ways is refused, and the
/// refusal is recoverable.
pub proof fn lemma_frame_without_kind_is_refused(members: Map<Seq<char>, MemberView>)
    requires
        !members.contains_key("msgType"@),
        !members.contains_key("msg_type"@),
        !members.contains_key("type_"@),
        !members.contains_key("type"@),
    ensures
        decode_spec(members) == Err::<DecodedView, _>(missing_field("type_"@)),
        !missing_field("type_"@).is_fatal(),
{
}

/// Whatever a frame holds, decoding it fails with `Json` or `Invalid` or
/// not at all: no frame can end the unit that reads it.
pub proof fn lemma_decode_failures_are_recoverable(members: Map<Seq<char>, MemberView>)
    ensures
        decode_spec(members) matches Err(error) ==> (error is Json || error is Invalid)
            && !error.is_fatal(),
{
}

/// A frame of kind `bgm` with an address plays that address, a frame of
/// kind `gameStatus` with a token sets that status, under whichever single
/// spelling the kind and the payload stand.
pub proof fn lemma_known_kinds_decode(envelope: EnvelopeView)
    ensures
        envelope.msg_type == "bgm"@ && envelope.audio_url is Some ==> match_server_response_spec(
            envelope,
        ) == Ok::<_, ErrorView>(DecodedView::Command(CommandView::PlayAudio(envelope.audio_url->0))),
        envelope.msg_type == "gameStatus"@ && envelope.status_type is Some
            ==> match_server_response_spec(envelope) == Ok::<_, ErrorView>(
            DecodedView::Command(CommandView::SetStatus(envelope.status_type->0)),
        ),
{
    reveal_strlit("bgm");
    reveal_strlit("gameStatus");
    assert("bgm"@.len() != "gameStatus"@.len());
}

} // verus!
