//! The JSON reader that frames are parsed with.
//!
//! Parsing is the work of `serde_json`. Verus does not look into it, so what
//! this module states about it is believed, not proved: the parser accepts
//! a text or refuses it, what it accepts has members, and a lookup returns
//! the member stored under a key.

use vstd::prelude::*;

verus! {

/// `serde_json::Value`, a parsed JSON document. Opaque to the verifier.
#[verifier::external_type_specification]
#[verifier::external_body]
pub struct ExValue(serde_json::Value);

/// `serde_json::Error`, the reason why a text is no JSON document. Opaque to
/// the verifier.
#[verifier::external_type_specification]
#[verifier::external_body]
pub struct ExError(serde_json::Error);

/// What is stored under one key of a JSON object, as far as the protocol
/// looks at it.
#[derive(Debug, PartialEq, Eq)]
pub enum Member {
    /// The JSON value `null`.
    Null,
    /// A JSON string.
    Text(String),
    /// A boolean, a number, an array or an object.
    Other,
}

/// A `Member` as mathematical values.
pub enum MemberView {
    Null,
    Text(Seq<char>),
    Other,
}

impl View for Member {
    type V = MemberView;

    open spec fn view(&self) -> MemberView {
        match self {
            Member::Null => MemberView::Null,
            Member::Text(text) => MemberView::Text(text@),
            Member::Other => MemberView::Other,
        }
    }
}

impl DeepView for Member {
    type V = MemberView;

    open spec fn deep_view(&self) -> MemberView {
        self@
    }
}

/// The members of a parsed document, by key. A document that is not an
/// object has none.
pub uninterp spec fn members(value: serde_json::Value) -> Map<Seq<char>, MemberView>;

/// The members of the document that the parser reads from `text`, or `None`
/// where the parser refuses `text`: because it is not JSON, or because it
/// nests deeper than the parser follows.
pub uninterp spec fn document(text: Seq<char>) -> Option<Map<Seq<char>, MemberView>>;

/// Calls `serde_json::from_str` for a `serde_json::Value`.
///
/// Believed: whether the call succeeds, and the members of the value it
/// returns, depend on the text alone.
#[verifier::external_body]
pub(crate) fn parse(text: &str) -> (parsed: Result<serde_json::Value, serde_json::Error>)
    ensures
        match parsed {
            Ok(value) => document(text@) == Some(members(value)),
            Err(_) => document(text@) is None,
        },
{
    serde_json::from_str(text)
}

/// Calls `serde_json::Value::get` with a string key and tells the variants
/// of the value found apart.
///
/// Believed: the call returns the value stored under `key` if the document
/// is an object that has the key, and nothing otherwise; `null` and a string
/// are reported as what they are, with the string's text unchanged.
#[verifier::external_body]
pub(crate) fn member(value: &serde_json::Value, key: &str) -> (found: Option<Member>)
    ensures
        match found {
            Some(member) => members(*value).contains_key(key@) && members(*value)[key@]
                == member@,
            None => !members(*value).contains_key(key@),
        },
{
    match value.get(key) {
        None => None,
        Some(serde_json::Value::Null) => Some(Member::Null),
        Some(serde_json::Value::String(text)) => Some(Member::Text(text.clone())),
        Some(serde_json::Value::Bool(_)) => Some(Member::Other),
        Some(serde_json::Value::Number(_)) => Some(Member::Other),
        Some(serde_json::Value::Array(_)) => Some(Member::Other),
        Some(serde_json::Value::Object(_)) => Some(Member::Other),
    }
}

/// Calls `to_string` on a `serde_json::Error`: the parser's own words, with
/// the line and column of the fault. Nothing is claimed of the text.
#[verifier::external_body]
pub(crate) fn describe(error: &serde_json::Error) -> String {
    error.to_string()
}

} // verus!
