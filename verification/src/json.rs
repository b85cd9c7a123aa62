//! The JSON codec, as far as records need it.
//!
//! Records are stored as JSON objects. Writing and reading the text is left
//! to `serde_json`; this module is the only place that calls it. What the
//! codec writes and reads is not spelled out here: it is named, by
//! [`json_text`] and [`json_members`], and the rest of the crate reasons
//! about those names.

use vstd::prelude::*;

verus! {

/// The error type of `serde_json`. The wrappers below hand it out as it
/// comes; nothing is known of it, and [`crate::record`] replaces it by an error of
/// its own.
#[verifier::external_type_specification]
#[verifier::external_body]
pub struct ExJsonError(serde_json::Error);

/// The value of one member of a JSON object, one level deep: texts and flags
/// are kept, of the other kinds only the kind.
#[derive(Clone, Debug, PartialEq, Eq)]
pub enum Member {
    Null,
    Flag(bool),
    Number,
    Text(String),
    List,
    Object,
}

/// A [`Member`] with its text as a character sequence.
pub enum MemberView {
    Null,
    Flag(bool),
    Number,
    Text(Seq<char>),
    List,
    Object,
}

impl View for Member {
    type V = MemberView;

    open spec fn view(&self) -> MemberView {
        match self {
            Member::Null => MemberView::Null,
            Member::Flag(b) => MemberView::Flag(*b),
            Member::Number => MemberView::Number,
            Member::Text(s) => MemberView::Text(s@),
            Member::List => MemberView::List,
            Member::Object => MemberView::Object,
        }
    }
}

impl DeepView for Member {
    type V = MemberView;

    open spec fn deep_view(&self) -> MemberView {
        self@
    }
}

/// The text that `serde_json::to_string` writes for the JSON object whose
/// members are the given keys and text values, in the given order; `None`
/// where it reports an error.
pub uninterp spec fn json_text(members: Seq<(Seq<char>, Seq<char>)>) -> Option<Seq<char>>;

/// The members of the JSON object that `serde_json::from_str` reads from a
/// text, in the order in which the parsed map hands them out; `None` where it
/// reports an error, which it does for any text that is not one JSON object.
pub uninterp spec fn json_members(text: Seq<char>) -> Option<Seq<(Seq<char>, MemberView)>>;

/// Writes an object of text members: calls `serde_json::to_string` on a
/// `serde_json::Map` that holds each member as a `serde_json::Value::String`,
/// put in in the given order.
///
/// Taken on trust: that the outcome depends on the members alone, so that
/// [`json_text`] can name it. Nothing is claimed about what the text looks
/// like, nor that a text ever comes.
#[verifier::external_body]
pub(crate) fn write_object(members: &Vec<(String, String)>) -> (r: Result<String, serde_json::Error>)
    ensures
        r matches Ok(text) ==> json_text(members.deep_view()) == Some(text@),
        r is Err ==> json_text(members.deep_view()) is None,
{
    let object: serde_json::Map<String, serde_json::Value> = members
        .iter()
        .map(|(key, text)| (key.clone(), serde_json::Value::String(text.clone())))
        .collect();
    serde_json::to_string(&object)
}

/// Reads an object: calls `serde_json::from_str` for a `serde_json::Map` of
/// `serde_json::Value`s and hands out the entries of the map in the map's
/// own order, each value reduced to a [`Member`] by its variant.
///
/// Taken on trust: that the outcome depends on the text alone, so that
/// [`json_members`] can name it. Nothing is claimed about which texts are
/// objects, nor about the members of any.
#[verifier::external_body]
pub(crate) fn read_object(text: &str) -> (r: Result<Vec<(String, Member)>, serde_json::Error>)
    ensures
        r matches Ok(members) ==> json_members(text@) == Some(members.deep_view()),
        r is Err ==> json_members(text@) is None,
{
    let object = serde_json::from_str::<serde_json::Map<String, serde_json::Value>>(text)?;
    Ok(object.into_iter().map(|(key, value)| (key, match value {
        serde_json::Value::Null => Member::Null,
        serde_json::Value::Bool(flag) => Member::Flag(flag),
        serde_json::Value::Number(_) => Member::Number,
        serde_json::Value::String(text) => Member::Text(text),
        serde_json::Value::Array(_) => Member::List,
        serde_json::Value::Object(_) => Member::Object,
    })).collect())
}

} // verus!
