//! The JSON reader behind error payloads.
//!
//! Parsing is `serde_json`'s. This module declares its document type and the
//! two calls the library makes into it, with what is taken on trust about
//! each.

use vstd::prelude::*;

verus! {

#[verifier::external_type_specification]
#[verifier::external_body]
pub struct ExJsonValue(serde_json::Value);

/// The value of one member of a JSON object, as far as the library reads it:
/// its JSON type, and the text of a string.
#[derive(Debug, Clone, PartialEq, Eq)]
pub enum Member {
    Null,
    Bool(bool),
    Number,
    Text(String),
    Array,
    Object,
}

/// Mathematical view of a [`Member`].
pub enum MemberView {
    Null,
    Bool(bool),
    Number,
    Text(Seq<char>),
    Array,
    Object,
}

impl View for Member {
    type V = MemberView;

    open spec fn view(&self) -> MemberView {
        match self {
            Member::Null => MemberView::Null,
            Member::Bool(b) => MemberView::Bool(*b),
            Member::Number => MemberView::Number,
            Member::Text(t) => MemberView::Text(t@),
            Member::Array => MemberView::Array,
            Member::Object => MemberView::Object,
        }
    }
}

/// View of an optional member.
pub open spec fn member_view(m: Option<Member>) -> Option<MemberView> {
    match m {
        Some(v) => Some(v@),
        None => None,
    }
}

/// The members of a parsed document by key. A document that is not a JSON
/// object has none.
pub uninterp spec fn members(doc: serde_json::Value) -> Map<Seq<char>, MemberView>;

/// The members of the document that `text` spells, or `None` where `text` is
/// not a JSON document.
pub uninterp spec fn parsed_members(text: Seq<char>) -> Option<Map<Seq<char>, MemberView>>;

/// The member stored under `key`, if any.
pub open spec fn lookup(doc: Map<Seq<char>, MemberView>, key: Seq<char>) -> Option<MemberView> {
    if doc.contains_key(key) {
        Some(doc[key])
    } else {
        None
    }
}

/// Calls `serde_json::from_str` for a `serde_json::Value`.
///
/// Trusted: the outcome depends on `text` alone; it is `None` exactly when
/// `serde_json` rejects the text, and otherwise the document whose members
/// are `parsed_members(text)`.
#[verifier::external_body]
pub(crate) fn parse_document(text: &str) -> (doc: Option<serde_json::Value>)
    ensures
        match doc {
            Some(d) => parsed_members(text@) == Some(members(d)),
            None => parsed_members(text@) is None,
        },
{
    serde_json::from_str::<serde_json::Value>(text).ok()
}

/// Calls `serde_json::Value::get` with a string key.
///
/// Trusted: the result is the member that the document holds under `key`,
/// reduced to its JSON type and, for a string, its text; `None` where the
/// document holds no such member or is not an object.
#[verifier::external_body]
pub(crate) fn member(doc: &serde_json::Value, key: &str) -> (m: Option<Member>)
    ensures
        member_view(m) == lookup(members(*doc), key@),
{
    match doc.get(key) {
        None => None,
        Some(serde_json::Value::Null) => Some(Member::Null),
        Some(serde_json::Value::Bool(b)) => Some(Member::Bool(*b)),
        Some(serde_json::Value::Number(_)) => Some(Member::Number),
        Some(serde_json::Value::String(s)) => Some(Member::Text(s.clone())),
        Some(serde_json::Value::Array(_)) => Some(Member::Array),
        Some(serde_json::Value::Object(_)) => Some(Member::Object),
    }
}

} // verus!
