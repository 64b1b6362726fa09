//! Reading one member out of a JSON request body.

use vstd::prelude::*;

verus! {

/// What a request body holds under one member name.
#[derive(Clone, Debug, PartialEq, Eq)]
pub enum JsonMember {
    /// The body is not a JSON document.
    Malformed,
    /// The body is a JSON document without such a member.
    Absent,
    /// The member is a string.
    Text(String),
    /// The member is a number that is an unsigned 64-bit integer.
    Unsigned(u64),
    /// The member is something else.
    Other,
}

/// A body's member as a mathematical value.
pub ghost enum JsonMemberView {
    Malformed,
    Absent,
    Text(Seq<char>),
    Unsigned(u64),
    Other,
}

impl View for JsonMember {
    type V = JsonMemberView;

    open spec fn view(&self) -> JsonMemberView {
        match self {
            JsonMember::Malformed => JsonMemberView::Malformed,
            JsonMember::Absent => JsonMemberView::Absent,
            JsonMember::Text(text) => JsonMemberView::Text(text@),
            JsonMember::Unsigned(n) => JsonMemberView::Unsigned(*n),
            JsonMember::Other => JsonMemberView::Other,
        }
    }
}

/// What the JSON parser finds in `body` under the member name `key`.
pub uninterp spec fn json_member_of(body: Seq<u8>, key: Seq<char>) -> JsonMemberView;

/// Parses `body` with `serde_json::from_slice` into a `serde_json::Value`, looks
/// `key` up with `Value::get` and reads a number with `Number::as_u64`.
///
/// Trusted: the contract only gives the outcome its name, `json_member_of`. It
/// rests on the parser being a function of the bytes and the key alone; nothing
/// is claimed about which bytes are a JSON document.
#[verifier::external_body]
pub(crate) fn json_member(body: &[u8], key: &str) -> (r: JsonMember)
    ensures
        r@ == json_member_of(body@, key@),
{
    match serde_json::from_slice::<serde_json::Value>(body) {
        Err(_) => JsonMember::Malformed,
        Ok(document) => match document.get(key) {
            None => JsonMember::Absent,
            Some(serde_json::Value::String(text)) => JsonMember::Text(text.clone()),
            Some(serde_json::Value::Number(number)) => match number.as_u64() {
                Some(n) => JsonMember::Unsigned(n),
                None => JsonMember::Other,
            },
            Some(_) => JsonMember::Other,
        },
    }
}

} // verus!
