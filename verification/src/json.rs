//! JSON objects for machine readers.

use crate::text::texts;
use vstd::prelude::*;

verus! {

/// A value of a JSON object.
#[derive(Debug)]
pub enum JsonValue {
    /// A string.
    Text(String),
    /// A number.
    Number(u64),
    /// `true` or `false`.
    Flag(bool),
    /// An array of strings.
    List(Vec<String>),
}

/// What a [`JsonValue`] says.
#[verifier::ext_equal]
pub enum JsonValueView {
    Text(Seq<char>),
    Number(u64),
    Flag(bool),
    List(Seq<Seq<char>>),
}

impl View for JsonValue {
    type V = JsonValueView;

    open spec fn view(&self) -> JsonValueView {
        match *self {
            JsonValue::Text(s) => JsonValueView::Text(s@),
            JsonValue::Number(n) => JsonValueView::Number(n),
            JsonValue::Flag(b) => JsonValueView::Flag(b),
            JsonValue::List(v) => JsonValueView::List(texts(v@)),
        }
    }
}

/// A member of a JSON object: its key and its value.
pub type Member = (Seq<char>, JsonValueView);

/// What a list of members says.
pub open spec fn members(v: Seq<(String, JsonValue)>) -> Seq<Member> {
    Seq::new(v.len(), |i: int| (v[i].0@, v[i].1@))
}

/// Append one member.
pub fn push_member(out: &mut Vec<(String, JsonValue)>, key: &str, value: JsonValue)
    ensures
        members(final(out)@) == members(old(out)@).push((key@, value@)),
{
    out.push((key.to_string(), value));
    assert(members(out@) =~= members(old(out)@).push((key@, value@)));
}

/// The compact JSON text of the object with the given members, as `serde_json`
/// writes it; `None` if it reports an error.
pub uninterp spec fn json_object_text(object: Seq<Member>) -> Option<Seq<char>>;

/// The outside function `serde_json::to_string`, on a `serde_json::Value` that
/// is the object with the given members. Its result depends on the members
/// alone; what text it is, is not stated.
#[verifier::external_body]
fn serialize_object(object: Vec<(String, JsonValue)>) -> (r: Option<String>)
    ensures
        match r {
            Some(s) => json_object_text(members(object@)) == Some(s@),
            None => json_object_text(members(object@)) is None,
        },
{
    let map: serde_json::Map<String, serde_json::Value> = object.into_iter().map(|(k, v)| (k, match v {
        JsonValue::Text(s) => serde_json::Value::from(s),
        JsonValue::Number(n) => serde_json::Value::from(n),
        JsonValue::Flag(b) => serde_json::Value::from(b),
        JsonValue::List(items) => serde_json::Value::from(items),
    })).collect();
    serde_json::to_string(&serde_json::Value::Object(map)).ok()
}

/// The text shown for an object: an empty object if it could not be written.
pub open spec fn object_text(written: Option<Seq<char>>) -> Seq<char> {
    match written {
        Some(t) => t,
        None => "{}"@,
    }
}

/// The text to show, given what writing the object came to.
pub fn object_or_empty(written: Option<String>) -> (r: String)
    ensures
        r@ == object_text(
            match written {
                Some(s) => Some(s@),
                None => None,
            },
        ),
{
    match written {
        Some(s) => s,
        None => "{}".to_string(),
    }
}

/// Write an object as compact JSON.
pub fn render_object(object: Vec<(String, JsonValue)>) -> (r: String)
    ensures
        r@ == object_text(json_object_text(members(object@))),
{
    object_or_empty(serialize_object(object))
}

} // verus!
