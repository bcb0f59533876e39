//! The JSON the signaling messages are written in. Reading and writing JSON
//! text is left to `serde_json`; this module holds the flat model the codec
//! works on and the two calls into that crate.

use vstd::prelude::*;
use crate::session::optional_text;

verus! {

/// The value of one member of a JSON object, as far as the signaling codec
/// looks into it.
#[derive(Debug, PartialEq, Eq)]
pub enum JsonField {
    Null,
    Bool(bool),
    /// A number; its value where it is a non-negative integer below 2^64.
    Number(Option<u64>),
    Text(String),
    /// An array or an object.
    Composite,
}

/// Mathematical value of a [`JsonField`].
pub enum JsonFieldView {
    Null,
    Bool(bool),
    Number(Option<u64>),
    Text(Seq<char>),
    Composite,
}

impl View for JsonField {
    type V = JsonFieldView;

    open spec fn view(&self) -> JsonFieldView {
        match self {
            JsonField::Null => JsonFieldView::Null,
            JsonField::Bool(b) => JsonFieldView::Bool(*b),
            JsonField::Number(n) => JsonFieldView::Number(*n),
            JsonField::Text(t) => JsonFieldView::Text(t@),
            JsonField::Composite => JsonFieldView::Composite,
        }
    }
}

/// One member of a JSON object.
#[derive(Debug, PartialEq, Eq)]
pub struct JsonMember {
    pub name: String,
    pub value: JsonField,
}

/// Mathematical value of a [`JsonMember`].
pub struct JsonMemberView {
    pub name: Seq<char>,
    pub value: JsonFieldView,
}

impl View for JsonMember {
    type V = JsonMemberView;

    open spec fn view(&self) -> JsonMemberView {
        JsonMemberView { name: self.name@, value: self.value@ }
    }
}

/// Mathematical value of a list of members.
pub open spec fn members_view(members: Seq<JsonMember>) -> Seq<JsonMemberView> {
    members.map_values(|m: JsonMember| m@)
}

/// Mathematical value of an optional list of members.
pub open spec fn optional_members(members: Option<Vec<JsonMember>>) -> Option<Seq<JsonMemberView>> {
    match members {
        Some(list) => Some(members_view(list@)),
        None => None,
    }
}

/// Whether a member can be written out: every value can, except a number
/// without a value and a composite, of which this model keeps no content.
pub open spec fn writable(member: JsonMemberView) -> bool {
    member.value != JsonFieldView::Number(None) && member.value != JsonFieldView::Composite
}

/// The members of the JSON object that `serde_json` reads from a text, or
/// `None` where it does not read an object from it.
pub uninterp spec fn json_members(text: Seq<char>) -> Option<Seq<JsonMemberView>>;

/// The JSON text that `serde_json` writes for an object with the given
/// members, or `None` where it reports a failure.
pub uninterp spec fn json_text(members: Seq<JsonMemberView>) -> Option<Seq<char>>;

/// `serde_json::from_str`, reading a JSON object into a `serde_json::Map`.
/// The members come out in the order in which the map hands them over,
/// each value turned into a [`JsonField`] by its variant and a number by
/// `Number::as_u64`. The contract names the result and says nothing more:
/// in particular it does not promise that any text parses.
#[verifier::external_body]
pub(crate) fn read_object(text: &str) -> (r: Option<Vec<JsonMember>>)
    ensures
        optional_members(r) == json_members(text@),
{
    match serde_json::from_str::<serde_json::Map<String, serde_json::Value>>(text) {
        Err(_) => None,
        Ok(map) => Some(map.into_iter().map(|(name, value)| JsonMember { name, value: match value {
            serde_json::Value::Null => JsonField::Null,
            serde_json::Value::Bool(b) => JsonField::Bool(b),
            serde_json::Value::Number(n) => JsonField::Number(n.as_u64()),
            serde_json::Value::String(s) => JsonField::Text(s),
            serde_json::Value::Array(_) => JsonField::Composite,
            serde_json::Value::Object(_) => JsonField::Composite,
        } }).collect()),
    }
}

/// `serde_json::to_string`, writing the `serde_json::Map` that is made of
/// the given members. The contract names the result and does not promise
/// that writing succeeds.
#[verifier::external_body]
pub(crate) fn write_object(members: &Vec<JsonMember>) -> (r: Option<String>)
    requires
        forall|i: int| 0 <= i < members.len() ==> writable(#[trigger] members[i]@),
    ensures
        optional_text(r) == json_text(members_view(members@)),
{
    let map: serde_json::Map<String, serde_json::Value> = members.iter().map(|m| (m.name.clone(), match &m.value {
        JsonField::Bool(b) => serde_json::Value::Bool(*b),
        JsonField::Number(Some(n)) => serde_json::Value::from(*n),
        JsonField::Text(t) => serde_json::Value::String(t.clone()),
        JsonField::Null | JsonField::Number(None) | JsonField::Composite => serde_json::Value::Null,
    })).collect();
    serde_json::to_string(&map).ok()
}

} // verus!
