//! Rendering a flat record as JSON text.

use vstd::prelude::*;

verus! {

/// The value of one member of a flat JSON object.
#[derive(Debug, PartialEq, Eq)]
pub enum JsonField {
    Null,
    Bool(bool),
    Number(u64),
    Text(String),
}

/// The mathematical value of a [`JsonField`].
pub ghost enum JsonFieldView {
    Null,
    Bool(bool),
    Number(u64),
    Text(Seq<char>),
}

impl View for JsonField {
    type V = JsonFieldView;

    open spec fn view(&self) -> JsonFieldView {
        match self {
            JsonField::Null => JsonFieldView::Null,
            JsonField::Bool(b) => JsonFieldView::Bool(*b),
            JsonField::Number(n) => JsonFieldView::Number(*n),
            JsonField::Text(s) => JsonFieldView::Text(s@),
        }
    }
}

/// The members of a record as mathematical values, in order.
pub open spec fn members(fields: Seq<(String, JsonField)>) -> Seq<(Seq<char>, JsonFieldView)> {
    Seq::new(fields.len(), |i: int| (fields[i].0@, fields[i].1@))
}

/// The JSON text of the object that has the given members, inserted in the
/// given order.
pub uninterp spec fn json_object_text(members: Seq<(Seq<char>, JsonFieldView)>) -> Seq<char>;

/// Builds a `serde_json::Map` by `insert`, one member after the other, and
/// renders it with `serde_json::to_string`.
///
/// Trusted: the text depends on the members alone. Nothing is claimed about
/// what the text looks like.
#[verifier::external_body]
pub(crate) fn json_object(fields: &Vec<(String, JsonField)>) -> (text: String)
    ensures
        text@ == json_object_text(members(fields@)),
{
    let mut object = serde_json::Map::new();
    for (name, field) in fields.iter() {
        let value = match field {
            JsonField::Null => serde_json::Value::Null,
            JsonField::Bool(b) => serde_json::Value::from(*b),
            JsonField::Number(n) => serde_json::Value::from(*n),
            JsonField::Text(s) => serde_json::Value::from(s.as_str()),
        };
        object.insert(name.clone(), value);
    }
    serde_json::to_string(&serde_json::Value::Object(object)).unwrap_or_default()
}

} // verus!
