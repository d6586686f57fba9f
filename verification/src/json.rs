//! JSON bodies: flat objects of text, numbers and flags.

use vstd::prelude::*;
use vstd::utf8::encode_utf8;
use crate::response::{Response, ResponseView};

verus! {

/// A value of a JSON object's field.
#[derive(Debug, Clone, PartialEq, Eq)]
pub enum JsonValue {
    Text(String),
    Number(u64),
    Flag(bool),
}

/// A field's value as values.
pub enum JsonScalar {
    Text(Seq<char>),
    Number(u64),
    Flag(bool),
}

impl DeepView for JsonValue {
    type V = JsonScalar;

    open spec fn deep_view(&self) -> JsonScalar {
        match self {
            JsonValue::Text(text) => JsonScalar::Text(text@),
            JsonValue::Number(number) => JsonScalar::Number(*number),
            JsonValue::Flag(flag) => JsonScalar::Flag(*flag),
        }
    }
}

/// The compact JSON text of the object with these fields.
pub uninterp spec fn json_object_text(fields: Seq<(Seq<char>, JsonScalar)>) -> Seq<char>;

/// Writes an object with `serde_json`: the fields go into a `Map` by `insert`,
/// in the order given, and the `Display` of the `Value::Object` made of it
/// writes the compact text. Nothing is claimed of that text beyond its being
/// a function of the keys and values.
#[verifier::external_body]
fn render_object(fields: &Vec<(String, JsonValue)>) -> (text: String)
    ensures
        text@ == json_object_text(fields.deep_view()),
{
    let mut object = serde_json::Map::new();
    for (key, value) in fields.iter() {
        let value = match value {
            JsonValue::Text(text) => serde_json::Value::String(text.clone()),
            JsonValue::Number(number) => serde_json::Value::from(*number),
            JsonValue::Flag(flag) => serde_json::Value::Bool(*flag),
        };
        object.insert(key.clone(), value);
    }
    serde_json::Value::Object(object).to_string()
}

/// The response that carries `text` as JSON.
pub open spec fn json_response_view(status: u16, text: Seq<char>) -> ResponseView {
    ResponseView {
        status,
        content_type: Some("application/json"@),
        cache_control: None,
        body: encode_utf8(text),
    }
}

/// A response with the given status whose body is `text`, sent as JSON.
pub fn json_response(status: u16, text: &str) -> (response: Response)
    ensures
        response@ == json_response_view(status, text@),
{
    Response {
        status,
        content_type: Some("application/json".to_owned()),
        cache_control: None,
        body: text.as_bytes_vec(),
    }
}

/// A response with the given status whose body is the object with these
/// fields.
pub fn object_response(status: u16, fields: &Vec<(String, JsonValue)>) -> (response: Response)
    ensures
        response@ == json_response_view(status, json_object_text(fields.deep_view())),
{
    let text = render_object(fields);
    json_response(status, text.as_str())
}

} // verus!
