//! Single fields of JSON objects.
use vstd::prelude::*;

verus! {

/// A value in a JSON object.
#[derive(Debug)]
pub enum Json {
    Text(String),
    /// A number that is a whole one of 64 bits without sign.
    Number(u64),
    /// Any other value, in JSON text.
    Other(String),
}

/// A value in a JSON object, with its texts as character sequences.
pub enum JsonView {
    Text(Seq<char>),
    Number(u64),
    Other(Seq<char>),
}

impl View for Json {
    type V = JsonView;

    open spec fn view(&self) -> JsonView {
        match *self {
            Json::Text(s) => JsonView::Text(s@),
            Json::Number(n) => JsonView::Number(n),
            Json::Other(s) => JsonView::Other(s@),
        }
    }
}

/// What serde_json finds under a key in a JSON text: nothing, a value, or its own
/// words for why the text is not JSON.
pub uninterp spec fn json_field(text: Seq<char>, key: Seq<char>) -> Result<
    Option<JsonView>,
    Seq<char>,
>;

/// What serde_json writes for an object with these fields.
pub uninterp spec fn json_object(fields: Seq<(Seq<char>, JsonView)>) -> Seq<char>;

/// The outcome of reading a field, with its texts as character sequences.
pub open spec fn field_view(r: Result<Option<Json>, String>) -> Result<
    Option<JsonView>,
    Seq<char>,
> {
    match r {
        Ok(Some(v)) => Ok(Some(v@)),
        Ok(None) => Ok(None),
        Err(e) => Err(e@),
    }
}

/// `serde_json::from_str` into a `serde_json::Value`, then `Value::get`: the value
/// under a key, if the text is JSON, or the text of the error. It depends on the
/// two texts alone.
#[verifier::external_body]
pub(crate) fn read_field(text: &str, key: &str) -> (r: Result<Option<Json>, String>)
    ensures
        field_view(r) == json_field(text@, key@),
{
    let value: serde_json::Value = serde_json::from_str(text).map_err(|e| e.to_string())?;
    Ok(match value.get(key) {
        None => None,
        Some(serde_json::Value::String(s)) => Some(Json::Text(s.clone())),
        Some(v) => Some(match v.as_u64() {
            Some(n) => Json::Number(n),
            None => Json::Other(v.to_string()),
        }),
    })
}

/// A list of named values, with its texts as character sequences.
pub open spec fn fields_view(fields: Seq<(&'static str, Json)>) -> Seq<(Seq<char>, JsonView)> {
    fields.map_values(|f: (&'static str, Json)| (f.0@, f.1@))
}

/// Fields that a JSON object can have as they are: each under a key of its own, and
/// each a text or a number.
pub open spec fn plain_fields(fields: Seq<(Seq<char>, JsonView)>) -> bool {
    &&& forall|i: int, j: int|
        0 <= i < j < fields.len() ==> (#[trigger] fields[i]).0 != (#[trigger] fields[j]).0
    &&& forall|i: int| 0 <= i < fields.len() ==> !((#[trigger] fields[i]).1 is Other)
}

/// Reading a field of the text gives the field's value.
pub open spec fn keeps_fields(text: Seq<char>, fields: Seq<(Seq<char>, JsonView)>) -> bool {
    forall|i: int|
        0 <= i < fields.len() ==> json_field(text, (#[trigger] fields[i]).0) == Ok::<
            Option<JsonView>,
            Seq<char>,
        >(Some(fields[i].1))
}

/// `Display` of a `serde_json::Value` that is an object with these fields. The text
/// depends on the fields alone, and reading a field of it gives its value back.
/// The order in which the fields stand in it is left to serde_json.
#[verifier::external_body]
pub(crate) fn object_text(fields: Vec<(&'static str, Json)>) -> (r: String)
    requires
        plain_fields(fields_view(fields@)),
    ensures
        r@ == json_object(fields_view(fields@)),
        keeps_fields(r@, fields_view(fields@)),
{
    let mut map = serde_json::Map::new();
    for (key, value) in fields {
        let value = match value {
            Json::Text(s) => serde_json::Value::from(s),
            Json::Number(n) => serde_json::Value::from(n),
            Json::Other(s) => serde_json::Value::from(s),
        };
        map.insert(key.to_string(), value);
    }
    serde_json::Value::Object(map).to_string()
}

} // verus!
