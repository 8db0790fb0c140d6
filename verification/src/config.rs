//! The config files that runtime adapters write beside their runtimes: a pretty-printed JSON
//! object, written by serde_json.
use vstd::prelude::*;
use vstd::string::*;

use crate::error::DaemonError;

verus! {

#[verifier::external_type_specification]
#[verifier::external_body]
pub struct ExSerdeJsonError(serde_json::Error);

/// The pretty-printed JSON object that serde_json writes for the text fields `text_fields`
/// and the number fields `number_fields`.
pub uninterp spec fn pretty_json_object(
    text_fields: Seq<(Seq<char>, Seq<char>)>,
    number_fields: Seq<(Seq<char>, u64)>,
) -> Seq<char>;

/// The texts of a list of text fields.
pub open spec fn text_field_views(fields: Seq<(String, String)>) -> Seq<(Seq<char>, Seq<char>)> {
    fields.map_values(|f: (String, String)| (f.0@, f.1@))
}

/// The texts of a list of number fields.
pub open spec fn number_field_views(fields: Seq<(String, u64)>) -> Seq<(Seq<char>, u64)> {
    fields.map_values(|f: (String, u64)| (f.0@, f.1))
}

/// Writes the JSON object of the fields with `serde_json::to_string_pretty`, each text field
/// as a JSON string and each number field as a JSON number. The text is named
/// [`pretty_json_object`] of the fields. It always succeeds: serde_json writes into a `Vec`,
/// which cannot fail, and an object with string keys and string or number values gives no
/// serialization error.
#[verifier::external_body]
fn to_string_pretty_object(text_fields: &Vec<(String, String)>, number_fields: &Vec<(String, u64)>) -> (r: Result<
    String,
    serde_json::Error,
>)
    ensures
        r is Ok,
        r matches Ok(text) ==> text@ == pretty_json_object(
            text_field_views(text_fields@),
            number_field_views(number_fields@),
        ),
{
    let mut object = serde_json::Map::new();
    for (key, value) in text_fields {
        object.insert(key.clone(), serde_json::Value::String(value.clone()));
    }
    for (key, value) in number_fields {
        object.insert(key.clone(), serde_json::Value::from(*value));
    }
    serde_json::to_string_pretty(&serde_json::Value::Object(object))
}

/// The text of a serde_json error (its `Display`).
#[verifier::external_body]
fn serde_json_error_text(error: &serde_json::Error) -> (text: String) {
    error.to_string()
}

/// The text of a runtime config with these fields; serializing them always succeeds.
pub fn runtime_config_text(text_fields: &Vec<(String, String)>, number_fields: &Vec<(String, u64)>) -> (r: Result<
    String,
    DaemonError,
>)
    ensures
        r matches Ok(text) && text@ == pretty_json_object(
            text_field_views(text_fields@),
            number_field_views(number_fields@),
        ),
{
    match to_string_pretty_object(text_fields, number_fields) {
        Ok(text) => Ok(text),
        Err(error) => Err(DaemonError::Json { message: serde_json_error_text(&error) }),
    }
}

} // verus!
