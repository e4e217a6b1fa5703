//! The calls that leave the library. Verus takes the contracts in this file
//! on trust; everything else is proved from them.

use crate::discovery::Resolution;
use crate::text::views;
use vstd::prelude::*;

verus! {

/// A parsed JSON value. The library only carries it from the parser to the
/// schema validator.
#[verifier::external_type_specification]
#[verifier::external_body]
pub struct ExJsonValue(serde_json::Value);

/// A compiled JSON Schema. The library only carries it from the compiler to
/// the validation calls.
#[verifier::external_type_specification]
#[verifier::external_body]
pub struct ExJsonSchemaValidator(json_schema_validator_core::JsonSchemaValidator);

/// What `clean_path::clean` makes of `path`, as text: `Ok` with the cleaned
/// path, or, where the cleaned path has no textual form, `Err` with an
/// approximate rendering of it.
pub uninterp spec fn cleaned_path(path: Seq<char>) -> Result<Seq<char>, Seq<char>>;

/// Calls `clean_path::clean`, which normalises a path lexically (doubled
/// separators, `.` and `..` segments) without looking at the filesystem. The
/// contract only names the result: the same path always cleans to the same
/// text.
#[verifier::external_body]
pub(crate) fn clean_path_text(path: &str) -> (r: Result<String, String>)
    ensures
        cleaned_path(path@) == match r {
            Ok(text) => Ok::<Seq<char>, Seq<char>>(text@),
            Err(shown) => Err::<Seq<char>, Seq<char>>(shown@),
        },
{
    let cleaned = clean_path::clean(path);
    match cleaned.to_str() {
        Some(text) => Ok(text.to_string()),
        None => Err(cleaned.display().to_string()),
    }
}

/// Calls `std::path::absolute`, which puts the current directory before a
/// relative path, and renders the result as text. The answer depends on
/// where the process runs, so nothing is claimed of it.
#[verifier::external_body]
pub(crate) fn resolve_path(path: &str) -> (r: Resolution) {
    match std::path::absolute(path) {
        Err(_) => Resolution::Failed,
        Ok(resolved) => match resolved.to_str() {
            Some(text) => Resolution::Text(text.to_string()),
            None => Resolution::Unrenderable(resolved.display().to_string()),
        },
    }
}

/// What `serde_json::from_str` makes of `text`, read as a JSON value: `Ok`
/// with the value, or `Err` with the message of the parser's error.
pub uninterp spec fn parsed_json(text: Seq<char>) -> Result<serde_json::Value, Seq<char>>;

/// Calls `serde_json::from_str` to read `text` as a JSON value. It returns
/// the value, or the text of the parser's error. The contract only names
/// the result: the parser looks at nothing but the text, so the same text
/// always gives the same value or the same message.
#[verifier::external_body]
pub(crate) fn parse_json(text: &str) -> (r: Result<serde_json::Value, String>)
    ensures
        parsed_json(text@) == match r {
            Ok(value) => Ok::<serde_json::Value, Seq<char>>(value),
            Err(message) => Err::<serde_json::Value, Seq<char>>(message@),
        },
{
    match serde_json::from_str::<serde_json::Value>(text) {
        Ok(value) => Ok(value),
        Err(e) => Err(e.to_string()),
    }
}

/// Calls `serde_json5::from_str` to read `text` as a JSON5 value, and
/// returns the text of the parser's error, if it has one. The parser gives
/// up where the machine's stack runs short, so its verdict is not a matter
/// of the text alone, and nothing is claimed of it.
#[verifier::external_body]
pub(crate) fn json5_complaint(text: &str) -> (r: Option<String>) {
    match serde_json5::from_str::<serde_json::Value>(text) {
        Ok(_) => None,
        Err(e) => Some(e.to_string()),
    }
}

/// What `JsonSchemaValidator::new` makes of `schema` under the default
/// validation options: `Ok` with the validator, or `Err` with the message
/// of the error that refuses the schema.
pub uninterp spec fn compiled_schema(schema: serde_json::Value) -> Result<
    json_schema_validator_core::JsonSchemaValidator,
    Seq<char>,
>;

/// Calls `JsonSchemaValidator::new` with the default validation options. It
/// returns the validator, or the message of the error that refused the
/// schema. The contract only names the result: the compiler looks at
/// nothing but the schema.
#[verifier::external_body]
pub(crate) fn compile_schema(schema: serde_json::Value) -> (r: Result<
    json_schema_validator_core::JsonSchemaValidator,
    String,
>)
    ensures
        compiled_schema(schema) == match r {
            Ok(validator) => Ok::<json_schema_validator_core::JsonSchemaValidator, Seq<char>>(
                validator,
            ),
            Err(message) => Err::<json_schema_validator_core::JsonSchemaValidator, Seq<char>>(
                message@,
            ),
        },
{
    let options = json_schema_validator_core::ValidationOptions::default();
    match json_schema_validator_core::JsonSchemaValidator::new(schema, options) {
        Ok(validator) => Ok(validator),
        Err(e) => Err(e.message),
    }
}

/// The messages of the violations that `JsonSchemaValidator::validate`
/// reports of `document` under `validator`, in its order.
pub uninterp spec fn violation_messages(
    validator: json_schema_validator_core::JsonSchemaValidator,
    document: serde_json::Value,
) -> Seq<Seq<char>>;

/// Calls `JsonSchemaValidator::validate` and returns the message of each
/// violation it reports, in its order. The contract only names the result:
/// the validator looks at nothing but the schema it was compiled from and
/// the document.
#[verifier::external_body]
pub(crate) fn schema_violations(
    validator: &json_schema_validator_core::JsonSchemaValidator,
    document: &serde_json::Value,
) -> (r: Vec<String>)
    ensures
        views(r@) == violation_messages(*validator, *document),
{
    validator.validate(document).into_iter().map(|e| e.message).collect()
}

} // verus!
