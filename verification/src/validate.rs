//! The validators: plain syntax, and conformance to a JSON Schema.
//!
//! The caller reads the files; a text that could not be read is handed over
//! as `None`. Parsing and schema checking are the work of outside parsers
//! and an outside validator. What is decided here is which step is taken,
//! and how each outcome is reported.

use crate::error::{ErrorKind, Failure, KirillError};
use crate::outside::{
    compile_schema,
    compiled_schema,
    json5_complaint,
    parse_json,
    parsed_json,
    schema_violations,
    violation_messages,
};
use crate::text::{join, views};
use json_schema_validator_core::JsonSchemaValidator;
use vstd::prelude::*;

verus! {

/// The failure for a document that could not be read.
pub open spec fn unreadable_path(path: Seq<char>) -> Failure {
    Failure { kind: ErrorKind::IO, message: "unable to read path: "@ + path }
}

/// The failure for a file that could not be read.
pub open spec fn unreadable_file(path: Seq<char>) -> Failure {
    Failure { kind: ErrorKind::IO, message: "unable to read file: "@ + path }
}

/// The class of a syntax error in the given mode.
pub open spec fn syntax_kind(parse_json5: bool) -> ErrorKind {
    if parse_json5 {
        ErrorKind::JSON5Parse
    } else {
        ErrorKind::JSONParse
    }
}

/// The failures that `errors` stand for, in order.
pub open spec fn failures(errors: Seq<KirillError>) -> Seq<Failure> {
    errors.map_values(|e: KirillError| e@)
}

/// The schema failures with the given messages, in order.
pub open spec fn schema_failures(messages: Seq<Seq<char>>) -> Seq<Failure> {
    messages.map_values(|m: Seq<char>| Failure { kind: ErrorKind::JSONSchema, message: m })
}

/// What loading a schema gives, once its text was parsed: a parse error for
/// a text that is not JSON, else the validator, or a schema error with the
/// message of the compiler's refusal.
pub open spec fn loaded(parsed: Result<serde_json::Value, Seq<char>>) -> Result<
    JsonSchemaValidator,
    Failure,
> {
    match parsed {
        Err(message) => Err(Failure { kind: ErrorKind::JSONParse, message }),
        Ok(schema) => match compiled_schema(schema) {
            Err(message) => Err(Failure { kind: ErrorKind::JSONSchema, message }),
            Ok(validator) => Ok(validator),
        },
    }
}

/// What is wrong with a document, once its text was parsed: the one parse
/// error for a text that is not JSON, else one schema error for each
/// violation that the validator reports, in its order.
pub open spec fn judged(
    parsed: Result<serde_json::Value, Seq<char>>,
    validator: JsonSchemaValidator,
) -> Seq<Failure> {
    match parsed {
        Err(message) => seq![Failure { kind: ErrorKind::JSONParse, message }],
        Ok(document) => schema_failures(violation_messages(validator, document)),
    }
}

/// The outcome of loading a schema as mathematics.
pub open spec fn load_outcome(r: Result<JsonSchemaValidator, KirillError>) -> Result<
    JsonSchemaValidator,
    Failure,
> {
    match r {
        Ok(validator) => Ok(validator),
        Err(e) => Err(e@),
    }
}

/// Turns a parser's complaint into the verdict on a document: no complaint,
/// no error; else a parse error of the mode's class with the parser's
/// message.
pub fn syntax_verdict(complaint: Option<String>, parse_json5: bool) -> (r: Option<KirillError>)
    ensures
        match complaint {
            None => r is None,
            Some(message) => r matches Some(e) && e@ == (Failure {
                kind: syntax_kind(parse_json5),
                message: message@,
            }),
        },
{
    match complaint {
        None => None,
        Some(message) => if parse_json5 {
            Some(KirillError::JSON5ParseError(message))
        } else {
            Some(KirillError::JSONParseError(message))
        },
    }
}

/// validate_json_file_basic checks the text of a file for basic JSON
/// validity, or JSON5 validity if `parse_json5` is set. `s` is the path of
/// the file and `contents` what was read from it, `None` if it could not be
/// read.
///
/// Returns Some(error) on error. Otherwise, returns None.
pub fn validate_json_file_basic(s: &str, contents: Option<&str>, parse_json5: bool) -> (r: Option<
    KirillError,
>)
    ensures
        match contents {
            None => r matches Some(e) && e@ == unreadable_path(s@),
            Some(text) => if parse_json5 {
                r matches Some(e) ==> e@.kind == ErrorKind::JSON5Parse
            } else {
                match parsed_json(text@) {
                    Ok(_) => r is None,
                    Err(message) => r matches Some(e) && e@ == (Failure {
                        kind: ErrorKind::JSONParse,
                        message,
                    }),
                }
            },
        },
{
    match contents {
        None => Some(KirillError::IOError(join("unable to read path: ", s))),
        Some(text) => {
            if parse_json5 {
                syntax_verdict(json5_complaint(text), true)
            } else {
                syntax_verdict(parse_json(text).err(), false)
            }
        },
    }
}

/// Turns the outcome of compiling a schema into the outcome of loading it:
/// the validator as it is, or a schema error with the compiler's message.
pub fn schema_verdict(compiled: Result<JsonSchemaValidator, String>) -> (r: Result<
    JsonSchemaValidator,
    KirillError,
>)
    ensures
        match compiled {
            Ok(validator) => r == Ok::<JsonSchemaValidator, KirillError>(validator),
            Err(message) => r matches Err(e) && e@ == (Failure {
                kind: ErrorKind::JSONSchema,
                message: message@,
            }),
        },
{
    match compiled {
        Ok(validator) => Ok(validator),
        Err(message) => Err(KirillError::JSONSchemaError(message)),
    }
}

/// Loads a schema from what its text was parsed to: a parse error for a
/// complaint of the parser, else what compiling the value gives.
pub fn load_parsed_schema(parsed: Result<serde_json::Value, String>) -> (r: Result<
    JsonSchemaValidator,
    KirillError,
>)
    ensures
        load_outcome(r) == loaded(
            match parsed {
                Ok(schema) => Ok(schema),
                Err(message) => Err(message@),
            },
        ),
{
    match parsed {
        Err(message) => Err(KirillError::JSONParseError(message)),
        Ok(schema) => schema_verdict(compile_schema(schema)),
    }
}

/// load_json_schema_validator compiles the text of a schema file into a
/// validator, with the default validation options. `schema_filename` is the
/// path of the file and `contents` what was read from it, `None` if it
/// could not be read.
///
/// A file that could not be read is an I/O error, a text that is not JSON a
/// parse error, and a schema that the compiler refuses a schema error with
/// the compiler's message. Every other text gives its validator.
pub fn load_json_schema_validator(schema_filename: &str, contents: Option<&str>) -> (r: Result<
    JsonSchemaValidator,
    KirillError,
>)
    ensures
        load_outcome(r) == match contents {
            None => Err::<JsonSchemaValidator, Failure>(unreadable_file(schema_filename@)),
            Some(text) => loaded(parsed_json(text@)),
        },
{
    match contents {
        None => Err(KirillError::IOError(join("unable to read file: ", schema_filename))),
        Some(text) => load_parsed_schema(parse_json(text)),
    }
}

/// Wraps each message of a validator into a schema error, in order.
pub fn schema_errors(messages: Vec<String>) -> (errors: Vec<KirillError>)
    ensures
        failures(errors@) == schema_failures(views(messages@)),
{
    let mut errors: Vec<KirillError> = Vec::new();
    let mut i: usize = 0;
    assert(failures(errors@) =~= schema_failures(views(messages@.take(0))));
    while i < messages.len()
        invariant
            i <= messages.len(),
            failures(errors@) == schema_failures(views(messages@.take(i as int))),
        decreases messages.len() - i,
    {
        let ghost before = failures(errors@);
        let ghost added = Failure { kind: ErrorKind::JSONSchema, message: messages@[i as int]@ };
        errors.push(KirillError::JSONSchemaError(messages[i].clone()));
        proof {
            assert(failures(errors@) =~= before.push(added));
            assert(schema_failures(views(messages@.take(i + 1))) =~= schema_failures(
                views(messages@.take(i as int)),
            ).push(added));
        }
        i += 1;
    }
    proof {
        assert(messages@.take(i as int) =~= messages@);
    }
    errors
}

/// Lists what is wrong with a document from what its text was parsed to:
/// the one parse error for a complaint of the parser, else one schema error
/// for each violation that `validator` reports of the value.
pub fn judge_parsed_document(
    parsed: Result<serde_json::Value, String>,
    validator: &JsonSchemaValidator,
) -> (errors: Vec<KirillError>)
    ensures
        failures(errors@) == judged(
            match parsed {
                Ok(document) => Ok(document),
                Err(message) => Err(message@),
            },
            *validator,
        ),
{
    match parsed {
        Err(message) => {
            let mut errors: Vec<KirillError> = Vec::new();
            errors.push(KirillError::JSONParseError(message));
            proof {
                assert(failures(errors@) =~= seq![
                    Failure { kind: ErrorKind::JSONParse, message: message@ },
                ]);
            }
            errors
        },
        Ok(document) => schema_errors(schema_violations(validator, &document)),
    }
}

/// validate_json_file checks the text of a file against a JSON Schema. `s`
/// is the path of the file and `contents` what was read from it, `None` if
/// it could not be read.
///
/// The answer is always a list of errors, and the empty list says that the
/// document conforms. A file that could not be read, or a text that is not
/// JSON, gives that one error. For a JSON text the list holds one schema
/// error for each violation that the validator reports, in its order, with
/// the validator's message.
pub fn validate_json_file(s: &str, contents: Option<&str>, validator: &JsonSchemaValidator) -> (r:
    Result<(), Vec<KirillError>>)
    ensures
        r matches Err(errors) && failures(errors@) == match contents {
            None => seq![unreadable_file(s@)],
            Some(text) => judged(parsed_json(text@), *validator),
        },
{
    match contents {
        None => {
            let mut errors: Vec<KirillError> = Vec::new();
            errors.push(KirillError::IOError(join("unable to read file: ", s)));
            proof {
                assert(failures(errors@) =~= seq![unreadable_file(s@)]);
            }
            Err(errors)
        },
        Some(text) => Err(judge_parsed_document(parse_json(text), validator)),
    }
}

} // verus!
