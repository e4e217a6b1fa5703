use kirill::driver::Report;
use kirill::error::{ErrorKind, KirillError};
use kirill::validate::{
    judge_parsed_document, load_json_schema_validator, load_parsed_schema, schema_errors,
    schema_verdict, syntax_verdict, validate_json_file, validate_json_file_basic,
};

const SCHEMA: &str =
    r#"{"type": "object", "properties": {"x": {"type": "number"}}, "required": ["x"]}"#;

#[test]
fn json_object_is_valid_in_both_modes() {
    assert!(validate_json_file_basic("/a.json", Some(r#"{"a": 1}"#), false).is_none());
    assert!(validate_json_file_basic("/a.json", Some(r#"{"a": 1}"#), true).is_none());
}

#[test]
fn bare_key_is_valid_json5_only() {
    let error = validate_json_file_basic("/a.json", Some("{a: 1}"), false).unwrap();
    assert_eq!(error.kind(), ErrorKind::JSONParse);
    assert_eq!(error.message(), "key must be a string at line 1 column 2");
    assert!(validate_json_file_basic("/a.json5", Some("{a: 1}"), true).is_none());
}

#[test]
fn json5_errors_are_json5_parse_errors() {
    let error = validate_json_file_basic("/a.json5", Some("{a: "), true).unwrap();
    assert_eq!(error.kind(), ErrorKind::JSON5Parse);
    assert!(!error.message().is_empty());
}

#[test]
fn empty_text_is_no_json() {
    let error = validate_json_file_basic("/a.json", Some(""), false).unwrap();
    assert_eq!(error.kind(), ErrorKind::JSONParse);
    assert_eq!(error.message(), "EOF while parsing a value at line 1 column 0");
}

#[test]
fn unreadable_document_is_an_io_error() {
    for json5 in [false, true] {
        let error = validate_json_file_basic("/srv/a.json", None, json5).unwrap();
        assert_eq!(error.kind(), ErrorKind::IO);
        assert_eq!(error.message(), "unable to read path: /srv/a.json");
    }
}

#[test]
fn syntax_verdict_wraps_the_complaint() {
    assert!(syntax_verdict(None, false).is_none());
    assert!(syntax_verdict(None, true).is_none());
    let error = syntax_verdict(Some("bad".to_string()), false).unwrap();
    assert!(matches!(error, KirillError::JSONParseError(_)));
    assert_eq!(error.message(), "bad");
    let error = syntax_verdict(Some("bad".to_string()), true).unwrap();
    assert!(matches!(error, KirillError::JSON5ParseError(_)));
    assert_eq!(error.message(), "bad");
}

#[test]
fn unreadable_schema_is_an_io_error() {
    let error = load_json_schema_validator("schema.json", None).err().unwrap();
    assert_eq!(error.kind(), ErrorKind::IO);
    assert_eq!(error.message(), "unable to read file: schema.json");
}

#[test]
fn schema_that_is_no_json_is_a_parse_error() {
    let error = load_json_schema_validator("schema.json", Some("{type: object}")).err().unwrap();
    assert_eq!(error.kind(), ErrorKind::JSONParse);
    assert_eq!(error.message(), "key must be a string at line 1 column 2");
}

#[test]
fn schema_that_is_no_object_is_a_schema_error() {
    let error = load_json_schema_validator("schema.json", Some("[1, 2]")).err().unwrap();
    assert_eq!(error.kind(), ErrorKind::JSONSchema);
    assert_eq!(error.message(), "Schema must be an object");
}

#[test]
fn schema_verdict_wraps_the_refusal() {
    let error = schema_verdict(Err("refused".to_string())).err().unwrap();
    assert_eq!(error.kind(), ErrorKind::JSONSchema);
    assert_eq!(error.message(), "refused");
    let validator = load_json_schema_validator("schema.json", Some(SCHEMA)).ok().unwrap();
    assert!(schema_verdict(Ok(validator)).is_ok());
}

#[test]
fn schema_errors_wrap_each_message() {
    let errors = schema_errors(vec!["one".to_string(), "two".to_string()]);
    assert_eq!(errors.len(), 2);
    assert!(matches!(errors[0], KirillError::JSONSchemaError(_)));
    assert_eq!(errors[0].message(), "one");
    assert_eq!(errors[1].kind(), ErrorKind::JSONSchema);
    assert_eq!(errors[1].message(), "two");
    assert!(schema_errors(Vec::new()).is_empty());
}

#[test]
fn conforming_document_has_no_errors() {
    let validator = load_json_schema_validator("schema.json", Some(SCHEMA)).ok().unwrap();
    let errors = validate_json_file("/a.json", Some(r#"{"x": 1}"#), &validator).unwrap_err();
    assert!(errors.is_empty());
}

#[test]
fn violating_document_has_schema_errors() {
    let validator = load_json_schema_validator("schema.json", Some(SCHEMA)).ok().unwrap();
    let errors = validate_json_file("/a.json", Some(r#"{"x": "s"}"#), &validator).unwrap_err();
    assert_eq!(errors.len(), 1);
    assert_eq!(errors[0].kind(), ErrorKind::JSONSchema);
    assert_eq!(errors[0].message(), "Expected type number, got string");
    let errors = validate_json_file("/a.json", Some(r#"{"y": true}"#), &validator).unwrap_err();
    assert_eq!(errors.len(), 1);
    assert_eq!(errors[0].message(), "Missing required property 'x'");
}

#[test]
fn every_violation_is_reported() {
    let schema = r#"{"type": "object", "required": ["a", "b"], "properties": {"c": {"type": "string", "minLength": 3}}}"#;
    let validator = load_json_schema_validator("schema.json", Some(schema)).ok().unwrap();
    let errors = validate_json_file("/a.json", Some(r#"{"c": "x"}"#), &validator).unwrap_err();
    let messages: Vec<String> = errors.iter().map(|e| e.message()).collect();
    assert_eq!(
        messages,
        vec![
            "Missing required property 'a'".to_string(),
            "Missing required property 'b'".to_string(),
            "String length 1 is less than minimum 3".to_string(),
        ]
    );
}

#[test]
fn unreadable_or_broken_document_is_one_error() {
    let validator = load_json_schema_validator("schema.json", Some(SCHEMA)).ok().unwrap();
    let errors = validate_json_file("/srv/a.json", None, &validator).unwrap_err();
    assert_eq!(errors.len(), 1);
    assert_eq!(errors[0].kind(), ErrorKind::IO);
    assert_eq!(errors[0].message(), "unable to read file: /srv/a.json");
    let errors = validate_json_file("/srv/a.json", Some("{x: 1}"), &validator).unwrap_err();
    assert_eq!(errors.len(), 1);
    assert_eq!(errors[0].kind(), ErrorKind::JSONParse);
    assert_eq!(errors[0].message(), "key must be a string at line 1 column 2");
}

fn schema_mode_run(documents: &[(&str, &str)]) -> (Vec<String>, Vec<String>, Report) {
    let validator = load_json_schema_validator("schema.json", Some(SCHEMA)).ok().unwrap();
    let mut report = Report::new();
    let mut checked = Vec::new();
    let mut lines = Vec::new();
    for (path, text) in documents {
        if report.finished {
            break;
        }
        checked.push(path.to_string());
        let errors = validate_json_file(path, Some(text), &validator).unwrap_err();
        lines.extend(report.note_schema(path, &errors));
    }
    (checked, lines, report)
}

#[test]
fn schema_mode_reports_the_invalid_document_after_the_valid_one() {
    let (checked, lines, report) =
        schema_mode_run(&[("/a.json", r#"{"x": 1}"#), ("/b.json", r#"{"x": "s"}"#)]);
    assert_eq!(checked, vec!["/a.json".to_string(), "/b.json".to_string()]);
    assert_eq!(lines, vec!["error: /b.json: Expected type number, got string".to_string()]);
    assert!(report.failed);
}

#[test]
fn schema_mode_never_checks_what_follows_an_invalid_document() {
    let (checked, lines, report) =
        schema_mode_run(&[("/a.json", r#"{"x": "s"}"#), ("/b.json", r#"{"x": 1}"#)]);
    assert_eq!(checked, vec!["/a.json".to_string()]);
    assert_eq!(lines, vec!["error: /a.json: Expected type number, got string".to_string()]);
    assert!(report.failed);
    assert!(report.finished);
}

#[test]
fn syntax_mode_checks_every_document() {
    let documents = [("/a.json", "{a: 1}"), ("/b.json", r#"{"a": 1}"#), ("/c.json", "[")];
    let mut report = Report::new();
    let mut lines = Vec::new();
    let mut checked = 0;
    for (path, text) in documents {
        if report.finished {
            break;
        }
        checked += 1;
        let verdict = validate_json_file_basic(path, Some(text), false);
        if let Some(line) = report.note_syntax(path, &verdict) {
            lines.push(line);
        }
    }
    assert_eq!(checked, 3);
    assert_eq!(
        lines,
        vec![
            "error: /a.json: key must be a string at line 1 column 2".to_string(),
            "error: /c.json: EOF while parsing a list at line 1 column 1".to_string(),
        ]
    );
    assert!(report.failed);
    assert!(!report.finished);
}

#[test]
fn parsed_schema_is_compiled_or_refused() {
    let error = load_parsed_schema(Err("bad".to_string())).err().unwrap();
    assert_eq!(error.kind(), ErrorKind::JSONParse);
    assert_eq!(error.message(), "bad");
    let error = load_parsed_schema(Ok(serde_json::Value::Bool(true))).err().unwrap();
    assert_eq!(error.kind(), ErrorKind::JSONSchema);
    assert_eq!(error.message(), "Schema must be an object");
    assert!(load_parsed_schema(Ok(serde_json::from_str(SCHEMA).unwrap())).is_ok());
}

#[test]
fn parsed_document_is_judged_by_the_validator() {
    let validator = load_json_schema_validator("schema.json", Some(SCHEMA)).ok().unwrap();
    let errors = judge_parsed_document(Err("bad".to_string()), &validator);
    assert_eq!(errors.len(), 1);
    assert_eq!(errors[0].kind(), ErrorKind::JSONParse);
    assert_eq!(errors[0].message(), "bad");
    let document = serde_json::from_str(r#"{"x": []}"#).unwrap();
    let errors = judge_parsed_document(Ok(document), &validator);
    assert_eq!(errors.len(), 1);
    assert_eq!(errors[0].kind(), ErrorKind::JSONSchema);
    assert_eq!(errors[0].message(), "Expected type number, got array");
    let document = serde_json::from_str(r#"{"x": 2.5}"#).unwrap();
    assert!(judge_parsed_document(Ok(document), &validator).is_empty());
}

#[test]
fn loaded_validator_is_the_one_of_the_schema() {
    // Two schemas, two validators: each judges by its own schema.
    let wants_number = load_json_schema_validator("a", Some(r#"{"type": "number"}"#)).ok().unwrap();
    let wants_string = load_json_schema_validator("b", Some(r#"{"type": "string"}"#)).ok().unwrap();
    assert!(validate_json_file("/d.json", Some("1"), &wants_number).unwrap_err().is_empty());
    assert_eq!(validate_json_file("/d.json", Some("1"), &wants_string).unwrap_err().len(), 1);
    assert!(validate_json_file("/d.json", Some(r#""s""#), &wants_string).unwrap_err().is_empty());
    assert_eq!(validate_json_file("/d.json", Some(r#""s""#), &wants_number).unwrap_err().len(), 1);
}
