use kirill::driver::{
    conflict_line, error_line, plan, usage_brief, version_line, Command, Invocation, Report,
};
use kirill::error::KirillError;

fn invocation(flags: &str, schema: Option<&str>, paths: &[&str]) -> Invocation {
    Invocation {
        help: flags.contains('h'),
        version: flags.contains('v'),
        json5: flags.contains('5'),
        list: flags.contains('l'),
        schema_flag: flags.contains('s'),
        schema: schema.map(|s| s.to_string()),
        paths: paths.iter().map(|s| s.to_string()).collect(),
    }
}

#[test]
fn plain_paths_ask_for_a_syntax_check() {
    match plan(invocation("", None, &["a", "b"])) {
        Command::CheckSyntax { roots, parse_json5 } => {
            assert_eq!(roots, vec!["a".to_string(), "b".to_string()]);
            assert!(!parse_json5);
        }
        other => panic!("{:?}", other),
    }
    match plan(invocation("5", None, &["a"])) {
        Command::CheckSyntax { roots, parse_json5 } => {
            assert_eq!(roots, vec!["a".to_string()]);
            assert!(parse_json5);
        }
        other => panic!("{:?}", other),
    }
}

#[test]
fn list_flag_asks_for_a_listing() {
    match plan(invocation("l5", None, &["a"])) {
        Command::List { roots, parse_json5 } => {
            assert_eq!(roots, vec!["a".to_string()]);
            assert!(parse_json5);
        }
        other => panic!("{:?}", other),
    }
    // Listing goes before validating against a schema.
    assert!(matches!(
        plan(invocation("ls", Some("schema.json"), &["a"])),
        Command::List { parse_json5: false, .. }
    ));
}

#[test]
fn schema_flag_asks_for_a_schema_check() {
    match plan(invocation("s", Some("schema.json"), &["a", "b"])) {
        Command::CheckSchema { schema, roots } => {
            assert_eq!(schema, "schema.json");
            assert_eq!(roots, vec!["a".to_string(), "b".to_string()]);
        }
        other => panic!("{:?}", other),
    }
}

#[test]
fn json5_with_schema_is_a_conflict() {
    let command = plan(invocation("5s", Some("schema.json"), &["a"]));
    assert!(matches!(command, Command::Conflict));
    assert!(command.refuses());
    assert!(matches!(plan(invocation("5sl", Some("schema.json"), &["a"])), Command::Conflict));
    assert!(matches!(plan(invocation("5s", None, &[])), Command::Conflict));
}

#[test]
fn help_and_version_come_first() {
    assert!(matches!(plan(invocation("h", None, &[])), Command::Help));
    assert!(matches!(plan(invocation("v", None, &[])), Command::Version));
    assert!(matches!(plan(invocation("hv", None, &[])), Command::Help));
    assert!(matches!(plan(invocation("h5s", Some("s"), &["a"])), Command::Help));
    assert!(matches!(plan(invocation("v5s", Some("s"), &["a"])), Command::Version));
    assert!(!plan(invocation("h", None, &[])).refuses());
    assert!(!plan(invocation("v", None, &[])).refuses());
}

#[test]
fn missing_arguments_are_usage_errors() {
    assert!(matches!(plan(invocation("", None, &[])), Command::Usage));
    assert!(matches!(plan(invocation("l", None, &[])), Command::Usage));
    assert!(matches!(plan(invocation("s", None, &["a"])), Command::Usage));
    assert!(matches!(plan(invocation("s", Some(""), &["a"])), Command::Usage));
    assert!(matches!(plan(invocation("s", Some("schema.json"), &[])), Command::Usage));
    assert!(plan(invocation("", None, &[])).refuses());
}

#[test]
fn lines_are_worded_exactly() {
    assert_eq!(usage_brief("kirill"), "usage: kirill [OPTIONS] <path> [<path> [<path> ...]]");
    assert_eq!(version_line("kirill", "0.0.14"), "kirill 0.0.14");
    assert_eq!(conflict_line(), "error: JSON5 incompatible with JSON Schema");
    assert_eq!(
        error_line("/a.json", &KirillError::JSONParseError("bad".to_string())),
        "error: /a.json: bad"
    );
}

#[test]
fn syntax_run_reports_all_and_fails_at_the_end() {
    let mut report = Report::new();
    assert_eq!(report, Report { failed: false, finished: false });
    assert_eq!(report.note_syntax("/a.json", &None), None);
    assert_eq!(report, Report { failed: false, finished: false });
    let line = report.note_syntax("/b.json", &Some(KirillError::JSONParseError("bad".to_string())));
    assert_eq!(line, Some("error: /b.json: bad".to_string()));
    assert_eq!(report, Report { failed: true, finished: false });
    assert_eq!(report.note_syntax("/c.json", &None), None);
    assert_eq!(report, Report { failed: true, finished: false });
}

#[test]
fn schema_run_ends_at_the_first_violation() {
    let mut report = Report::new();
    assert_eq!(report.note_schema("/a.json", &Vec::new()), Vec::<String>::new());
    assert_eq!(report, Report { failed: false, finished: false });
    let errors = vec![
        KirillError::JSONSchemaError("one".to_string()),
        KirillError::JSONSchemaError("two".to_string()),
    ];
    assert_eq!(
        report.note_schema("/b.json", &errors),
        vec!["error: /b.json: one".to_string(), "error: /b.json: two".to_string()]
    );
    assert_eq!(report, Report { failed: true, finished: true });
}
