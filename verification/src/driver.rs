//! The decisions of the command line driver: what an invocation asks for,
//! and how the results of a run are reported.
//!
//! Parsing arguments, reading files, printing and ending the process are the
//! caller's business. It hands over what it parsed and what each validation
//! gave, and is told what to do next.

use crate::error::KirillError;
use crate::text::join;
use vstd::prelude::*;

verus! {

/// The flags and arguments of one invocation, as the argument parser found
/// them.
#[derive(Debug)]
pub struct Invocation {
    /// `-h`, `--help` was given.
    pub help: bool,
    /// `-v`, `--version` was given.
    pub version: bool,
    /// `-5`, `--json5` was given.
    pub json5: bool,
    /// `-l`, `--list` was given.
    pub list: bool,
    /// `-s`, `--schema` was given.
    pub schema_flag: bool,
    /// The value of `-s`, `--schema`.
    pub schema: Option<String>,
    /// The positional arguments: the roots to search.
    pub paths: Vec<String>,
}

/// What an invocation asks for.
#[derive(Debug)]
pub enum Command {
    /// Print the usage banner and end with success.
    Help,
    /// Print name and version and end with success.
    Version,
    /// JSON5 was asked for together with a schema: say so, print the usage
    /// banner and end with failure.
    Conflict,
    /// An argument is missing: print the usage banner and end with failure.
    Usage,
    /// Print the documents below the roots.
    List { roots: Vec<String>, parse_json5: bool },
    /// Validate the documents below the roots against the schema.
    CheckSchema { schema: String, roots: Vec<String> },
    /// Validate the syntax of the documents below the roots.
    CheckSyntax { roots: Vec<String>, parse_json5: bool },
}

impl Command {
    /// The command ends the process with the failure code at once.
    pub open spec fn is_refusal(self) -> bool {
        self is Conflict || self is Usage
    }

    /// The command searches roots, and so looks at the filesystem.
    pub open spec fn searches(self) -> bool {
        self is List || self is CheckSchema || self is CheckSyntax
    }

    /// Whether the command ends the process with the failure code at once.
    pub fn refuses(&self) -> (r: bool)
        ensures
            r == self.is_refusal(),
    {
        match self {
            Command::Conflict => true,
            Command::Usage => true,
            _ => false,
        }
    }
}

/// The schema option has no usable value: the flag was given without a
/// value, or with an empty one.
pub open spec fn lacks_schema(invocation: Invocation) -> bool {
    invocation.schema_flag && (invocation.schema matches Some(path) ==> path@.len() == 0)
}

/// What `invocation` asks for. Help comes before version, and both before
/// every complaint. A conflict of flags is found before a missing argument,
/// and listing goes before validating.
pub open spec fn planned(invocation: Invocation) -> Command {
    if invocation.help {
        Command::Help
    } else if invocation.version {
        Command::Version
    } else if invocation.json5 && invocation.schema_flag {
        Command::Conflict
    } else if lacks_schema(invocation) {
        Command::Usage
    } else if invocation.paths@.len() == 0 {
        Command::Usage
    } else if invocation.list {
        Command::List { roots: invocation.paths, parse_json5: invocation.json5 }
    } else if invocation.schema_flag {
        Command::CheckSchema { schema: invocation.schema->0, roots: invocation.paths }
    } else {
        Command::CheckSyntax { roots: invocation.paths, parse_json5: invocation.json5 }
    }
}

/// Decides what `invocation` asks for.
pub fn plan(invocation: Invocation) -> (command: Command)
    ensures
        command == planned(invocation),
{
    if invocation.help {
        return Command::Help;
    }
    if invocation.version {
        return Command::Version;
    }
    if invocation.json5 && invocation.schema_flag {
        return Command::Conflict;
    }
    let Invocation { help: _, version: _, json5, list, schema_flag, schema, paths } = invocation;
    if schema_flag {
        match schema {
            None => Command::Usage,
            Some(path) => {
                if path.as_str().is_empty() || paths.len() == 0 {
                    Command::Usage
                } else if list {
                    Command::List { roots: paths, parse_json5: json5 }
                } else {
                    Command::CheckSchema { schema: path, roots: paths }
                }
            },
        }
    } else if paths.len() == 0 {
        Command::Usage
    } else if list {
        Command::List { roots: paths, parse_json5: json5 }
    } else {
        Command::CheckSyntax { roots: paths, parse_json5: json5 }
    }
}

/// JSON5 together with a schema is refused before any root is looked at,
/// unless help or the version was asked for.
pub proof fn conflict_is_refused(invocation: Invocation)
    requires
        invocation.json5,
        invocation.schema_flag,
        !invocation.help,
        !invocation.version,
    ensures
        planned(invocation) == Command::Conflict,
        planned(invocation).is_refusal(),
        !planned(invocation).searches(),
{
}

/// Asking for help or for the version never fails and never looks at the
/// filesystem, whatever else is on the command line.
pub proof fn help_and_version_succeed(invocation: Invocation)
    requires
        invocation.help || invocation.version,
    ensures
        planned(invocation) is Help || planned(invocation) is Version,
        !planned(invocation).is_refusal(),
        !planned(invocation).searches(),
{
}

/// The first line of the usage banner for the program called `program`.
pub fn usage_brief(program: &str) -> (line: String)
    ensures
        line@ == "usage: "@ + program@ + " [OPTIONS] <path> [<path> [<path> ...]]"@,
{
    let mut line = join("usage: ", program);
    line.append(" [OPTIONS] <path> [<path> [<path> ...]]");
    line
}

/// The line that names the program and its version.
pub fn version_line(program: &str, version: &str) -> (line: String)
    ensures
        line@ == program@ + " "@ + version@,
{
    let mut line = join(program, " ");
    line.append(version);
    line
}

/// The line said when JSON5 is asked for together with a schema.
pub fn conflict_line() -> (line: String)
    ensures
        line@ == "error: JSON5 incompatible with JSON Schema"@,
{
    "error: JSON5 incompatible with JSON Schema".to_owned()
}

/// The text of a report line: what `error` says about `subject`.
pub open spec fn error_text(subject: Seq<char>, message: Seq<char>) -> Seq<char> {
    "error: "@ + subject + ": "@ + message
}

/// The line that reports `error` for `subject`, a document or a schema.
pub fn error_line(subject: &str, error: &KirillError) -> (line: String)
    ensures
        line@ == error_text(subject@, error@.message),
{
    let mut line = join("error: ", subject);
    line.append(": ");
    line.append(error.message().as_str());
    line
}

/// The state of a validation run: whether an invalid document was seen, and
/// whether the run is over before all documents were looked at.
#[derive(Clone, Copy, PartialEq, Eq, Debug, Structural)]
pub struct Report {
    pub failed: bool,
    pub finished: bool,
}

impl Report {
    /// The report after a syntax check that found the document invalid or
    /// not. A syntax run goes on to the last document.
    pub open spec fn after_syntax(self, invalid: bool) -> Report {
        Report { failed: self.failed || invalid, finished: self.finished }
    }

    /// The report after a schema check that found `violations` violations.
    /// A schema run ends with the first document that has any.
    pub open spec fn after_schema(self, violations: nat) -> Report {
        Report {
            failed: self.failed || violations > 0,
            finished: self.finished || violations > 0,
        }
    }

    /// The report of a run that has seen nothing yet.
    pub fn new() -> (report: Report)
        ensures
            report == (Report { failed: false, finished: false }),
    {
        Report { failed: false, finished: false }
    }

    /// Takes in the verdict of a syntax check on `document`, and returns the
    /// line to report, if the document is invalid.
    pub fn note_syntax(&mut self, document: &str, verdict: &Option<KirillError>) -> (line: Option<
        String,
    >)
        ensures
            *final(self) == old(self).after_syntax(verdict is Some),
            match verdict {
                None => line is None,
                Some(e) => line matches Some(l) && l@ == error_text(document@, e@.message),
            },
    {
        match verdict {
            None => None,
            Some(e) => {
                self.failed = true;
                Some(error_line(document, e))
            },
        }
    }

    /// Takes in the errors of a schema check on `document`, and returns the
    /// lines to report, one for each error.
    pub fn note_schema(&mut self, document: &str, errors: &Vec<KirillError>) -> (lines: Vec<String>)
        ensures
            *final(self) == old(self).after_schema(errors@.len()),
            lines@.len() == errors@.len(),
            forall|i: int|
                0 <= i < errors@.len() ==> (#[trigger] lines@[i])@ == error_text(
                    document@,
                    errors@[i]@.message,
                ),
    {
        let mut lines: Vec<String> = Vec::new();
        let mut i: usize = 0;
        while i < errors.len()
            invariant
                i <= errors.len(),
                lines@.len() == i,
                forall|j: int|
                    0 <= j < i ==> (#[trigger] lines@[j])@ == error_text(
                        document@,
                        errors@[j]@.message,
                    ),
            decreases errors.len() - i,
        {
            lines.push(error_line(document, &errors[i]));
            i += 1;
        }
        if errors.len() > 0 {
            self.failed = true;
            self.finished = true;
        }
        lines
    }
}

/// The course of a schema run over documents with the given numbers of
/// violations: the report at its end, and how many documents were checked.
pub open spec fn schema_run(start: Report, violations: Seq<nat>) -> (Report, nat)
    decreases violations.len(),
{
    if violations.len() == 0 || start.finished {
        (start, 0)
    } else {
        let rest = schema_run(start.after_schema(violations[0]), violations.drop_first());
        (rest.0, rest.1 + 1)
    }
}

/// The course of a syntax run over documents that are invalid or not: the
/// report at its end, and how many documents were checked.
pub open spec fn syntax_run(start: Report, invalid: Seq<bool>) -> (Report, nat)
    decreases invalid.len(),
{
    if invalid.len() == 0 || start.finished {
        (start, 0)
    } else {
        let rest = syntax_run(start.after_syntax(invalid[0]), invalid.drop_first());
        (rest.0, rest.1 + 1)
    }
}

/// A schema run ends with the first document that breaks the schema: that
/// document is the last one checked, whatever follows it, and the run has
/// failed.
pub proof fn schema_run_stops_at_first_violation(violations: Seq<nat>, first: int)
    requires
        0 <= first < violations.len(),
        violations[first] > 0,
        forall|i: int| 0 <= i < first ==> violations[i] == 0,
    ensures
        schema_run(Report { failed: false, finished: false }, violations) == (
            Report { failed: true, finished: true },
            (first + 1) as nat,
        ),
    decreases first,
{
    let start = Report { failed: false, finished: false };
    let rest = violations.drop_first();
    if first == 0 {
        assert(schema_run(start.after_schema(violations[0]), rest).1 == 0);
    } else {
        assert(start.after_schema(violations[0]) == start);
        assert forall|i: int| 0 <= i < first - 1 implies rest[i] == 0 by {
            assert(rest[i] == violations[i + 1]);
        }
        schema_run_stops_at_first_violation(rest, first - 1);
    }
}

/// A schema run over documents that all conform checks every one of them
/// and succeeds.
pub proof fn schema_run_passes_conforming(violations: Seq<nat>)
    requires
        forall|i: int| 0 <= i < violations.len() ==> violations[i] == 0,
    ensures
        schema_run(Report { failed: false, finished: false }, violations) == (
            Report { failed: false, finished: false },
            violations.len(),
        ),
    decreases violations.len(),
{
    let start = Report { failed: false, finished: false };
    if violations.len() > 0 {
        let rest = violations.drop_first();
        assert(start.after_schema(violations[0]) == start);
        assert forall|i: int| 0 <= i < rest.len() implies rest[i] == 0 by {
            assert(rest[i] == violations[i + 1]);
        }
        schema_run_passes_conforming(rest);
    }
}

/// A syntax run checks every document, and fails exactly if one of them is
/// invalid.
pub proof fn syntax_run_checks_all(start: Report, invalid: Seq<bool>)
    requires
        !start.finished,
    ensures
        syntax_run(start, invalid).1 == invalid.len(),
        !syntax_run(start, invalid).0.finished,
        syntax_run(start, invalid).0.failed <==> start.failed || invalid.contains(true),
    decreases invalid.len(),
{
    if invalid.len() > 0 {
        let rest = invalid.drop_first();
        syntax_run_checks_all(start.after_syntax(invalid[0]), rest);
        if invalid.contains(true) {
            let i = choose|i: int| 0 <= i < invalid.len() && invalid[i] == true;
            if i > 0 {
                assert(rest[i - 1] == true);
            }
        }
        if rest.contains(true) {
            let i = choose|i: int| 0 <= i < rest.len() && rest[i] == true;
            assert(invalid[i + 1] == true);
        }
    }
}

} // verus!
