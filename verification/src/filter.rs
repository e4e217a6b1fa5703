//! The path filter: which paths are taken for JSON documents.
//!
//! A path is a document when it ends in one of the known extensions and
//! holds none of the exclusion markers. Exclusion is decided first and wins
//! outright.

use crate::text::{chars_of, contains, ends_with, has_substring, has_suffix};
use vstd::prelude::*;

verus! {

/// The endings of JSON documents.
pub open spec fn json_suffixes() -> Seq<Seq<char>> {
    seq![".eslintrc"@, ".jsfmtrc"@, ".jslintrc"@, ".jshintrc"@, ".json"@]
}

/// The endings of JSON5 documents: those of JSON, and `.json5`.
pub open spec fn json5_suffixes() -> Seq<Seq<char>> {
    json_suffixes().push(".json5"@)
}

/// The endings that count in the given mode.
pub open spec fn suffixes(parse_json5: bool) -> Seq<Seq<char>> {
    if parse_json5 {
        json5_suffixes()
    } else {
        json_suffixes()
    }
}

/// The markers of paths that are never documents: build outputs, package
/// caches and the like.
pub open spec fn exclusion_markers() -> Seq<Seq<char>> {
    seq![
        ".crit"@,
        ".venv"@,
        "build"@,
        "node_modules"@,
        "package-lock.json"@,
        "target"@,
        "vendor"@,
    ]
}

/// `path` ends in one of `endings`.
pub open spec fn ends_in_any(path: Seq<char>, endings: Seq<Seq<char>>) -> bool {
    exists|i: int| 0 <= i < endings.len() && has_suffix(path, #[trigger] endings[i])
}

/// `path` holds one of `markers`.
pub open spec fn holds_any(path: Seq<char>, markers: Seq<Seq<char>>) -> bool {
    exists|i: int| 0 <= i < markers.len() && has_substring(path, #[trigger] markers[i])
}

/// `path` holds an exclusion marker.
pub open spec fn is_excluded(path: Seq<char>) -> bool {
    holds_any(path, exclusion_markers())
}

/// `path` ends in an extension of the given mode.
pub open spec fn is_included(path: Seq<char>, parse_json5: bool) -> bool {
    ends_in_any(path, suffixes(parse_json5))
}

/// `path` is treated as a JSON document in the given mode.
pub open spec fn is_document_path(path: Seq<char>, parse_json5: bool) -> bool {
    !is_excluded(path) && is_included(path, parse_json5)
}

/// The texts that `table` holds, in order.
pub open spec fn texts(table: Seq<Vec<char>>) -> Seq<Seq<char>> {
    table.map_values(|t: Vec<char>| t@)
}

/// The pattern tables of one mode, built once and then only read.
pub struct PathFilter {
    parse_json5: bool,
    endings: Vec<Vec<char>>,
    markers: Vec<Vec<char>>,
}

impl PathFilter {
    #[verifier::type_invariant]
    spec fn well_formed(self) -> bool {
        &&& texts(self.endings@) == suffixes(self.parse_json5)
        &&& texts(self.markers@) == exclusion_markers()
    }

    /// Whether this filter also takes `.json5` files.
    pub closed spec fn json5(self) -> bool {
        self.parse_json5
    }

    /// The filter for JSON documents, or for JSON5 documents if `parse_json5`
    /// is set.
    pub fn new(parse_json5: bool) -> (filter: PathFilter)
        ensures
            filter.json5() == parse_json5,
    {
        let mut endings: Vec<Vec<char>> = Vec::new();
        endings.push(chars_of(".eslintrc"));
        endings.push(chars_of(".jsfmtrc"));
        endings.push(chars_of(".jslintrc"));
        endings.push(chars_of(".jshintrc"));
        endings.push(chars_of(".json"));
        if parse_json5 {
            endings.push(chars_of(".json5"));
        }
        let mut markers: Vec<Vec<char>> = Vec::new();
        markers.push(chars_of(".crit"));
        markers.push(chars_of(".venv"));
        markers.push(chars_of("build"));
        markers.push(chars_of("node_modules"));
        markers.push(chars_of("package-lock.json"));
        markers.push(chars_of("target"));
        markers.push(chars_of("vendor"));
        proof {
            assert(texts(endings@) =~= suffixes(parse_json5));
            assert(texts(markers@) =~= exclusion_markers());
        }
        PathFilter { parse_json5, endings, markers }
    }

    /// Whether `path` holds an exclusion marker.
    pub fn excludes(&self, path: &str) -> (r: bool)
        ensures
            r == is_excluded(path@),
    {
        proof {
            use_type_invariant(self);
        }
        let text = chars_of(path);
        holds_one(&text, &self.markers)
    }

    /// Whether `path` ends in one of this filter's extensions.
    pub fn includes(&self, path: &str) -> (r: bool)
        ensures
            r == is_included(path@, self.json5()),
    {
        proof {
            use_type_invariant(self);
        }
        let text = chars_of(path);
        ends_in_one(&text, &self.endings)
    }

    /// Whether `path` is treated as a JSON document: it holds no exclusion
    /// marker and ends in one of this filter's extensions.
    pub fn accepts(&self, path: &str) -> (r: bool)
        ensures
            r == is_document_path(path@, self.json5()),
    {
        proof {
            use_type_invariant(self);
        }
        let text = chars_of(path);
        if holds_one(&text, &self.markers) {
            false
        } else {
            ends_in_one(&text, &self.endings)
        }
    }
}

/// Whether `path` ends in one of `endings`.
fn ends_in_one(path: &Vec<char>, endings: &Vec<Vec<char>>) -> (r: bool)
    ensures
        r == ends_in_any(path@, texts(endings@)),
{
    let mut i: usize = 0;
    while i < endings.len()
        invariant
            i <= endings.len(),
            forall|j: int| 0 <= j < i ==> !has_suffix(path@, #[trigger] texts(endings@)[j]),
        decreases endings.len() - i,
    {
        if ends_with(path, &endings[i]) {
            assert(has_suffix(path@, texts(endings@)[i as int]));
            return true;
        }
        i += 1;
    }
    false
}

/// Whether `path` holds one of `markers`.
fn holds_one(path: &Vec<char>, markers: &Vec<Vec<char>>) -> (r: bool)
    ensures
        r == holds_any(path@, texts(markers@)),
{
    let mut i: usize = 0;
    while i < markers.len()
        invariant
            i <= markers.len(),
            forall|j: int| 0 <= j < i ==> !has_substring(path@, #[trigger] texts(markers@)[j]),
        decreases markers.len() - i,
    {
        if contains(path, &markers[i]) {
            assert(has_substring(path@, texts(markers@)[i as int]));
            return true;
        }
        i += 1;
    }
    false
}

/// Whether `path` is treated as a JSON document, or as a JSON5 document if
/// `parse_json5` is set.
pub fn is_json_document(path: &str, parse_json5: bool) -> (r: bool)
    ensures
        r == is_document_path(path@, parse_json5),
{
    PathFilter::new(parse_json5).accepts(path)
}

/// A path that holds `node_modules`, `vendor`, `target`, `build`, `.venv`,
/// `.crit` or `package-lock.json` anywhere is no document in either mode,
/// whatever it ends in.
pub proof fn marked_paths_are_rejected(path: Seq<char>, parse_json5: bool)
    requires
        has_substring(path, "node_modules"@) || has_substring(path, "vendor"@) || has_substring(
            path,
            "target"@,
        ) || has_substring(path, "build"@) || has_substring(path, ".venv"@) || has_substring(
            path,
            ".crit"@,
        ) || has_substring(path, "package-lock.json"@),
    ensures
        is_excluded(path),
        !is_document_path(path, parse_json5),
{
    let m = exclusion_markers();
    assert(m[0] == ".crit"@ && m[1] == ".venv"@ && m[2] == "build"@ && m[3] == "node_modules"@
        && m[4] == "package-lock.json"@ && m[5] == "target"@ && m[6] == "vendor"@);
}

/// JSON5 mode takes every document of JSON mode, and beyond those exactly the
/// paths that end in `.json5` and hold no exclusion marker.
pub proof fn json5_mode_adds_json5_files(path: Seq<char>)
    ensures
        is_document_path(path, true) <==> is_document_path(path, false) || (!is_excluded(path)
            && has_suffix(path, ".json5"@)),
{
    let j = json_suffixes();
    let j5 = json5_suffixes();
    assert(j5.len() == j.len() + 1);
    assert(j5[j.len() as int] == ".json5"@);
    if is_included(path, false) {
        let i = choose|i: int| 0 <= i < j.len() && has_suffix(path, #[trigger] j[i]);
        assert(j5[i] == j[i]);
        assert(has_suffix(path, j5[i]));
    }
    if has_suffix(path, ".json5"@) {
        assert(has_suffix(path, j5[j.len() as int]));
    }
    if is_included(path, true) {
        let i = choose|i: int| 0 <= i < j5.len() && has_suffix(path, #[trigger] j5[i]);
        if i < j.len() {
            assert(j5[i] == j[i]);
            assert(has_suffix(path, j[i]));
        }
    }
}

/// No path ends both in `.json5` and in an extension of JSON mode: the one
/// ends in `5`, the others in `c` or `n`.
pub proof fn json5_files_are_no_json_files(path: Seq<char>)
    requires
        has_suffix(path, ".json5"@),
    ensures
        !is_included(path, false),
{
    reveal_strlit(".json5");
    reveal_strlit(".eslintrc");
    reveal_strlit(".jsfmtrc");
    reveal_strlit(".jslintrc");
    reveal_strlit(".jshintrc");
    reveal_strlit(".json");
    let n = path.len() as int;
    assert(path.subrange(n - 6, n)[5] == path[n - 1]);
    assert(path[n - 1] == '5');
    let j = json_suffixes();
    assert forall|i: int| 0 <= i < j.len() implies !has_suffix(path, #[trigger] j[i]) by {
        let ending = j[i];
        if has_suffix(path, ending) {
            let m = ending.len() as int;
            assert(path.subrange(n - m, n)[m - 1] == path[n - 1]);
            assert(ending[m - 1] == '5');
        }
    }
}

} // verus!
