//! The document finder: from what a traversal saw to the list of documents.
//!
//! The caller looks at the filesystem and reports what it saw as
//! [`RootScan`] values: the kind of each root, the entries below each
//! directory, and for each path what making it absolute gave. The finder
//! gathers the candidates, keeps those whose absolute path passes the path
//! filter and hands back their cleaned form. Any failure ends the search
//! with that one error.

use crate::error::{ErrorKind, Failure, KirillError};
use crate::filter::{
    is_document_path,
    is_excluded,
    json5_files_are_no_json_files,
    json5_mode_adds_json5_files,
    PathFilter,
};
use crate::order::{is_sorting_of, sort_strings, sorting_is_unique};
use crate::outside::{clean_path_text, cleaned_path, resolve_path};
use crate::text::{has_suffix, join, views};
use vstd::prelude::*;
use vstd::seq_lib::to_multiset_build;

verus! {

/// What became of making a path absolute.
#[derive(Debug)]
pub enum Resolution {
    /// The path could not be resolved.
    Failed,
    /// The absolute path has no textual form; this is an approximation of it.
    Unrenderable(String),
    /// The absolute path.
    Text(String),
}

/// A path that may be a document, together with its resolution.
#[derive(Debug)]
pub struct Candidate {
    pub path: String,
    pub resolution: Resolution,
}

/// One step of a directory walk.
#[derive(Debug)]
pub enum WalkItem {
    /// The walk reached `entry`.
    Entry { entry: Candidate, is_dir: bool, is_symlink: bool },
    /// The walk broke off, with this message.
    Failure { message: String },
}

/// What a root turned out to be.
#[derive(Debug)]
pub enum RootKind {
    /// The root does not exist or could not be queried.
    Missing,
    /// The root is a directory; these are the steps of the walk below it, in
    /// the order they were made.
    Directory(Vec<WalkItem>),
    /// The root is a plain file, with this resolution.
    File(Resolution),
    /// The root is something else: a device, a socket.
    Other,
}

/// A root and what the traversal saw of it.
#[derive(Debug)]
pub struct RootScan {
    pub path: String,
    pub kind: RootKind,
}

/// The result of a search as mathematics: the texts found, or the failure.
pub open spec fn outcome(r: Result<Vec<String>, KirillError>) -> Result<Seq<Seq<char>>, Failure> {
    match r {
        Ok(found) => Ok(views(found@)),
        Err(e) => Err(e@),
    }
}

/// The failure for a root that could not be queried.
pub open spec fn missing_root(root: Seq<char>) -> Failure {
    Failure { kind: ErrorKind::IO, message: "unable to query metadata for path: "@ + root }
}

/// The failure for a root that is neither a file nor a directory.
pub open spec fn unsupported_root(root: Seq<char>) -> Failure {
    Failure { kind: ErrorKind::UnsupportedPath, message: "unknown type of path: "@ + root }
}

/// The candidates that a walk yields: every entry that is neither a
/// directory nor a symbolic link, in order. The first failure among the
/// steps is the failure of the whole walk.
pub open spec fn walk_candidates(walk: Seq<WalkItem>) -> Result<Seq<Candidate>, Failure>
    decreases walk.len(),
{
    if walk.len() == 0 {
        Ok(Seq::empty())
    } else {
        match walk_candidates(walk.drop_last()) {
            Err(f) => Err(f),
            Ok(found) => match walk.last() {
                WalkItem::Failure { message } => Err(
                    Failure { kind: ErrorKind::DirectoryTraversal, message: message@ },
                ),
                WalkItem::Entry { entry, is_dir, is_symlink } => if is_dir || is_symlink {
                    Ok(found)
                } else {
                    Ok(found.push(entry))
                },
            },
        }
    }
}

/// The candidates that one root yields.
pub open spec fn root_candidates(scan: RootScan) -> Result<Seq<Candidate>, Failure> {
    match scan.kind {
        RootKind::Missing => Err(missing_root(scan.path@)),
        RootKind::Directory(walk) => walk_candidates(walk@),
        RootKind::File(resolution) => Ok(seq![Candidate { path: scan.path, resolution }]),
        RootKind::Other => Err(unsupported_root(scan.path@)),
    }
}

/// The candidates of all roots, in the order of the roots. The first root
/// that fails decides the failure.
pub open spec fn all_candidates(roots: Seq<RootScan>) -> Result<Seq<Candidate>, Failure>
    decreases roots.len(),
{
    if roots.len() == 0 {
        Ok(Seq::empty())
    } else {
        match all_candidates(roots.drop_last()) {
            Err(f) => Err(f),
            Ok(found) => match root_candidates(roots.last()) {
                Err(f) => Err(f),
                Ok(more) => Ok(found + more),
            },
        }
    }
}

/// What a single candidate contributes: a failure, nothing, or a document.
/// The filter is applied to the absolute path; the document is the cleaned
/// form of the candidate path itself.
pub open spec fn screened(candidate: Candidate, parse_json5: bool) -> Result<
    Option<Seq<char>>,
    Failure,
> {
    match candidate.resolution {
        Resolution::Failed => Err(
            Failure {
                kind: ErrorKind::IO,
                message: "unable to resolve path: "@ + candidate.path@,
            },
        ),
        Resolution::Unrenderable(shown) => Err(
            Failure { kind: ErrorKind::PathRender, message: "unable to process path: "@ + shown@ },
        ),
        Resolution::Text(absolute) => if !is_document_path(absolute@, parse_json5) {
            Ok(None)
        } else {
            match cleaned_path(candidate.path@) {
                Ok(text) => Ok(Some(text)),
                Err(shown) => Err(unrenderable_cleaned(shown)),
            }
        },
    }
}

/// The documents among `candidates`, in order. The first candidate that
/// fails decides the failure.
pub open spec fn selected(candidates: Seq<Candidate>, parse_json5: bool) -> Result<
    Seq<Seq<char>>,
    Failure,
>
    decreases candidates.len(),
{
    if candidates.len() == 0 {
        Ok(Seq::empty())
    } else {
        match selected(candidates.drop_last(), parse_json5) {
            Err(f) => Err(f),
            Ok(found) => match screened(candidates.last(), parse_json5) {
                Err(f) => Err(f),
                Ok(None) => Ok(found),
                Ok(Some(text)) => Ok(found.push(text)),
            },
        }
    }
}

/// What a search of `roots` finds: the failure of the traversal if it has
/// one, else the documents among all candidates.
pub open spec fn discovered(roots: Seq<RootScan>, parse_json5: bool) -> Result<
    Seq<Seq<char>>,
    Failure,
> {
    match all_candidates(roots) {
        Err(f) => Err(f),
        Ok(candidates) => selected(candidates, parse_json5),
    }
}

/// `result` is `unsorted` put in order: the same failure, or the same
/// documents sorted lexicographically.
pub open spec fn is_sorted_form(
    result: Result<Seq<Seq<char>>, Failure>,
    unsorted: Result<Seq<Seq<char>>, Failure>,
) -> bool {
    match unsorted {
        Err(f) => result == Err::<Seq<Seq<char>>, Failure>(f),
        Ok(found) => result matches Ok(sorted) && is_sorting_of(sorted, found),
    }
}

/// `candidate` passes the filter of the given mode, and `document` is its
/// cleaned path.
pub open spec fn is_document_of(document: Seq<char>, candidate: Candidate, parse_json5: bool) -> bool {
    &&& candidate.resolution matches Resolution::Text(absolute)
    &&& is_document_path(absolute@, parse_json5)
    &&& cleaned_path(candidate.path@) == Ok::<Seq<char>, Seq<char>>(document)
}

/// The number of `candidates` whose absolute path passes the filter of the
/// given mode.
pub open spec fn matching(candidates: Seq<Candidate>, parse_json5: bool) -> nat
    decreases candidates.len(),
{
    if candidates.len() == 0 {
        0
    } else {
        let rest = matching(candidates.drop_last(), parse_json5);
        match candidates.last().resolution {
            Resolution::Text(absolute) => if is_document_path(absolute@, parse_json5) {
                rest + 1
            } else {
                rest
            },
            _ => rest,
        }
    }
}

/// `candidate` is a JSON5 file that the filter lets pass: its absolute path
/// holds no exclusion marker and ends in `.json5`.
pub open spec fn is_json5_file(candidate: Candidate) -> bool {
    &&& candidate.resolution matches Resolution::Text(absolute)
    &&& !is_excluded(absolute@)
    &&& has_suffix(absolute@, ".json5"@)
}

/// The cleaned paths of the JSON5 files among `candidates`, in order, one
/// for each such file.
pub open spec fn json5_documents(candidates: Seq<Candidate>) -> Seq<Seq<char>>
    decreases candidates.len(),
{
    if candidates.len() == 0 {
        Seq::empty()
    } else {
        let rest = json5_documents(candidates.drop_last());
        if is_json5_file(candidates.last()) {
            rest.push(cleaned_path(candidates.last().path@)->Ok_0)
        } else {
            rest
        }
    }
}

impl Resolution {
    /// A second copy of this resolution.
    pub fn duplicate(&self) -> (copy: Resolution)
        ensures
            copy == *self,
    {
        match self {
            Resolution::Failed => Resolution::Failed,
            Resolution::Unrenderable(shown) => Resolution::Unrenderable(shown.clone()),
            Resolution::Text(absolute) => Resolution::Text(absolute.clone()),
        }
    }
}

impl Candidate {
    /// Makes a candidate of `path` by resolving it against the directory the
    /// process runs in. What the resolution is depends on that directory;
    /// [`screen_candidate`] says what follows from each.
    pub fn resolve(path: String) -> (candidate: Candidate)
        ensures
            candidate.path == path,
    {
        let resolution = resolve_path(path.as_str());
        Candidate { path, resolution }
    }

    /// A second copy of this candidate.
    pub fn duplicate(&self) -> (copy: Candidate)
        ensures
            copy == *self,
    {
        Candidate { path: self.path.clone(), resolution: self.resolution.duplicate() }
    }
}

impl RootScan {
    /// Whether this root fails the search, so that no root after it needs
    /// to be looked at.
    pub fn fails(&self) -> (r: bool)
        ensures
            r == root_candidates(*self) is Err,
    {
        match &self.kind {
            RootKind::Missing => true,
            RootKind::Other => true,
            RootKind::File(_) => false,
            RootKind::Directory(walk) => walk_breaks(walk),
        }
    }
}

/// Whether a walk broke off.
fn walk_breaks(walk: &Vec<WalkItem>) -> (r: bool)
    ensures
        r == walk_candidates(walk@) is Err,
{
    let mut i: usize = 0;
    while i < walk.len()
        invariant
            i <= walk.len(),
            walk_candidates(walk@.take(i as int)) is Ok,
        decreases walk.len() - i,
    {
        proof {
            assert(walk@.take(i + 1).drop_last() =~= walk@.take(i as int));
            assert(walk@.take(i + 1).last() == walk@[i as int]);
        }
        match &walk[i] {
            WalkItem::Failure { message: _ } => {
                proof {
                    lemma_walk_failure_stays(walk@, i + 1);
                }
                return true;
            },
            WalkItem::Entry { entry: _, is_dir: _, is_symlink: _ } => {},
        }
        i += 1;
    }
    proof {
        assert(walk@.take(i as int) =~= walk@);
    }
    false
}

/// Gathers the candidates of a walk behind those already found.
fn gather_walk(walk: &Vec<WalkItem>, found: &mut Vec<Candidate>) -> (r: Result<(), KirillError>)
    ensures
        match walk_candidates(walk@) {
            Err(f) => r matches Err(e) && e@ == f,
            Ok(more) => r is Ok && final(found)@ == old(found)@ + more,
        },
{
    let ghost before = found@;
    let mut i: usize = 0;
    assert(found@ =~= before + Seq::<Candidate>::empty());
    while i < walk.len()
        invariant
            i <= walk.len(),
            walk_candidates(walk@.take(i as int)) matches Ok(more) && found@ == before + more,
        decreases walk.len() - i,
    {
        proof {
            assert(walk@.take(i + 1).drop_last() =~= walk@.take(i as int));
            assert(walk@.take(i + 1).last() == walk@[i as int]);
        }
        match &walk[i] {
            WalkItem::Failure { message } => {
                let e = KirillError::DirectoryTraversalError(message.clone());
                proof {
                    lemma_walk_failure_stays(walk@, i + 1);
                }
                return Err(e);
            },
            WalkItem::Entry { entry, is_dir, is_symlink } => {
                if !(*is_dir || *is_symlink) {
                    let ghost so_far = walk_candidates(walk@.take(i as int))->Ok_0;
                    found.push(entry.duplicate());
                    assert(found@ =~= before + so_far.push(*entry));
                }
            },
        }
        i += 1;
    }
    proof {
        assert(walk@.take(i as int) =~= walk@);
    }
    Ok(())
}

/// A walk that has failed after `n` steps fails in the same way whatever
/// follows.
proof fn lemma_walk_failure_stays(walk: Seq<WalkItem>, n: int)
    requires
        0 <= n <= walk.len(),
        walk_candidates(walk.take(n)) is Err,
    ensures
        walk_candidates(walk) == walk_candidates(walk.take(n)),
    decreases walk.len() - n,
{
    if n < walk.len() {
        assert(walk.take(n + 1).drop_last() =~= walk.take(n));
        lemma_walk_failure_stays(walk, n + 1);
    } else {
        assert(walk.take(n) =~= walk);
    }
}

/// Roots that have failed after the first `n` fail in the same way whatever
/// follows.
proof fn lemma_root_failure_stays(roots: Seq<RootScan>, n: int)
    requires
        0 <= n <= roots.len(),
        all_candidates(roots.take(n)) is Err,
    ensures
        all_candidates(roots) == all_candidates(roots.take(n)),
    decreases roots.len() - n,
{
    if n < roots.len() {
        assert(roots.take(n + 1).drop_last() =~= roots.take(n));
        lemma_root_failure_stays(roots, n + 1);
    } else {
        assert(roots.take(n) =~= roots);
    }
}

/// Candidates that have failed after the first `n` fail in the same way
/// whatever follows.
proof fn lemma_candidate_failure_stays(candidates: Seq<Candidate>, parse_json5: bool, n: int)
    requires
        0 <= n <= candidates.len(),
        selected(candidates.take(n), parse_json5) is Err,
    ensures
        selected(candidates, parse_json5) == selected(candidates.take(n), parse_json5),
    decreases candidates.len() - n,
{
    if n < candidates.len() {
        assert(candidates.take(n + 1).drop_last() =~= candidates.take(n));
        lemma_candidate_failure_stays(candidates, parse_json5, n + 1);
    } else {
        assert(candidates.take(n) =~= candidates);
    }
}

/// Roots that each yield candidates yield candidates together.
proof fn lemma_roots_before_succeed(roots: Seq<RootScan>, n: int)
    requires
        0 <= n <= roots.len(),
        forall|i: int| 0 <= i < n ==> root_candidates(#[trigger] roots[i]) is Ok,
    ensures
        all_candidates(roots.take(n)) is Ok,
    decreases n,
{
    if n > 0 {
        lemma_roots_before_succeed(roots, n - 1);
        assert(roots.take(n).drop_last() =~= roots.take(n - 1));
        assert(roots.take(n).last() == roots[n - 1]);
    }
}

/// Gathers the candidates of `roots`: each plain file among the roots, and
/// below each directory every entry that is neither a directory nor a
/// symbolic link. A root that is missing or of another kind, or a walk that
/// broke off, fails the whole call.
pub fn collect_candidates(roots: &Vec<RootScan>) -> (r: Result<Vec<Candidate>, KirillError>)
    ensures
        match all_candidates(roots@) {
            Err(f) => r matches Err(e) && e@ == f,
            Ok(candidates) => r matches Ok(found) && found@ == candidates,
        },
{
    let mut found: Vec<Candidate> = Vec::new();
    let mut i: usize = 0;
    while i < roots.len()
        invariant
            i <= roots.len(),
            all_candidates(roots@.take(i as int)) == Ok::<Seq<Candidate>, Failure>(found@),
        decreases roots.len() - i,
    {
        proof {
            assert(roots@.take(i + 1).drop_last() =~= roots@.take(i as int));
            assert(roots@.take(i + 1).last() == roots@[i as int]);
        }
        let scan = &roots[i];
        match &scan.kind {
            RootKind::Missing => {
                let e = KirillError::IOError(
                    join("unable to query metadata for path: ", scan.path.as_str()),
                );
                proof {
                    lemma_root_failure_stays(roots@, i + 1);
                }
                return Err(e);
            },
            RootKind::Other => {
                let e = KirillError::UnsupportedPathError(
                    join("unknown type of path: ", scan.path.as_str()),
                );
                proof {
                    lemma_root_failure_stays(roots@, i + 1);
                }
                return Err(e);
            },
            RootKind::File(resolution) => {
                let ghost before = found@;
                found.push(
                    Candidate { path: scan.path.clone(), resolution: resolution.duplicate() },
                );
                assert(found@ =~= before + seq![
                    Candidate { path: scan.path, resolution: *resolution },
                ]);
            },
            RootKind::Directory(walk) => {
                match gather_walk(walk, &mut found) {
                    Err(e) => {
                        proof {
                            lemma_root_failure_stays(roots@, i + 1);
                        }
                        return Err(e);
                    },
                    Ok(()) => {},
                }
            },
        }
        i += 1;
    }
    proof {
        assert(roots@.take(i as int) =~= roots@);
    }
    Ok(found)
}

/// The failure for a cleaned path that has no textual form.
pub open spec fn unrenderable_cleaned(shown: Seq<char>) -> Failure {
    Failure { kind: ErrorKind::PathRender, message: "unable to process cleaned path: "@ + shown }
}

/// Turns what cleaning a path gave into a document: the cleaned text, or a
/// path-rendering error where the cleaned path has no textual form.
pub fn cleaned_document(cleaned: Result<String, String>) -> (r: Result<Option<String>, KirillError>)
    ensures
        match cleaned {
            Ok(text) => r matches Ok(Some(t)) && t@ == text@,
            Err(shown) => r matches Err(e) && e@ == unrenderable_cleaned(shown@),
        },
{
    match cleaned {
        Ok(text) => Ok(Some(text)),
        Err(shown) => Err(
            KirillError::PathRenderError(join("unable to process cleaned path: ", shown.as_str())),
        ),
    }
}

/// Decides what `candidate` contributes: nothing if its absolute path is
/// excluded or has no known extension, else its cleaned path. A candidate
/// that could not be resolved or rendered is a failure.
pub fn screen_candidate(candidate: &Candidate, filter: &PathFilter) -> (r: Result<
    Option<String>,
    KirillError,
>)
    ensures
        match screened(*candidate, filter.json5()) {
            Err(f) => r matches Err(e) && e@ == f,
            Ok(None) => r matches Ok(None),
            Ok(Some(text)) => r matches Ok(Some(t)) && t@ == text,
        },
{
    match &candidate.resolution {
        Resolution::Failed => Err(
            KirillError::IOError(join("unable to resolve path: ", candidate.path.as_str())),
        ),
        Resolution::Unrenderable(shown) => Err(
            KirillError::PathRenderError(join("unable to process path: ", shown.as_str())),
        ),
        Resolution::Text(absolute) => {
            if !filter.accepts(absolute.as_str()) {
                Ok(None)
            } else {
                cleaned_document(clean_path_text(candidate.path.as_str()))
            }
        },
    }
}

/// Picks the documents among `candidates`, in order: for each candidate whose
/// absolute path passes the filter of the given mode, the cleaned candidate
/// path. The first candidate that fails ends the call with its error.
pub fn select_documents(candidates: &Vec<Candidate>, parse_json5: bool) -> (r: Result<
    Vec<String>,
    KirillError,
>)
    ensures
        outcome(r) == selected(candidates@, parse_json5),
{
    let filter = PathFilter::new(parse_json5);
    let mut found: Vec<String> = Vec::new();
    let mut i: usize = 0;
    assert(views(found@) =~= Seq::<Seq<char>>::empty());
    while i < candidates.len()
        invariant
            i <= candidates.len(),
            filter.json5() == parse_json5,
            selected(candidates@.take(i as int), parse_json5) == Ok::<Seq<Seq<char>>, Failure>(
                views(found@),
            ),
        decreases candidates.len() - i,
    {
        proof {
            assert(candidates@.take(i + 1).drop_last() =~= candidates@.take(i as int));
            assert(candidates@.take(i + 1).last() == candidates@[i as int]);
        }
        match screen_candidate(&candidates[i], &filter) {
            Err(e) => {
                proof {
                    lemma_candidate_failure_stays(candidates@, parse_json5, i + 1);
                }
                return Err(e);
            },
            Ok(None) => {},
            Ok(Some(text)) => {
                let ghost before = views(found@);
                found.push(text);
                assert(views(found@) =~= before.push(text@));
            },
        }
        i += 1;
    }
    proof {
        assert(candidates@.take(i as int) =~= candidates@);
    }
    Ok(found)
}

/// find_json_documents searches what was seen of the given directory and
/// file roots for JSON documents, or for JSON5 documents if `parse_json5`
/// is set. The documents come in the order in which the traversal met them.
pub fn find_json_documents(roots: &Vec<RootScan>, parse_json5: bool) -> (r: Result<
    Vec<String>,
    KirillError,
>)
    ensures
        outcome(r) == discovered(roots@, parse_json5),
{
    match collect_candidates(roots) {
        Err(e) => Err(e),
        Ok(candidates) => select_documents(&candidates, parse_json5),
    }
}

/// find_json_documents_sorted lexicographically sorts any JSON document
/// results: it finds what [`find_json_documents`] finds and hands it back in
/// order, duplicates included.
pub fn find_json_documents_sorted(roots: &Vec<RootScan>, parse_json5: bool) -> (r: Result<
    Vec<String>,
    KirillError,
>)
    ensures
        is_sorted_form(outcome(r), discovered(roots@, parse_json5)),
{
    match find_json_documents(roots, parse_json5) {
        Err(e) => Err(e),
        Ok(found) => Ok(sort_strings(found)),
    }
}

/// A root that does not exist fails the search with an I/O error that names
/// it, unless a root before it has failed already. No documents come back.
pub proof fn missing_root_fails(roots: Seq<RootScan>, at: int, parse_json5: bool)
    requires
        0 <= at < roots.len(),
        roots[at].kind is Missing,
        forall|i: int| 0 <= i < at ==> root_candidates(#[trigger] roots[i]) is Ok,
    ensures
        discovered(roots, parse_json5) == Err::<Seq<Seq<char>>, Failure>(
            missing_root(roots[at].path@),
        ),
        missing_root(roots[at].path@).kind == ErrorKind::IO,
{
    lemma_roots_before_succeed(roots, at);
    assert(roots.take(at + 1).drop_last() =~= roots.take(at));
    assert(roots.take(at + 1).last() == roots[at]);
    lemma_root_failure_stays(roots, at + 1);
}

/// A search that succeeds returns exactly as many documents as there are
/// candidates whose absolute path passes the filter.
pub proof fn documents_are_counted(candidates: Seq<Candidate>, parse_json5: bool)
    requires
        selected(candidates, parse_json5) is Ok,
    ensures
        selected(candidates, parse_json5)->Ok_0.len() == matching(candidates, parse_json5),
    decreases candidates.len(),
{
    if candidates.len() > 0 {
        documents_are_counted(candidates.drop_last(), parse_json5);
    }
}

/// A search of roots that succeeds returns one document for each file of the
/// traversal whose absolute path passes the filter, and no other.
pub proof fn search_finds_each_match_once(roots: Seq<RootScan>, parse_json5: bool)
    requires
        discovered(roots, parse_json5) is Ok,
    ensures
        all_candidates(roots) is Ok,
        discovered(roots, parse_json5)->Ok_0.len() == matching(
            all_candidates(roots)->Ok_0,
            parse_json5,
        ),
{
    documents_are_counted(all_candidates(roots)->Ok_0, parse_json5);
}

/// JSON5 mode finds no fewer documents than JSON mode: what passes the JSON
/// filter passes the JSON5 filter too.
pub proof fn json5_mode_matches_more(candidates: Seq<Candidate>)
    ensures
        matching(candidates, false) <= matching(candidates, true),
    decreases candidates.len(),
{
    if candidates.len() > 0 {
        json5_mode_matches_more(candidates.drop_last());
        match candidates.last().resolution {
            Resolution::Text(absolute) => {
                json5_mode_adds_json5_files(absolute@);
            },
            _ => {},
        }
    }
}

/// Where both searches succeed, the JSON5 search finds what the JSON search
/// finds and, beyond that, exactly the JSON5 files: as many documents more
/// as there are such files, every document of the JSON search, and each
/// document as often as the two lists together hold it.
pub proof fn json5_search_adds_the_json5_files(candidates: Seq<Candidate>)
    requires
        selected(candidates, false) is Ok,
        selected(candidates, true) is Ok,
    ensures
        selected(candidates, true)->Ok_0.len() == selected(candidates, false)->Ok_0.len()
            + json5_documents(candidates).len(),
        selected(candidates, true)->Ok_0.to_multiset() == selected(
            candidates,
            false,
        )->Ok_0.to_multiset().add(json5_documents(candidates).to_multiset()),
        forall|document: Seq<char>|
            selected(candidates, false)->Ok_0.contains(document) ==> selected(
                candidates,
                true,
            )->Ok_0.contains(document),
    decreases candidates.len(),
{
    broadcast use vstd::multiset::group_multiset_axioms;

    let json = selected(candidates, false)->Ok_0;
    let json5 = selected(candidates, true)->Ok_0;
    let extra = json5_documents(candidates);
    if candidates.len() == 0 {
        assert(json + extra =~= json5);
        vstd::seq_lib::lemma_multiset_commutative(json, extra);
    } else {
        let rest = candidates.drop_last();
        let last = candidates.last();
        json5_search_adds_the_json5_files(rest);
        let json_rest = selected(rest, false)->Ok_0;
        let json5_rest = selected(rest, true)->Ok_0;
        let extra_rest = json5_documents(rest);
        let absolute = last.resolution->Text_0@;
        let text = cleaned_path(last.path@)->Ok_0;
        json5_mode_adds_json5_files(absolute);
        if has_suffix(absolute, ".json5"@) {
            json5_files_are_no_json_files(absolute);
        }
        to_multiset_build(json_rest, text);
        to_multiset_build(json5_rest, text);
        to_multiset_build(extra_rest, text);
        assert(json5.to_multiset() =~= json.to_multiset().add(extra.to_multiset()));
    }
    assert(json5.to_multiset() =~= json.to_multiset().add(extra.to_multiset()));
    assert forall|document: Seq<char>| json.contains(document) implies json5.contains(
        document,
    ) by {
        json.to_multiset_ensures();
        json5.to_multiset_ensures();
        assert(json.to_multiset().count(document) > 0);
        assert(json5.to_multiset().count(document) == json.to_multiset().count(document)
            + extra.to_multiset().count(document));
    }
}

/// Where both searches of `roots` succeed, the JSON5 search returns the
/// documents of the JSON search and, beyond those, exactly one document for
/// each JSON5 file of the traversal.
pub proof fn json5_mode_adds_the_json5_files(roots: Seq<RootScan>)
    requires
        discovered(roots, false) is Ok,
        discovered(roots, true) is Ok,
    ensures
        discovered(roots, true)->Ok_0.len() == discovered(roots, false)->Ok_0.len()
            + json5_documents(all_candidates(roots)->Ok_0).len(),
        discovered(roots, true)->Ok_0.to_multiset() == discovered(
            roots,
            false,
        )->Ok_0.to_multiset().add(json5_documents(all_candidates(roots)->Ok_0).to_multiset()),
        forall|document: Seq<char>|
            discovered(roots, false)->Ok_0.contains(document) ==> discovered(
                roots,
                true,
            )->Ok_0.contains(document),
{
    json5_search_adds_the_json5_files(all_candidates(roots)->Ok_0);
}

/// Every document that a search returns is the cleaned path of a candidate
/// whose absolute path holds no exclusion marker and ends in an extension of
/// the mode.
pub proof fn documents_pass_the_filter(candidates: Seq<Candidate>, parse_json5: bool, k: int)
    requires
        selected(candidates, parse_json5) is Ok,
        0 <= k < selected(candidates, parse_json5)->Ok_0.len(),
    ensures
        exists|i: int|
            0 <= i < candidates.len() && is_document_of(
                selected(candidates, parse_json5)->Ok_0[k],
                #[trigger] candidates[i],
                parse_json5,
            ),
    decreases candidates.len(),
{
    let rest = candidates.drop_last();
    let before = selected(rest, parse_json5)->Ok_0;
    if k < before.len() {
        documents_pass_the_filter(rest, parse_json5, k);
        let i = choose|i: int|
            0 <= i < rest.len() && is_document_of(before[k], #[trigger] rest[i], parse_json5);
        assert(candidates[i] == rest[i]);
    } else {
        let last = candidates.len() - 1;
        assert(is_document_of(
            selected(candidates, parse_json5)->Ok_0[k],
            candidates[last],
            parse_json5,
        ));
    }
}

/// The sorted result of a search is settled by what the search finds: two
/// sorted forms of the same findings are the same, so a search repeated on
/// what was seen of an unchanged tree returns the same documents in the same
/// order.
pub proof fn sorted_search_is_settled(
    first: Result<Seq<Seq<char>>, Failure>,
    second: Result<Seq<Seq<char>>, Failure>,
    unsorted: Result<Seq<Seq<char>>, Failure>,
)
    requires
        is_sorted_form(first, unsorted),
        is_sorted_form(second, unsorted),
    ensures
        first == second,
{
    if unsorted is Ok {
        sorting_is_unique(first->Ok_0, second->Ok_0);
    }
}

} // verus!
