//! The virtual file system: routing between `/scratch` and `/workspace`, the
//! in-memory scratch store, and the path rules of the workspace backend.

use vstd::prelude::*;
use vstd::string::StringSliceAdditionalSpecFns;
use vstd::utf8::encode_utf8;
use crate::text::{
    concat_strs, concat_views,
    contains, lines, spec_contains, spec_lines,
    chars_equal, chars_of, decimal, replace_first, count_matches, spec_count_matches,
    spec_decimal, spec_replace_all, spec_replace_first, spec_starts_with, starts_with, string_of,
    trim_end_char, trim_end_matches_char, trim_start_char, trim_start_matches_text, trim_start_text,
};

verus! {

/// A file or directory as a listing shows it.
pub struct FileInfo {
    pub path: String,
    pub is_dir: bool,
    pub size: Option<u64>,
}

pub struct FileInfoView {
    pub path: Seq<char>,
    pub is_dir: bool,
    pub size: Option<u64>,
}

impl View for FileInfo {
    type V = FileInfoView;

    open spec fn view(&self) -> FileInfoView {
        FileInfoView { path: self.path@, is_dir: self.is_dir, size: self.size }
    }
}

/// How many occurrences an edit found (and replaced).
pub struct EditResult {
    pub occurrences: usize,
}

/// A line that a search found.
pub struct GrepMatch {
    pub path: String,
    pub line: usize,
    pub text: String,
}

pub struct GrepMatchView {
    pub path: Seq<char>,
    pub line: nat,
    pub text: Seq<char>,
}

impl View for GrepMatch {
    type V = GrepMatchView;

    open spec fn view(&self) -> GrepMatchView {
        GrepMatchView { path: self.path@, line: self.line as nat, text: self.text@ }
    }
}

/// Why a file system operation was refused.
pub enum VfsError {
    /// The path is under neither `/scratch` nor `/workspace`.
    UnsupportedPath { path: String },
    /// The path is not under the backend's own prefix.
    OutsidePrefix { path: String, prefix: String },
    /// No scratch file has this path.
    NotFound { path: String },
    /// The text to replace does not occur in the file.
    EditNoMatch { old_string: String, path: String },
    /// The text to replace occurs more than once and `replace_all` was not set.
    EditAmbiguous { occurrences: usize, old_string: String, path: String },
}

pub enum VfsErrorView {
    UnsupportedPath { path: Seq<char> },
    OutsidePrefix { path: Seq<char>, prefix: Seq<char> },
    NotFound { path: Seq<char> },
    EditNoMatch { old_string: Seq<char>, path: Seq<char> },
    EditAmbiguous { occurrences: usize, old_string: Seq<char>, path: Seq<char> },
}

impl View for VfsError {
    type V = VfsErrorView;

    open spec fn view(&self) -> VfsErrorView {
        match self {
            VfsError::UnsupportedPath { path } => VfsErrorView::UnsupportedPath { path: path@ },
            VfsError::OutsidePrefix { path, prefix } => VfsErrorView::OutsidePrefix { path: path@, prefix: prefix@ },
            VfsError::NotFound { path } => VfsErrorView::NotFound { path: path@ },
            VfsError::EditNoMatch { old_string, path } => VfsErrorView::EditNoMatch { old_string: old_string@, path: path@ },
            VfsError::EditAmbiguous { occurrences, old_string, path } =>
                VfsErrorView::EditAmbiguous { occurrences: *occurrences, old_string: old_string@, path: path@ },
        }
    }
}

/// The message of an error, word for word as the file system reports it.
pub open spec fn error_message(e: VfsErrorView) -> Seq<char> {
    match e {
        VfsErrorView::UnsupportedPath { path } =>
            "unsupported VFS path '"@ + path + "': expected /scratch or /workspace"@,
        VfsErrorView::OutsidePrefix { path, prefix } => "path '"@ + path + "' is outside "@ + prefix,
        VfsErrorView::NotFound { path } => "scratch file not found: "@ + path,
        VfsErrorView::EditNoMatch { old_string, path } =>
            "edit_file could not find '"@ + old_string + "' in "@ + path,
        VfsErrorView::EditAmbiguous { occurrences, old_string, path } =>
            "edit_file found "@ + spec_decimal(occurrences as nat) + " matches for '"@ + old_string + "' in "@ + path
                + "; set replace_all=true or narrow the match"@,
    }
}

impl VfsError {
    /// The error's message.
    pub fn message(&self) -> (m: String)
        ensures
            m@ == error_message(self@),
    {
        let m = match self {
            VfsError::UnsupportedPath { path } => {
                let parts = ["unsupported VFS path '", path.as_str(), "': expected /scratch or /workspace"];
                concat_strs(&parts)
            },
            VfsError::OutsidePrefix { path, prefix } => {
                let parts = ["path '", path.as_str(), "' is outside ", prefix.as_str()];
                concat_strs(&parts)
            },
            VfsError::NotFound { path } => {
                let parts = ["scratch file not found: ", path.as_str()];
                concat_strs(&parts)
            },
            VfsError::EditNoMatch { old_string, path } => {
                let parts = ["edit_file could not find '", old_string.as_str(), "' in ", path.as_str()];
                concat_strs(&parts)
            },
            VfsError::EditAmbiguous { occurrences, old_string, path } => {
                let n = string_of(decimal(*occurrences).as_slice());
                let parts = ["edit_file found ", n.as_str(), " matches for '", old_string.as_str(), "' in ",
                    path.as_str(), "; set replace_all=true or narrow the match"];
                concat_strs(&parts)
            },
        };
        proof {
            reveal_with_fuel(concat_views, 8);
        }
        m
    }
}

/// Which backend serves a path.
#[derive(Debug, Clone, Copy, PartialEq, Eq, Structural)]
pub enum RoutedBackend {
    Scratch,
    Workspace,
}

/// `path` is `prefix` itself or lies below it.
pub open spec fn is_under(path: Seq<char>, prefix: Seq<char>) -> bool {
    path == prefix || spec_starts_with(path, prefix.push('/'))
}

pub open spec fn scratch_root() -> Seq<char> {
    "/scratch"@
}

pub open spec fn workspace_root() -> Seq<char> {
    "/workspace"@
}

/// Routing is unambiguous: no path lies under both the scratch root and the
/// workspace root, so each routed path has one backend.
pub proof fn lemma_roots_are_disjoint(path: Seq<char>)
    ensures
        !(is_under(path, scratch_root()) && is_under(path, workspace_root())),
{
    reveal_strlit("/scratch");
    reveal_strlit("/workspace");
    if is_under(path, scratch_root()) && is_under(path, workspace_root()) {
        let s = scratch_root();
        let w = workspace_root();
        assert(s.len() == 8 && w.len() == 10);
        assert(s.push('/').len() == 9 && w.push('/').len() == 11);
        assert(path.len() >= 9);
        assert(path[1] == s.push('/')[1]) by {
            if path == s {
            } else {
                assert(path.subrange(0, 9)[1] == path[1]);
            }
        }
        assert(path[1] == w.push('/')[1]) by {
            if path == w {
            } else {
                assert(path.subrange(0, 11)[1] == path[1]);
            }
        }
        assert(s.push('/')[1] == 's');
        assert(w.push('/')[1] == 'w');
    }
}

fn is_under_exec(path: &[char], prefix: &str) -> (r: bool)
    ensures
        r == is_under(path@, prefix@),
{
    let mut p = chars_of(prefix);
    if chars_equal(path, p.as_slice()) {
        return true;
    }
    p.push('/');
    starts_with(path, p.as_slice())
}

/// Picks the backend for `path`: `/scratch` and what lies below it go to the
/// scratch store, `/workspace` and what lies below it to the workspace; any other
/// path is refused.
pub fn route_backend(path: &str) -> (r: Result<RoutedBackend, VfsError>)
    ensures
        is_under(path@, scratch_root()) ==> r == Ok::<RoutedBackend, VfsError>(RoutedBackend::Scratch),
        !is_under(path@, scratch_root()) && is_under(path@, workspace_root()) ==>
            r == Ok::<RoutedBackend, VfsError>(RoutedBackend::Workspace),
        !is_under(path@, scratch_root()) && !is_under(path@, workspace_root()) ==>
            (r matches Err(e) && e@ == (VfsErrorView::UnsupportedPath { path: path@ })),
{
    let chars = chars_of(path);
    if is_under_exec(chars.as_slice(), "/scratch") {
        Ok(RoutedBackend::Scratch)
    } else if is_under_exec(chars.as_slice(), "/workspace") {
        Ok(RoutedBackend::Workspace)
    } else {
        Err(VfsError::UnsupportedPath { path: String::from_str(path) })
    }
}

/// Refuses a path that is not `prefix` or below it.
pub fn ensure_prefix(path: &str, prefix: &str) -> (r: Result<(), VfsError>)
    ensures
        r is Ok <==> is_under(path@, prefix@),
        r matches Err(e) ==> e@ == (VfsErrorView::OutsidePrefix { path: path@, prefix: prefix@ }),
{
    let chars = chars_of(path);
    if is_under_exec(chars.as_slice(), prefix) {
        Ok(())
    } else {
        Err(VfsError::OutsidePrefix { path: String::from_str(path), prefix: String::from_str(prefix) })
    }
}

/// A directory path without its trailing slashes.
pub fn normalize_virtual_path(path: &str) -> (s: String)
    ensures
        s@ == trim_end_char(path@, '/'),
{
    let chars = chars_of(path);
    let trimmed = trim_end_matches_char(chars.as_slice(), '/');
    string_of(trimmed.as_slice())
}

/// An edit needs at least one occurrence of the text to replace, and exactly one
/// unless every occurrence is to be replaced.
pub fn validate_edit_occurrences(path: &str, old_string: &str, replace_all: bool, occurrences: usize) -> (r: Result<(), VfsError>)
    ensures
        r is Ok <==> (occurrences == 1 || (occurrences > 1 && replace_all)),
        occurrences == 0 ==> (r matches Err(e) && e@ == (VfsErrorView::EditNoMatch { old_string: old_string@, path: path@ })),
        occurrences > 1 && !replace_all ==> (r matches Err(e)
            && e@ == (VfsErrorView::EditAmbiguous { occurrences, old_string: old_string@, path: path@ })),
{
    if occurrences == 0 {
        Err(VfsError::EditNoMatch { old_string: String::from_str(old_string), path: String::from_str(path) })
    } else if occurrences > 1 && !replace_all {
        Err(VfsError::EditAmbiguous {
            occurrences,
            old_string: String::from_str(old_string),
            path: String::from_str(path),
        })
    } else {
        Ok(())
    }
}

/// Whether the bytes of `c` from `i` on match the glob pattern `p` from `j` on:
/// `*` matches any run of bytes, `?` any one byte, every other byte itself.
pub open spec fn glob_from(c: Seq<u8>, p: Seq<u8>, i: int, j: int) -> bool
    decreases (c.len() - i) + (p.len() - j),
{
    if i < 0 || j < 0 || i > c.len() || j > p.len() {
        false
    } else if j == p.len() {
        i == c.len()
    } else if p[j] == 42u8 {
        glob_from(c, p, i, j + 1) || (i < c.len() && glob_from(c, p, i + 1, j))
    } else if p[j] == 63u8 {
        i < c.len() && glob_from(c, p, i + 1, j + 1)
    } else {
        i < c.len() && c[i] == p[j] && glob_from(c, p, i + 1, j + 1)
    }
}

/// The text `c` matches the glob pattern `p`, byte by byte.
pub open spec fn spec_wildcard_match(c: Seq<u8>, p: Seq<u8>) -> bool {
    glob_from(c, p, 0, 0)
}

fn wildcard_from(c: &[u8], p: &[u8], i: usize, j: usize) -> (r: bool)
    requires
        i <= c@.len(),
        j <= p@.len(),
    ensures
        r == glob_from(c@, p@, i as int, j as int),
    decreases (c@.len() - i) + (p@.len() - j),
{
    if j == p.len() {
        return i == c.len();
    }
    if p[j] == 42u8 {
        wildcard_from(c, p, i, j + 1) || (i < c.len() && wildcard_from(c, p, i + 1, j))
    } else if p[j] == 63u8 {
        i < c.len() && wildcard_from(c, p, i + 1, j + 1)
    } else {
        i < c.len() && c[i] == p[j] && wildcard_from(c, p, i + 1, j + 1)
    }
}

/// Matches `candidate` against the glob `pattern` (`*` and `?`), byte by byte.
pub fn wildcard_match_bytes(candidate: &[u8], pattern: &[u8]) -> (r: bool)
    ensures
        r == spec_wildcard_match(candidate@, pattern@),
        (forall|k: int| 0 <= k < pattern@.len() ==> pattern@[k] != 42u8) ==> (r <==> (candidate@.len() == pattern@.len()
            && fits_from(candidate@, pattern@, 0, 0))),
{
    proof {
        if forall|k: int| 0 <= k < pattern@.len() ==> pattern@[k] != 42u8 {
            lemma_star_free_pattern_fixes_length(candidate@, pattern@);
        }
    }
    wildcard_from(candidate, pattern, 0, 0)
}

/// Matches the UTF-8 bytes of `candidate` against those of `pattern`.
pub fn wildcard_match(candidate: &str, pattern: &str) -> (r: bool)
    ensures
        r == spec_wildcard_match(candidate.spec_bytes(), pattern.spec_bytes()),
{
    wildcard_match_bytes(candidate.as_bytes(), pattern.as_bytes())
}

/// A pattern of a single `*` matches every text.
pub proof fn lemma_star_matches_everything(c: Seq<u8>)
    ensures
        spec_wildcard_match(c, seq![42u8]),
{
    lemma_star_matches_suffix(c, seq![42u8], 0);
}

proof fn lemma_star_matches_suffix(c: Seq<u8>, p: Seq<u8>, i: int)
    requires
        p == seq![42u8],
        0 <= i <= c.len(),
    ensures
        glob_from(c, p, i, 0),
    decreases c.len() - i,
{
    if i < c.len() {
        lemma_star_matches_suffix(c, p, i + 1);
    }
    assert(glob_from(c, p, c.len() as int, 1));
}

/// Every position of the pattern from `j` on fits the text from `i` on: a `?` fits
/// any byte, any other byte only itself.
pub open spec fn fits_from(c: Seq<u8>, p: Seq<u8>, i: int, j: int) -> bool {
    forall|k: int| 0 <= k < p.len() - j ==> (#[trigger] p[j + k]) == 63u8 || c[i + k] == p[j + k]
}

/// Without `*`, a pattern matches exactly the texts of its own length whose bytes
/// equal the pattern's wherever the pattern has no `?`: each `?` takes exactly one
/// byte.
pub proof fn lemma_star_free_pattern_fixes_length(c: Seq<u8>, p: Seq<u8>)
    requires
        forall|k: int| 0 <= k < p.len() ==> p[k] != 42u8,
    ensures
        spec_wildcard_match(c, p) <==> (c.len() == p.len() && fits_from(c, p, 0, 0)),
        spec_wildcard_match(c, p) ==> c.len() == p.len(),
{
    lemma_star_free_from(c, p, 0, 0);
}

proof fn lemma_star_free_from(c: Seq<u8>, p: Seq<u8>, i: int, j: int)
    requires
        forall|k: int| 0 <= k < p.len() ==> p[k] != 42u8,
        0 <= i <= c.len(),
        0 <= j <= p.len(),
    ensures
        glob_from(c, p, i, j) <==> (c.len() - i == p.len() - j && fits_from(c, p, i, j)),
    decreases p.len() - j,
{
    if j < p.len() {
        if i < c.len() {
            lemma_star_free_from(c, p, i + 1, j + 1);
            if c.len() - i == p.len() - j && fits_from(c, p, i, j) {
                assert(p[j + 0] == 63u8 || c[i + 0] == p[j + 0]);
                assert forall|k: int| 0 <= k < p.len() - (j + 1) implies (#[trigger] p[(j + 1) + k]) == 63u8
                    || c[(i + 1) + k] == p[(j + 1) + k] by {
                    assert(p[j + (k + 1)] == 63u8 || c[i + (k + 1)] == p[j + (k + 1)]);
                }
            }
            if glob_from(c, p, i, j) {
                assert forall|k: int| 0 <= k < p.len() - j implies (#[trigger] p[j + k]) == 63u8 || c[i + k] == p[j + k] by {
                    if k > 0 {
                        assert(p[(j + 1) + (k - 1)] == 63u8 || c[(i + 1) + (k - 1)] == p[(j + 1) + (k - 1)]);
                    }
                }
            }
        }
    }
}

/// A `*` takes any run of bytes, the empty one included: the text from `i` matches a
/// pattern at a `*` exactly when the rest of the pattern matches the text from some
/// position at or after `i`.
pub proof fn lemma_star_takes_any_run(c: Seq<u8>, p: Seq<u8>, i: int, j: int)
    requires
        0 <= i <= c.len(),
        0 <= j < p.len(),
        p[j] == 42u8,
    ensures
        glob_from(c, p, i, j) <==> exists|m: int| i <= m <= c.len() && #[trigger] glob_from(c, p, m, j + 1),
    decreases c.len() - i,
{
    assert(glob_from(c, p, i, j) == (glob_from(c, p, i, j + 1) || (i < c.len() && glob_from(c, p, i + 1, j))));
    if i < c.len() {
        lemma_star_takes_any_run(c, p, i + 1, j);
    }
    if glob_from(c, p, i, j + 1) {
        assert(i <= i <= c.len() && glob_from(c, p, i, j + 1));
    } else if i < c.len() && glob_from(c, p, i + 1, j) {
        let m = choose|m: int| i + 1 <= m <= c.len() && #[trigger] glob_from(c, p, m, j + 1);
        assert(i <= m <= c.len() && glob_from(c, p, m, j + 1));
    }
    if exists|m: int| i <= m <= c.len() && #[trigger] glob_from(c, p, m, j + 1) {
        let m = choose|m: int| i <= m <= c.len() && #[trigger] glob_from(c, p, m, j + 1);
        if m > i {
            assert(i + 1 <= m <= c.len() && glob_from(c, p, m, j + 1));
            assert(glob_from(c, p, i + 1, j));
        }
    }
}

/// A pattern without `*` and `?` matches exactly the text equal to it.
pub proof fn lemma_literal_pattern_matches_only_itself(c: Seq<u8>, p: Seq<u8>)
    requires
        forall|k: int| 0 <= k < p.len() ==> p[k] != 42u8 && p[k] != 63u8,
    ensures
        spec_wildcard_match(c, p) <==> c == p,
{
    lemma_literal_from(c, p, 0);
    if c == p {
        assert(c.subrange(0, c.len() as int) =~= c);
    }
    if spec_wildcard_match(c, p) {
        assert(c =~= c.subrange(0, c.len() as int));
        assert(p =~= p.subrange(0, p.len() as int));
    }
}

proof fn lemma_literal_from(c: Seq<u8>, p: Seq<u8>, i: int)
    requires
        forall|k: int| 0 <= k < p.len() ==> p[k] != 42u8 && p[k] != 63u8,
        0 <= i <= c.len(),
        i <= p.len(),
    ensures
        glob_from(c, p, i, i) <==> (c.len() == p.len() && c.subrange(i, c.len() as int) == p.subrange(i, p.len() as int)),
    decreases c.len() - i,
{
    if i < c.len() && i < p.len() {
        lemma_literal_from(c, p, i + 1);
        if c.len() == p.len() && c.subrange(i + 1, c.len() as int) == p.subrange(i + 1, p.len() as int) && c[i] == p[i] {
            assert(c.subrange(i, c.len() as int) =~= seq![c[i]] + c.subrange(i + 1, c.len() as int));
            assert(p.subrange(i, p.len() as int) =~= seq![p[i]] + p.subrange(i + 1, p.len() as int));
        }
        if c.subrange(i, c.len() as int) == p.subrange(i, p.len() as int) && c.len() == p.len() {
            assert(c.subrange(i, c.len() as int)[0] == c[i]);
            assert(p.subrange(i, p.len() as int)[0] == p[i]);
            assert(c.subrange(i + 1, c.len() as int) =~= c.subrange(i, c.len() as int).subrange(1, c.len() - i));
            assert(p.subrange(i + 1, p.len() as int) =~= p.subrange(i, p.len() as int).subrange(1, p.len() - i));
        }
    } else if i == c.len() && i < p.len() {
        assert(c.subrange(i, c.len() as int).len() == 0);
    } else if i < c.len() && i == p.len() {
        assert(p.subrange(i, p.len() as int).len() == 0);
    } else {
        assert(c.subrange(i, c.len() as int) =~= p.subrange(i, p.len() as int));
    }
}

/// The last component of `path` as `std::path::Path::file_name` finds it, shown as
/// text (empty when there is none). It is named here, not stated.
pub uninterp spec fn path_file_name(path: Seq<char>) -> Seq<char>;

/// `std::path::Path::file_name` of `path`, as a `String` (empty when the path has
/// no last component, such as one that ends in `..`). The contract says only that
/// the result is `path_file_name` of the path.
#[verifier::external_body]
fn file_name_of(path: &str) -> (name: String)
    ensures
        name@ == path_file_name(path@),
{
    match std::path::Path::new(path).file_name() {
        Some(n) => n.to_string_lossy().into_owned(),
        None => String::new(),
    }
}

/// `root` with `relative` appended by `std::path::Path::join`, shown as text with
/// `to_string_lossy`. It is named here, not stated.
pub uninterp spec fn joined_path(root: Seq<char>, relative: Seq<char>) -> Seq<char>;

/// `std::path::Path::join` of `relative` onto `root`, as a `String`. The contract
/// says only that the result is `joined_path` of the two.
#[verifier::external_body]
fn join_path(root: &str, relative: &str) -> (joined: String)
    ensures
        joined@ == joined_path(root@, relative@),
{
    std::path::Path::new(root).join(relative).to_string_lossy().into_owned()
}

/// The part of a `/workspace` path below the workspace root: the leading
/// `/workspace` and then the leading slashes taken off.
pub open spec fn workspace_relative(path: Seq<char>) -> Seq<char> {
    trim_start_char(trim_start_text(path, workspace_root()), '/')
}

/// The workspace backend: real files under a root directory.
pub struct WorkspaceBackend {
    root: String,
}

impl WorkspaceBackend {
    pub fn new(root: String) -> (b: WorkspaceBackend)
        ensures
            b.root_view() == root@,
    {
        WorkspaceBackend { root }
    }

    pub closed spec fn root_view(&self) -> Seq<char> {
        self.root@
    }

    pub fn root(&self) -> (r: &str)
        ensures
            r@ == self.root_view(),
    {
        self.root.as_str()
    }

    /// The real path of a `/workspace` path: its part below `/workspace`, joined to the root.
    pub fn resolve(&self, path: &str) -> (r: Result<String, VfsError>)
        ensures
            r is Ok <==> is_under(path@, workspace_root()),
            r matches Ok(p) ==> p@ == joined_path(self.root_view(), workspace_relative(path@)),
            r matches Err(e) ==> e@ == (VfsErrorView::OutsidePrefix { path: path@, prefix: workspace_root() }),
    {
        match ensure_prefix(path, "/workspace") {
            Ok(()) => {},
            Err(e) => { return Err(e); },
        }
        let chars = chars_of(path);
        let ws = chars_of("/workspace");
        let a = trim_start_matches_text(chars.as_slice(), ws.as_slice());
        let slash: [char; 1] = ['/'];
        let b = trim_start_matches_text(a.as_slice(), slash.as_slice());
        proof { assert(slash@ =~= seq!['/']); }
        let relative = string_of(b.as_slice());
        Ok(join_path(self.root.as_str(), relative.as_str()))
    }
}

/// The `/workspace` path shown for a file whose path relative to the workspace root is `relative`.
pub open spec fn display_path(relative: Seq<char>) -> Seq<char> {
    let r = spec_replace_all(relative, seq!['\\'], seq!['/']);
    if r.len() == 0 { workspace_root() } else { workspace_root() + seq!['/'] + r }
}

/// Shows a workspace file by its `/workspace` path, given its path relative to the
/// workspace root (backslashes become slashes).
pub fn workspace_display_path(relative: &str) -> (s: String)
    ensures
        s@ == display_path(relative@),
{
    let chars = chars_of(relative);
    let back: [char; 1] = ['\\'];
    let fwd: [char; 1] = ['/'];
    let replaced = crate::text::replace_all(chars.as_slice(), back.as_slice(), fwd.as_slice());
    proof {
        assert(back@ =~= seq!['\\']);
        assert(fwd@ =~= seq!['/']);
    }
    if replaced.len() == 0 {
        String::from_str("/workspace")
    } else {
        let mut out = chars_of("/workspace");
        out.push('/');
        crate::text::append_chars(&mut out, replaced.as_slice());
        string_of(out.as_slice())
    }
}

/// A scratch entry: a path and its content.
pub type Entry = (Seq<char>, Seq<char>);

/// The first position at or after `i` of the entry for path `p`.
pub open spec fn find_path(es: Seq<Entry>, p: Seq<char>, i: int) -> Option<int>
    decreases es.len() - i,
{
    if i < 0 || i >= es.len() {
        None
    } else if es[i].0 == p {
        Some(i)
    } else {
        find_path(es, p, i + 1)
    }
}

/// The content stored under path `p`.
pub open spec fn lookup(es: Seq<Entry>, p: Seq<char>) -> Option<Seq<char>> {
    match find_path(es, p, 0) {
        Some(i) => Some(es[i].1),
        None => None,
    }
}

/// The entries after storing `c` under `p`: an existing entry is overwritten in
/// place, a new one goes at the end.
pub open spec fn upsert(es: Seq<Entry>, p: Seq<char>, c: Seq<char>) -> Seq<Entry> {
    match find_path(es, p, 0) {
        Some(i) => es.update(i, (p, c)),
        None => es.push((p, c)),
    }
}

/// No two entries share a path.
pub open spec fn paths_unique(es: Seq<Entry>) -> bool {
    forall|i: int, j: int| 0 <= i < es.len() && 0 <= j < es.len() && i != j ==> es[i].0 != es[j].0
}

/// The size that a listing shows for a file: its length in UTF-8 bytes.
pub open spec fn byte_size(c: Seq<char>) -> u64 {
    (encode_utf8(c).len() as usize) as u64
}

pub open spec fn info_of(e: Entry) -> FileInfoView {
    FileInfoView { path: e.0, is_dir: false, size: Some(byte_size(e.1)) }
}

/// The files that a scratch listing of `prefix` shows: those whose path begins
/// with it, in store order.
pub open spec fn listing(es: Seq<Entry>, prefix: Seq<char>) -> Seq<FileInfoView>
    decreases es.len(),
{
    if es.len() == 0 {
        seq![]
    } else {
        listing(es.drop_last(), prefix) + if spec_starts_with(es.last().0, prefix) {
            seq![info_of(es.last())]
        } else {
            seq![]
        }
    }
}

/// Whether a glob over `dir` with `pattern` shows the entry with path `p`.
pub open spec fn glob_keeps(p: Seq<char>, dir: Seq<char>, pattern: Seq<u8>) -> bool {
    spec_starts_with(p, dir) && spec_wildcard_match(encode_utf8(path_file_name(p)), pattern)
}

/// The files that a scratch glob shows, in store order.
pub open spec fn glob_listing(es: Seq<Entry>, dir: Seq<char>, pattern: Seq<u8>) -> Seq<FileInfoView>
    decreases es.len(),
{
    if es.len() == 0 {
        seq![]
    } else {
        glob_listing(es.drop_last(), dir, pattern) + if glob_keeps(es.last().0, dir, pattern) {
            seq![info_of(es.last())]
        } else {
            seq![]
        }
    }
}

/// The matches among the first `n` lines of the file at `path`, numbered from one.
pub open spec fn grep_lines(path: Seq<char>, ls: Seq<Seq<char>>, pattern: Seq<char>, n: nat) -> Seq<GrepMatchView>
    decreases n,
{
    if n == 0 || n > ls.len() {
        seq![]
    } else {
        grep_lines(path, ls, pattern, (n - 1) as nat) + if spec_contains(ls[n - 1], pattern) {
            seq![GrepMatchView { path, line: n, text: ls[n - 1] }]
        } else {
            seq![]
        }
    }
}

/// All lines containing `pattern` in the files under `dir`, file by file in store
/// order, line by line.
pub open spec fn grep_listing(es: Seq<Entry>, dir: Seq<char>, pattern: Seq<char>) -> Seq<GrepMatchView>
    decreases es.len(),
{
    if es.len() == 0 {
        seq![]
    } else {
        let e = es.last();
        grep_listing(es.drop_last(), dir, pattern) + if spec_starts_with(e.0, dir) {
            grep_lines(e.0, spec_lines(e.1), pattern, spec_lines(e.1).len())
        } else {
            seq![]
        }
    }
}

/// The scratch backend: files held in memory, in the order they were first written.
pub struct ScratchBackend {
    files: Vec<(String, String)>,
}

impl View for ScratchBackend {
    type V = Seq<Entry>;

    closed spec fn view(&self) -> Seq<Entry> {
        Seq::new(self.files@.len(), |i: int| (self.files@[i].0@, self.files@[i].1@))
    }
}

/// What an edit leaves in a file: every match replaced, or the first one.
pub open spec fn edited(content: Seq<char>, old_string: Seq<char>, new_string: Seq<char>, replace_all: bool) -> Seq<char> {
    if replace_all {
        spec_replace_all(content, old_string, new_string)
    } else {
        spec_replace_first(content, old_string, new_string)
    }
}

/// Whether an edit that finds `n` matches goes ahead.
pub open spec fn edit_allowed(n: nat, replace_all: bool) -> bool {
    n == 1 || (n > 1 && replace_all)
}

/// Applies an edit to the text of the file at `path`: replaces the one occurrence
/// of `old_string`, or every occurrence when `replace_all` is set, and reports how
/// many there were; refuses the edit as `validate_edit_occurrences` does.
pub fn edit_text(path: &str, content: &str, old_string: &str, new_string: &str, replace_all: bool) -> (r: Result<(String, EditResult), VfsError>)
    requires
        content@.len() < usize::MAX,
    ensures
        ({
            let n = spec_count_matches(content@, old_string@);
            &&& edit_allowed(n, replace_all) ==> (r matches Ok((t, res)) && res.occurrences == n
                && t@ == edited(content@, old_string@, new_string@, replace_all))
            &&& n == 0 ==> (r matches Err(e) && e@ == (VfsErrorView::EditNoMatch { old_string: old_string@, path: path@ }))
            &&& n > 1 && !replace_all ==> (r matches Err(e) && e@ == (VfsErrorView::EditAmbiguous {
                occurrences: n as usize,
                old_string: old_string@,
                path: path@,
            }))
        }),
{
    let text = chars_of(content);
    let old_chars = chars_of(old_string);
    let new_chars = chars_of(new_string);
    let occurrences = count_matches(text.as_slice(), old_chars.as_slice());
    match validate_edit_occurrences(path, old_string, replace_all, occurrences) {
        Ok(()) => {},
        Err(e) => { return Err(e); },
    }
    let updated = if replace_all {
        crate::text::replace_all(text.as_slice(), old_chars.as_slice(), new_chars.as_slice())
    } else {
        replace_first(text.as_slice(), old_chars.as_slice(), new_chars.as_slice())
    };
    Ok((string_of(updated.as_slice()), EditResult { occurrences }))
}

impl ScratchBackend {
    pub fn new() -> (b: ScratchBackend)
        ensures
            b@ == Seq::<Entry>::empty(),
    {
        let b = ScratchBackend { files: Vec::new() };
        assert(b@ =~= Seq::<Entry>::empty());
        b
    }

    fn find(&self, p: &[char]) -> (idx: Option<usize>)
        ensures
            match idx {
                Some(i) => i < self@.len() && self@[i as int].0 == p@ && find_path(self@, p@, 0) == Some(i as int),
                None => find_path(self@, p@, 0) is None,
            },
    {
        let mut i: usize = 0;
        while i < self.files.len()
            invariant
                i <= self@.len(),
                self@.len() == self.files@.len(),
                find_path(self@, p@, 0) == find_path(self@, p@, i as int),
            decreases self@.len() - i,
        {
            let key = chars_of(self.files[i].0.as_str());
            if chars_equal(key.as_slice(), p) {
                return Some(i);
            }
            i = i + 1;
        }
        None
    }

    /// Lists the files under `path` (its trailing slashes ignored).
    pub fn ls(&self, path: &str) -> (r: Result<Vec<FileInfo>, VfsError>)
        ensures
            r is Ok <==> is_under(path@, scratch_root()),
            r matches Err(e) ==> e@ == (VfsErrorView::OutsidePrefix { path: path@, prefix: scratch_root() }),
            r matches Ok(v) ==> v@.len() == listing(self@, trim_end_char(path@, '/')).len()
                && forall|k: int| 0 <= k < v@.len() ==> #[trigger] v@[k]@ == listing(self@, trim_end_char(path@, '/'))[k],
    {
        match ensure_prefix(path, "/scratch") {
            Ok(()) => {},
            Err(e) => { return Err(e); },
        }
        let target_s = normalize_virtual_path(path);
        let target = chars_of(target_s.as_str());
        let ghost es = self@;
        let mut out: Vec<FileInfo> = Vec::new();
        let mut i: usize = 0;
        while i < self.files.len()
            invariant
                i <= es.len(),
                es == self@,
                es.len() == self.files@.len(),
                out@.len() == listing(es.take(i as int), target@).len(),
                forall|k: int| 0 <= k < out@.len() ==> #[trigger] out@[k]@ == listing(es.take(i as int), target@)[k],
            decreases es.len() - i,
        {
            assert(es.take(i + 1).drop_last() =~= es.take(i as int));
            let key = chars_of(self.files[i].0.as_str());
            if starts_with(key.as_slice(), target.as_slice()) {
                let size = self.files[i].1.as_str().len() as u64;
                out.push(FileInfo { path: self.files[i].0.clone(), is_dir: false, size: Some(size) });
            }
            i = i + 1;
        }
        assert(es.take(es.len() as int) =~= es);
        Ok(out)
    }

    /// Reads the file stored under exactly `path`.
    pub fn read(&self, path: &str) -> (r: Result<String, VfsError>)
        ensures
            !is_under(path@, scratch_root()) ==> (r matches Err(e)
                && e@ == (VfsErrorView::OutsidePrefix { path: path@, prefix: scratch_root() })),
            is_under(path@, scratch_root()) ==> match lookup(self@, path@) {
                Some(c) => r matches Ok(s) && s@ == c,
                None => r matches Err(e) && e@ == (VfsErrorView::NotFound { path: path@ }),
            },
    {
        match ensure_prefix(path, "/scratch") {
            Ok(()) => {},
            Err(e) => { return Err(e); },
        }
        let p = chars_of(path);
        match self.find(p.as_slice()) {
            Some(i) => Ok(self.files[i].1.clone()),
            None => Err(VfsError::NotFound { path: String::from_str(path) }),
        }
    }

    /// Stores `content` under `path`, replacing what was there.
    pub fn write(&mut self, path: &str, content: &str) -> (r: Result<(), VfsError>)
        ensures
            r is Ok <==> is_under(path@, scratch_root()),
            r matches Err(e) ==> e@ == (VfsErrorView::OutsidePrefix { path: path@, prefix: scratch_root() }),
            r is Ok ==> final(self)@ == upsert(old(self)@, path@, content@),
            r is Err ==> final(self)@ == old(self)@,
    {
        match ensure_prefix(path, "/scratch") {
            Ok(()) => {},
            Err(e) => { return Err(e); },
        }
        let p = chars_of(path);
        match self.find(p.as_slice()) {
            Some(i) => {
                self.files.set(i, (String::from_str(path), String::from_str(content)));
            },
            None => {
                self.files.push((String::from_str(path), String::from_str(content)));
            },
        }
        assert(self@ =~= upsert(old(self)@, path@, content@));
        Ok(())
    }

    /// Replaces `old_string` in the file at `path` by `new_string`: the one match,
    /// or every match when `replace_all` is set.
    pub fn edit(&mut self, path: &str, old_string: &str, new_string: &str, replace_all: bool) -> (r: Result<EditResult, VfsError>)
        requires
            lookup(old(self)@, path@) matches Some(c) ==> c.len() < usize::MAX,
        ensures
            match lookup(old(self)@, path@) {
                None => final(self)@ == old(self)@
                    && (r matches Err(e) && e@ == (VfsErrorView::NotFound { path: path@ })),
                Some(c) => {
                    let n = spec_count_matches(c, old_string@);
                    if edit_allowed(n, replace_all) {
                        &&& r matches Ok(res) && res.occurrences == n
                        &&& final(self)@ == upsert(old(self)@, path@, edited(c, old_string@, new_string@, replace_all))
                    } else {
                        &&& final(self)@ == old(self)@
                        &&& n == 0 ==> (r matches Err(e) && e@ == (VfsErrorView::EditNoMatch { old_string: old_string@, path: path@ }))
                        &&& n > 1 ==> (r matches Err(e) && e@ == (VfsErrorView::EditAmbiguous { occurrences: n as usize, old_string: old_string@, path: path@ }))
                    }
                },
            },
    {
        let p = chars_of(path);
        let i = match self.find(p.as_slice()) {
            Some(i) => i,
            None => { return Err(VfsError::NotFound { path: String::from_str(path) }); },
        };
        let (updated, res) = match edit_text(path, self.files[i].1.as_str(), old_string, new_string, replace_all) {
            Ok(x) => x,
            Err(e) => { return Err(e); },
        };
        let key = self.files[i].0.clone();
        self.files.set(i, (key, updated));
        assert(self@ =~= upsert(old(self)@, path@, edited(old(self)@[i as int].1, old_string@, new_string@, replace_all)));
        Ok(res)
    }

    /// The files under `dir` whose name matches the glob `pattern`.
    pub fn glob(&self, dir: &str, pattern: &str) -> (r: Result<Vec<FileInfo>, VfsError>)
        ensures
            r is Ok <==> is_under(dir@, scratch_root()),
            r matches Err(e) ==> e@ == (VfsErrorView::OutsidePrefix { path: dir@, prefix: scratch_root() }),
            r matches Ok(v) ==> v@.len() == glob_listing(self@, dir@, pattern.spec_bytes()).len()
                && forall|k: int| 0 <= k < v@.len() ==> #[trigger] v@[k]@ == glob_listing(self@, dir@, pattern.spec_bytes())[k],
    {
        match ensure_prefix(dir, "/scratch") {
            Ok(()) => {},
            Err(e) => { return Err(e); },
        }
        let d = chars_of(dir);
        let ghost es = self@;
        let ghost pat = pattern.spec_bytes();
        let mut out: Vec<FileInfo> = Vec::new();
        let mut i: usize = 0;
        while i < self.files.len()
            invariant
                i <= es.len(),
                es == self@,
                es.len() == self.files@.len(),
                d@ == dir@,
                pat == pattern.spec_bytes(),
                out@.len() == glob_listing(es.take(i as int), dir@, pat).len(),
                forall|k: int| 0 <= k < out@.len() ==> #[trigger] out@[k]@ == glob_listing(es.take(i as int), dir@, pat)[k],
            decreases es.len() - i,
        {
            assert(es.take(i + 1).drop_last() =~= es.take(i as int));
            let key = chars_of(self.files[i].0.as_str());
            if starts_with(key.as_slice(), d.as_slice()) {
                let name = file_name_of(self.files[i].0.as_str());
                if wildcard_match(name.as_str(), pattern) {
                    let size = self.files[i].1.as_str().len() as u64;
                    out.push(FileInfo { path: self.files[i].0.clone(), is_dir: false, size: Some(size) });
                }
            }
            i = i + 1;
        }
        assert(es.take(es.len() as int) =~= es);
        Ok(out)
    }

    /// Every line that contains `pattern`, in the files under `dir`.
    pub fn grep(&self, dir: &str, pattern: &str) -> (r: Result<Vec<GrepMatch>, VfsError>)
        ensures
            r is Ok <==> is_under(dir@, scratch_root()),
            r matches Err(e) ==> e@ == (VfsErrorView::OutsidePrefix { path: dir@, prefix: scratch_root() }),
            r matches Ok(v) ==> v@.len() == grep_listing(self@, dir@, pattern@).len()
                && forall|k: int| 0 <= k < v@.len() ==> #[trigger] v@[k]@ == grep_listing(self@, dir@, pattern@)[k],
    {
        match ensure_prefix(dir, "/scratch") {
            Ok(()) => {},
            Err(e) => { return Err(e); },
        }
        let d = chars_of(dir);
        let pat = chars_of(pattern);
        let ghost es = self@;
        let mut out: Vec<GrepMatch> = Vec::new();
        let mut i: usize = 0;
        while i < self.files.len()
            invariant
                i <= es.len(),
                es == self@,
                es.len() == self.files@.len(),
                d@ == dir@,
                pat@ == pattern@,
                out@.len() == grep_listing(es.take(i as int), dir@, pattern@).len(),
                forall|k: int| 0 <= k < out@.len() ==> #[trigger] out@[k]@ == grep_listing(es.take(i as int), dir@, pattern@)[k],
            decreases es.len() - i,
        {
            assert(es.take(i + 1).drop_last() =~= es.take(i as int));
            assert(es.take(i + 1).last() == es[i as int]);
            let key = chars_of(self.files[i].0.as_str());
            if starts_with(key.as_slice(), d.as_slice()) {
                let content = chars_of(self.files[i].1.as_str());
                let ls = lines(content.as_slice());
                let ghost base = out@.len();
                let ghost sl = spec_lines(content@);
                let ghost path_v = key@;
                let mut k: usize = 0;
                while k < ls.len()
                    invariant
                        k <= ls@.len(),
                        ls@.len() == sl.len(),
                        forall|m: int| 0 <= m < ls@.len() ==> #[trigger] ls@[m]@ == sl[m],
                        base <= out@.len(),
                        out@.len() == base + grep_lines(path_v, sl, pattern@, k as nat).len(),
                        forall|m: int| 0 <= m < base ==> #[trigger] out@[m]@ == grep_listing(es.take(i as int), dir@, pattern@)[m],
                        forall|m: int| 0 <= m < grep_lines(path_v, sl, pattern@, k as nat).len() ==>
                            #[trigger] out@[base + m]@ == grep_lines(path_v, sl, pattern@, k as nat)[m],
                        base == grep_listing(es.take(i as int), dir@, pattern@).len(),
                        pat@ == pattern@,
                        path_v == es[i as int].0,
                        i < self.files@.len(),
                        es == self@,
                    decreases ls@.len() - k,
                {
                    if contains(ls[k].as_slice(), pat.as_slice()) {
                        out.push(GrepMatch { path: self.files[i].0.clone(), line: k + 1, text: string_of(ls[k].as_slice()) });
                    }
                    k = k + 1;
                }
                proof {
                    assert(grep_listing(es.take(i + 1), dir@, pattern@) == grep_listing(es.take(i as int), dir@, pattern@)
                        + grep_lines(path_v, sl, pattern@, sl.len()));
                    assert forall|m: int| 0 <= m < out@.len() implies #[trigger] out@[m]@ == grep_listing(es.take(i + 1), dir@, pattern@)[m] by {
                        if m >= base {
                            assert(out@[base + (m - base)]@ == grep_lines(path_v, sl, pattern@, sl.len())[m - base]);
                        }
                    }
                }
            } else {
                assert(grep_listing(es.take(i + 1), dir@, pattern@) =~= grep_listing(es.take(i as int), dir@, pattern@));
            }
            i = i + 1;
        }
        assert(es.take(es.len() as int) =~= es);
        Ok(out)
    }
}

proof fn lemma_find_path_spec(es: Seq<Entry>, p: Seq<char>, i: int)
    requires
        0 <= i,
    ensures
        find_path(es, p, i) matches Some(k) ==> i <= k < es.len() && es[k].0 == p
            && forall|m: int| i <= m < k ==> es[m].0 != p,
        find_path(es, p, i) is None ==> forall|m: int| i <= m < es.len() ==> es[m].0 != p,
    decreases es.len() - i,
{
    if i < es.len() && es[i].0 != p {
        lemma_find_path_spec(es, p, i + 1);
    }
}

/// Reading a path right after writing it gives back what was written.
pub proof fn lemma_read_after_write(es: Seq<Entry>, p: Seq<char>, c: Seq<char>)
    ensures
        lookup(upsert(es, p, c), p) == Some(c),
{
    lemma_find_path_spec(es, p, 0);
    let es2 = upsert(es, p, c);
    lemma_find_path_spec(es2, p, 0);
    match find_path(es, p, 0) {
        Some(i) => {
            if find_path(es2, p, 0) != Some(i) {
                assert(es2[i].0 == p);
            }
        },
        None => {
            assert(es2[es.len() as int].0 == p);
        },
    }
}

/// Writing one path leaves what every other path reads unchanged.
pub proof fn lemma_write_leaves_other_paths(es: Seq<Entry>, p: Seq<char>, c: Seq<char>, q: Seq<char>)
    requires
        q != p,
    ensures
        lookup(upsert(es, p, c), q) == lookup(es, q),
{
    lemma_find_path_spec(es, p, 0);
    lemma_find_path_spec(es, q, 0);
    let es2 = upsert(es, p, c);
    lemma_find_path_spec(es2, q, 0);
    match find_path(es, q, 0) {
        Some(j) => {
            assert(es2[j].0 == q);
            if let Some(k) = find_path(es2, q, 0) {
                if k < j { assert(es2[k] == es[k]); }
            }
        },
        None => {
            if let Some(k) = find_path(es2, q, 0) {
                if k < es.len() { assert(es2[k] == es[k]); }
            }
        },
    }
}

/// Writing never gives two files the same path.
pub proof fn lemma_write_keeps_paths_unique(es: Seq<Entry>, p: Seq<char>, c: Seq<char>)
    requires
        paths_unique(es),
    ensures
        paths_unique(upsert(es, p, c)),
{
    lemma_find_path_spec(es, p, 0);
}

/// Writing a path that was not there adds exactly one file, at the end; writing one
/// that was there keeps the number of files.
pub proof fn lemma_write_count(es: Seq<Entry>, p: Seq<char>, c: Seq<char>)
    ensures
        lookup(es, p) is None ==> upsert(es, p, c).len() == es.len() + 1 && upsert(es, p, c).last() == (p, c),
        lookup(es, p) is Some ==> upsert(es, p, c).len() == es.len(),
{
    lemma_find_path_spec(es, p, 0);
}

/// Routes each path to one of two backends: `/scratch` paths to `scratch`,
/// `/workspace` paths to `workspace`.
pub struct RoutedVfs<S, W> {
    scratch: S,
    workspace: W,
}

impl<S, W> RoutedVfs<S, W> {
    pub fn new(scratch: S, workspace: W) -> (v: RoutedVfs<S, W>)
        ensures
            v.scratch_spec() == scratch,
            v.workspace_spec() == workspace,
    {
        RoutedVfs { scratch, workspace }
    }

    pub closed spec fn scratch_spec(&self) -> S {
        self.scratch
    }

    pub closed spec fn workspace_spec(&self) -> W {
        self.workspace
    }

    pub fn scratch(&self) -> (s: &S)
        ensures
            *s == self.scratch_spec(),
    {
        &self.scratch
    }

    pub fn workspace(&self) -> (w: &W)
        ensures
            *w == self.workspace_spec(),
    {
        &self.workspace
    }

    /// The backend that serves `path`, or why none does.
    pub fn backend_for(&self, path: &str) -> (r: Result<RoutedBackend, VfsError>)
        ensures
            is_under(path@, scratch_root()) ==> r == Ok::<RoutedBackend, VfsError>(RoutedBackend::Scratch),
            !is_under(path@, scratch_root()) && is_under(path@, workspace_root()) ==>
                r == Ok::<RoutedBackend, VfsError>(RoutedBackend::Workspace),
            !is_under(path@, scratch_root()) && !is_under(path@, workspace_root()) ==>
                (r matches Err(e) && e@ == (VfsErrorView::UnsupportedPath { path: path@ })),
    {
        route_backend(path)
    }
}

} // verus!
