//! Validation of a test file's path against the grammar of its kind, and
//! normalisation of a path against a working directory.
//!
//! Both are checks on the path's characters alone: nothing here looks at the
//! file system.

use vstd::prelude::*;
use crate::text::{
    chars_of, contains_char, contains_seq, ends_with, has_substring, is_text, matches_at,
    starts_with, without_prefix, without_trailing,
};

verus! {

/// The kind of test file that a path is expected to name.
#[derive(Clone, Copy, Debug, PartialEq, Eq, Structural)]
pub enum FileKind {
    /// An RSpec file: `*_spec.rb`.
    Rspec,
    /// A Cypress file: `*.cy.js` or `*.cy.ts`.
    Cypress,
}

/// Why a path was rejected.
#[derive(Clone, Copy, Debug, PartialEq, Eq, Structural)]
pub enum PathError {
    /// The path holds a NUL or a line feed.
    InvalidCharacters,
    /// The path holds `../`.
    Traversal,
    /// The path does not end in a suffix of the expected kind.
    WrongKind(FileKind),
    /// The path is a suffix of the expected kind and nothing else.
    Malformed,
}

/// `p` holds a NUL or a line feed.
pub open spec fn has_invalid_char(p: Seq<char>) -> bool {
    p.contains('\0') || p.contains('\n')
}

/// `p` holds the substring `../`.
pub open spec fn has_traversal(p: Seq<char>) -> bool {
    has_substring(p, "../"@)
}

/// `p` ends in a suffix that files of `kind` carry.
pub open spec fn has_kind_suffix(p: Seq<char>, kind: FileKind) -> bool {
    match kind {
        FileKind::Rspec => "_spec.rb"@.is_suffix_of(p),
        FileKind::Cypress => ".cy.js"@.is_suffix_of(p) || ".cy.ts"@.is_suffix_of(p),
    }
}

/// `p` is a suffix of `kind` with no stem before it.
pub open spec fn is_bare_suffix(p: Seq<char>, kind: FileKind) -> bool {
    match kind {
        FileKind::Rspec => p == "_spec.rb"@,
        FileKind::Cypress => p == ".cy.js"@ || p == ".cy.ts"@,
    }
}

/// The verdict on a path: the first rule that it breaks, in the order
/// characters, traversal, suffix, stem. The first two are judged on the path
/// as given, the last two on the path without one leading `./`.
pub open spec fn path_verdict(p: Seq<char>, kind: FileKind) -> Result<(), PathError> {
    let clean = without_prefix(p, "./"@);
    if has_invalid_char(p) {
        Err(PathError::InvalidCharacters)
    } else if has_traversal(p) {
        Err(PathError::Traversal)
    } else if !has_kind_suffix(clean, kind) {
        Err(PathError::WrongKind(kind))
    } else if is_bare_suffix(clean, kind) {
        Err(PathError::Malformed)
    } else {
        Ok(())
    }
}

/// The text that reports a rejected path.
pub open spec fn path_error_text(e: PathError) -> Seq<char> {
    match e {
        PathError::InvalidCharacters => "Invalid characters in file path"@,
        PathError::Traversal => "Path traversal not allowed"@,
        PathError::WrongKind(FileKind::Rspec) => "File must be an RSpec test file (*_spec.rb)"@,
        PathError::WrongKind(FileKind::Cypress) =>
            "File must be a Cypress test file (*.cy.js or *.cy.ts)"@,
        PathError::Malformed => "Invalid file path format"@,
    }
}

impl PathError {
    /// The text that reports this error.
    pub fn message(&self) -> (text: String)
        ensures
            text@ == path_error_text(*self),
    {
        match self {
            PathError::InvalidCharacters => "Invalid characters in file path".to_owned(),
            PathError::Traversal => "Path traversal not allowed".to_owned(),
            PathError::WrongKind(FileKind::Rspec) =>
                "File must be an RSpec test file (*_spec.rb)".to_owned(),
            PathError::WrongKind(FileKind::Cypress) =>
                "File must be a Cypress test file (*.cy.js or *.cy.ts)".to_owned(),
            PathError::Malformed => "Invalid file path format".to_owned(),
        }
    }
}

/// Whether the characters `p` end in a suffix of `kind`.
fn ends_in_kind_suffix(p: &Vec<char>, kind: FileKind) -> (found: bool)
    ensures
        found == has_kind_suffix(p@, kind),
{
    match kind {
        FileKind::Rspec => ends_with(p, &chars_of("_spec.rb")),
        FileKind::Cypress => ends_with(p, &chars_of(".cy.js")) || ends_with(
            p,
            &chars_of(".cy.ts"),
        ),
    }
}

/// Whether the characters `p` are a suffix of `kind` and nothing else.
fn equals_kind_suffix(p: &Vec<char>, kind: FileKind) -> (bare: bool)
    ensures
        bare == is_bare_suffix(p@, kind),
{
    match kind {
        FileKind::Rspec => is_text(p, "_spec.rb"),
        FileKind::Cypress => is_text(p, ".cy.js") || is_text(p, ".cy.ts"),
    }
}

/// The characters of `p` from index `from` on.
fn tail_of(p: &Vec<char>, from: usize) -> (tail: Vec<char>)
    requires
        from <= p.len(),
    ensures
        tail@ == p@.skip(from as int),
{
    let mut tail: Vec<char> = Vec::new();
    let mut i: usize = from;
    while i < p.len()
        invariant
            from <= i <= p.len(),
            tail@ == p@.subrange(from as int, i as int),
        decreases p.len() - i,
    {
        tail.push(p[i]);
        i += 1;
        assert(tail@ =~= p@.subrange(from as int, i as int));
    }
    assert(tail@ =~= p@.skip(from as int));
    tail
}

/// Validates the characters of a path for files of `kind`.
pub fn validate_path_chars(p: &Vec<char>, kind: FileKind) -> (res: Result<(), PathError>)
    ensures
        res == path_verdict(p@, kind),
{
    if contains_char(p, '\0') || contains_char(p, '\n') {
        return Err(PathError::InvalidCharacters);
    }
    if contains_seq(p, &chars_of("../")) {
        return Err(PathError::Traversal);
    }
    let dot_slash = chars_of("./");
    let stripped: Vec<char>;
    let clean: &Vec<char> = if starts_with(p, &dot_slash) {
        stripped = tail_of(p, dot_slash.len());
        &stripped
    } else {
        p
    };
    if !ends_in_kind_suffix(clean, kind) {
        return Err(PathError::WrongKind(kind));
    }
    if equals_kind_suffix(clean, kind) {
        return Err(PathError::Malformed);
    }
    Ok(())
}

/// Validates `path` for files of `kind`: `Ok` exactly for the paths that
/// break no rule, and otherwise the first rule broken.
pub fn validate_path(path: &str, kind: FileKind) -> (res: Result<(), PathError>)
    ensures
        res == path_verdict(path@, kind),
{
    validate_path_chars(&chars_of(path), kind)
}

/// A path that holds `../` is rejected as a traversal whatever its suffix,
/// unless it also holds a NUL or a line feed.
pub proof fn law_traversal_rejected(p: Seq<char>, kind: FileKind)
    requires
        has_substring(p, "../"@),
        !has_invalid_char(p),
    ensures
        path_verdict(p, kind) == Err::<(), PathError>(PathError::Traversal),
{
}

/// A path that holds a NUL or a line feed is rejected for its characters,
/// whatever else is wrong with it.
pub proof fn law_invalid_characters_rejected(p: Seq<char>, kind: FileKind)
    requires
        p.contains('\0') || p.contains('\n'),
    ensures
        path_verdict(p, kind) == Err::<(), PathError>(PathError::InvalidCharacters),
{
}

/// An accepted path holds no NUL, no line feed and no `../`, and ends in a
/// suffix of its kind with a stem before it.
pub proof fn law_accepted_path(p: Seq<char>, kind: FileKind)
    requires
        path_verdict(p, kind) is Ok,
    ensures
        !p.contains('\0'),
        !p.contains('\n'),
        !has_substring(p, "../"@),
        has_kind_suffix(without_prefix(p, "./"@), kind),
        !is_bare_suffix(without_prefix(p, "./"@), kind),
{
}

/// The verdict depends on the characters of the path and on the kind, and on
/// nothing else: the same input is judged the same way every time.
pub proof fn law_verdict_is_a_function(p: Seq<char>, q: Seq<char>, kind: FileKind)
    requires
        p =~= q,
    ensures
        path_verdict(p, kind) == path_verdict(q, kind),
{
}

/// A working directory written with exactly one `/` at its end.
pub open spec fn directory_prefix(dir: Seq<char>) -> Seq<char> {
    without_trailing(dir, '/').push('/')
}

/// The path as seen from the working directory `dir`: unchanged where `dir`
/// is `.`; else, where the path without one leading `./` starts with
/// `dir` and a `/`, what follows that; else unchanged.
pub open spec fn normalized_path(path: Seq<char>, dir: Seq<char>) -> Seq<char> {
    let clean = without_prefix(path, "./"@);
    let prefix = directory_prefix(dir);
    if dir == "."@ {
        path
    } else if prefix.is_prefix_of(clean) {
        clean.skip(prefix.len() as int)
    } else {
        path
    }
}

/// The length of `s` without the run of `c` at its end.
fn trimmed_len(s: &Vec<char>, c: char) -> (n: usize)
    ensures
        n <= s.len(),
        s@.take(n as int) == without_trailing(s@, c),
{
    let mut n: usize = s.len();
    assert(s@.take(n as int) =~= s@);
    while n > 0 && s[n - 1] == c
        invariant
            n <= s.len(),
            without_trailing(s@, c) == without_trailing(s@.take(n as int), c),
        decreases n,
    {
        assert(s@.take(n as int).drop_last() =~= s@.take(n - 1));
        n -= 1;
    }
    n
}

/// Rewrites `path`, given relative to a project root, as relative to the
/// working directory `working_dir` inside it.
pub fn normalize_path(path: &str, working_dir: &str) -> (res: String)
    ensures
        res@ == normalized_path(path@, working_dir@),
{
    let dir = chars_of(working_dir);
    if is_text(&dir, ".") {
        return path.to_owned();
    }
    let p = chars_of(path);
    let kept: usize = trimmed_len(&dir, '/');
    let mut prefix: Vec<char> = Vec::new();
    let mut i: usize = 0;
    while i < kept
        invariant
            i <= kept <= dir.len(),
            prefix@ == dir@.take(i as int),
        decreases kept - i,
    {
        prefix.push(dir[i]);
        i += 1;
        assert(prefix@ =~= dir@.take(i as int));
    }
    prefix.push('/');
    assert(prefix@ == directory_prefix(working_dir@));
    let dot_slash = chars_of("./");
    let start: usize = if starts_with(&p, &dot_slash) {
        dot_slash.len()
    } else {
        0
    };
    let ghost clean = without_prefix(path@, "./"@);
    assert(clean =~= p@.skip(start as int));
    let found = matches_at(&p, &prefix, start);
    proof {
        if start + prefix@.len() <= p@.len() {
            assert(p@.subrange(start as int, start + prefix@.len()) =~= clean.take(
                prefix@.len() as int,
            ));
        }
    }
    if found {
        assert(start + prefix.len() <= p.len());
        let from: usize = start + prefix.len();
        assert(p@.subrange(from as int, p@.len() as int) =~= clean.skip(prefix@.len() as int));
        path.substring_char(from, p.len()).to_owned()
    } else {
        path.to_owned()
    }
}

/// Seen from the working directory `.`, every path is unchanged.
pub proof fn law_current_directory_keeps_path(path: Seq<char>)
    ensures
        normalized_path(path, "."@) == path,
{
}

/// Normalisation only ever removes the beginning of a path: what it returns
/// is the end of the path that it was given.
pub proof fn law_normalized_path_is_an_end(path: Seq<char>, dir: Seq<char>)
    ensures
        normalized_path(path, dir).is_suffix_of(path),
{
    let clean = without_prefix(path, "./"@);
    let prefix = directory_prefix(dir);
    let res = normalized_path(path, dir);
    assert(path.skip(0) =~= path);
    if dir != "."@ && prefix.is_prefix_of(clean) {
        assert(res.len() <= path.len());
        assert(res =~= path.skip(path.len() - res.len()));
    }
}

} // verus!
