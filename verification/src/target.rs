//! A validated test target: a file path and the line numbers that select
//! tests in it.

use vstd::prelude::*;
use vstd::string::StringExecFns;
use crate::decimal::{append_i32, decimal};
use crate::path::{path_error_text, path_verdict, validate_path, FileKind, PathError};

verus! {

/// Why a test target was rejected.
#[derive(Clone, Copy, Debug, PartialEq, Eq, Structural)]
pub enum TargetError {
    /// No path was given.
    EmptyPath,
    /// The path breaks a rule of its kind.
    Path(PathError),
    /// A line number is zero or negative; the variant holds the first such.
    NonPositiveLine(i32),
}

/// `i` is the index of the first line number in `lines` that is not
/// positive.
pub open spec fn is_first_non_positive(lines: Seq<i32>, i: int) -> bool {
    &&& 0 <= i < lines.len()
    &&& lines[i] <= 0
    &&& forall|j: int| 0 <= j < i ==> lines[j] > 0
}

/// Every line number in `lines` is positive.
pub open spec fn all_positive(lines: Seq<i32>) -> bool {
    forall|i: int| 0 <= i < lines.len() ==> lines[i] > 0
}

/// The first line number in `lines` that is not positive, if there is one.
pub open spec fn first_non_positive(lines: Seq<i32>) -> Option<i32>
    decreases lines.len(),
{
    if lines.len() == 0 {
        None
    } else if lines[0] <= 0 {
        Some(lines[0])
    } else {
        first_non_positive(lines.drop_first())
    }
}

/// The verdict on a list of line numbers.
pub open spec fn lines_verdict(lines: Seq<i32>) -> Result<(), TargetError> {
    match first_non_positive(lines) {
        Some(line) => Err(TargetError::NonPositiveLine(line)),
        None => Ok(()),
    }
}

/// The verdict on a target: the first rule that it breaks, in the order
/// empty path, the rules of the path, line numbers.
pub open spec fn target_verdict(path: Seq<char>, lines: Seq<i32>, kind: FileKind) -> Result<
    (),
    TargetError,
> {
    if path.len() == 0 {
        Err(TargetError::EmptyPath)
    } else {
        match path_verdict(path, kind) {
            Err(e) => Err(TargetError::Path(e)),
            Ok(()) => lines_verdict(lines),
        }
    }
}

/// The text that reports a rejected target.
pub open spec fn target_error_text(e: TargetError) -> Seq<char> {
    match e {
        TargetError::EmptyPath => "Empty file path"@,
        TargetError::Path(e) => path_error_text(e),
        TargetError::NonPositiveLine(line) => "Line numbers must be positive integers, got: "@
            + decimal(line as int),
    }
}

/// The one trailing argument that names a target to the test runner: the
/// path, then each line number after a `:`, in the order given.
pub open spec fn target_argument(path: Seq<char>, lines: Seq<i32>) -> Seq<char>
    decreases lines.len(),
{
    if lines.len() == 0 {
        path
    } else {
        target_argument(path, lines.drop_last()) + seq![':'] + decimal(lines.last() as int)
    }
}

/// `first_non_positive` names the element at the first index that holds a
/// number that is not positive, and is `None` exactly where all are
/// positive.
pub proof fn lemma_first_non_positive(lines: Seq<i32>)
    ensures
        first_non_positive(lines) is None <==> all_positive(lines),
        first_non_positive(lines) matches Some(line) ==> exists|i: int|
            is_first_non_positive(lines, i) && lines[i] == line,
    decreases lines.len(),
{
    if lines.len() == 0 {
    } else if lines[0] <= 0 {
        assert(is_first_non_positive(lines, 0));
    } else {
        let rest = lines.drop_first();
        lemma_first_non_positive(rest);
        if first_non_positive(rest) is None {
            assert forall|i: int| 0 <= i < lines.len() implies lines[i] > 0 by {
                if i > 0 {
                    assert(rest[i - 1] == lines[i]);
                }
            }
        } else {
            let line = first_non_positive(rest)->Some_0;
            let k = choose|k: int| is_first_non_positive(rest, k) && rest[k] == line;
            assert(lines[k + 1] == rest[k]);
            assert forall|j: int| 0 <= j < k + 1 implies lines[j] > 0 by {
                if j > 0 {
                    assert(rest[j - 1] == lines[j]);
                }
            }
            assert(is_first_non_positive(lines, k + 1));
            assert(!all_positive(lines));
        }
    }
}

impl TargetError {
    /// The text that reports this error.
    pub fn message(&self) -> (text: String)
        ensures
            text@ == target_error_text(*self),
    {
        match self {
            TargetError::EmptyPath => "Empty file path".to_owned(),
            TargetError::Path(e) => e.message(),
            TargetError::NonPositiveLine(line) => {
                let mut text = "Line numbers must be positive integers, got: ".to_owned();
                append_i32(&mut text, *line);
                text
            },
        }
    }
}

/// Validates line numbers: `Ok` exactly where every one is positive, and
/// otherwise the first that is not.
pub fn validate_line_numbers(lines: &Vec<i32>) -> (res: Result<(), TargetError>)
    ensures
        res == lines_verdict(lines@),
        res is Ok <==> all_positive(lines@),
        res matches Err(e) ==> exists|i: int|
            is_first_non_positive(lines@, i) && e == TargetError::NonPositiveLine(lines@[i]),
{
    proof {
        lemma_first_non_positive(lines@);
        assert(lines@.skip(0) =~= lines@);
    }
    let mut i: usize = 0;
    while i < lines.len()
        invariant
            i <= lines.len(),
            first_non_positive(lines@) == first_non_positive(lines@.skip(i as int)),
            forall|j: int| 0 <= j < i ==> lines@[j] > 0,
        decreases lines.len() - i,
    {
        let ghost rest = lines@.skip(i as int);
        assert(rest[0] == lines@[i as int]);
        assert(rest.drop_first() =~= lines@.skip(i + 1));
        if lines[i] <= 0 {
            assert(is_first_non_positive(lines@, i as int));
            return Err(TargetError::NonPositiveLine(lines[i]));
        }
        i += 1;
    }
    Ok(())
}

/// Validates a path and its line numbers for files of `kind`.
pub fn validate_target(path: &str, lines: &Vec<i32>, kind: FileKind) -> (res: Result<
    (),
    TargetError,
>)
    ensures
        res == target_verdict(path@, lines@, kind),
{
    if path.is_empty() {
        return Err(TargetError::EmptyPath);
    }
    match validate_path(path, kind) {
        Err(e) => Err(TargetError::Path(e)),
        Ok(()) => validate_line_numbers(lines),
    }
}

/// A test file and the line numbers that select tests in it.
///
/// A value made by `from_args` or `from_cypress_args` is valid for its kind;
/// see `is_valid_for`.
#[derive(Debug)]
pub struct ParsedFilePath {
    pub file_path: String,
    pub line_numbers: Vec<i32>,
}

impl ParsedFilePath {
    /// The path is not empty and breaks no rule of `kind`, and every line
    /// number is positive.
    pub open spec fn is_valid_for(&self, kind: FileKind) -> bool {
        target_verdict(self.file_path@, self.line_numbers@, kind) is Ok
    }

    /// An RSpec target from a path and line numbers. `Ok` exactly where the
    /// target breaks no rule; the target then holds the path and the line
    /// numbers as given. Otherwise the text for the first rule broken.
    pub fn from_args(file_path: &str, line_numbers: Vec<i32>) -> (res: Result<Self, String>)
        ensures
            match res {
                Ok(target) => {
                    &&& target_verdict(file_path@, line_numbers@, FileKind::Rspec) is Ok
                    &&& target.file_path@ == file_path@
                    &&& target.line_numbers@ == line_numbers@
                    &&& target.is_valid_for(FileKind::Rspec)
                },
                Err(text) => {
                    &&& target_verdict(file_path@, line_numbers@, FileKind::Rspec) matches Err(e)
                    &&& text@ == target_error_text(e)
                },
            },
    {
        match validate_target(file_path, &line_numbers, FileKind::Rspec) {
            Err(e) => Err(e.message()),
            Ok(()) => Ok(ParsedFilePath { file_path: file_path.to_owned(), line_numbers }),
        }
    }

    /// Validates the path of an RSpec file; the error is the text for the
    /// first rule broken.
    pub fn validate_file_path(path: &str) -> (res: Result<(), String>)
        ensures
            match res {
                Ok(()) => path_verdict(path@, FileKind::Rspec) is Ok,
                Err(text) => {
                    &&& path_verdict(path@, FileKind::Rspec) matches Err(e)
                    &&& text@ == path_error_text(e)
                },
            },
    {
        match validate_path(path, FileKind::Rspec) {
            Err(e) => Err(e.message()),
            Ok(()) => Ok(()),
        }
    }

    /// Validates the path of a Cypress file; the error is the text for the
    /// first rule broken.
    pub fn validate_cypress_file_path(path: &str) -> (res: Result<(), String>)
        ensures
            match res {
                Ok(()) => path_verdict(path@, FileKind::Cypress) is Ok,
                Err(text) => {
                    &&& path_verdict(path@, FileKind::Cypress) matches Err(e)
                    &&& text@ == path_error_text(e)
                },
            },
    {
        match validate_path(path, FileKind::Cypress) {
            Err(e) => Err(e.message()),
            Ok(()) => Ok(()),
        }
    }

    /// A Cypress target from a path. `Ok` exactly where the path is not
    /// empty and breaks no rule; the target then holds the path as given and
    /// no line numbers. Otherwise the text for the first rule broken.
    pub fn from_cypress_args(file_path: &str) -> (res: Result<Self, String>)
        ensures
            match res {
                Ok(target) => {
                    &&& target_verdict(file_path@, Seq::empty(), FileKind::Cypress) is Ok
                    &&& target.file_path@ == file_path@
                    &&& target.line_numbers@ == Seq::<i32>::empty()
                    &&& target.is_valid_for(FileKind::Cypress)
                },
                Err(text) => {
                    &&& target_verdict(file_path@, Seq::empty(), FileKind::Cypress) matches Err(e)
                    &&& text@ == target_error_text(e)
                },
            },
    {
        let line_numbers: Vec<i32> = Vec::new();
        match validate_target(file_path, &line_numbers, FileKind::Cypress) {
            Err(e) => Err(e.message()),
            Ok(()) => Ok(ParsedFilePath { file_path: file_path.to_owned(), line_numbers }),
        }
    }

    /// The trailing argument for the test runner: the path alone, or the
    /// path and the line numbers joined by `:`.
    pub fn argument(&self) -> (text: String)
        ensures
            text@ == target_argument(self.file_path@, self.line_numbers@),
    {
        let mut text = self.file_path.clone();
        let mut i: usize = 0;
        while i < self.line_numbers.len()
            invariant
                i <= self.line_numbers.len(),
                text@ == target_argument(self.file_path@, self.line_numbers@.take(i as int)),
            decreases self.line_numbers.len() - i,
        {
            let ghost before = self.line_numbers@.take(i as int);
            let ghost after = self.line_numbers@.take(i + 1);
            text.append(":");
            append_i32(&mut text, self.line_numbers[i]);
            proof {
                reveal_strlit(":");
                assert(":"@ =~= seq![':']);
                assert(after.drop_last() =~= before);
                assert(after.last() == self.line_numbers@[i as int]);
            }
            i += 1;
        }
        assert(self.line_numbers@.take(i as int) =~= self.line_numbers@);
        text
    }
}

/// Line numbers are accepted exactly where every one is positive, and the
/// error otherwise carries the first that is not, which its text then shows
/// in decimal.
pub proof fn law_line_numbers(lines: Seq<i32>)
    ensures
        lines_verdict(lines) is Ok <==> all_positive(lines),
        lines_verdict(lines) matches Err(e) ==> exists|i: int|
            is_first_non_positive(lines, i) && e == TargetError::NonPositiveLine(lines[i])
                && target_error_text(e) == "Line numbers must be positive integers, got: "@
                + decimal(lines[i] as int),
{
    lemma_first_non_positive(lines);
}

/// The verdict on a target depends on its path, its line numbers and its kind
/// and on nothing else.
pub proof fn law_target_verdict_is_a_function(
    path: Seq<char>,
    lines: Seq<i32>,
    other_path: Seq<char>,
    other_lines: Seq<i32>,
    kind: FileKind,
)
    requires
        path =~= other_path,
        lines =~= other_lines,
    ensures
        target_verdict(path, lines, kind) == target_verdict(other_path, other_lines, kind),
{
}

} // verus!
