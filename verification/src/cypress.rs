//! The report that a Cypress run prints, and the first and third stage of
//! the pipeline that recovers it from the run's output: finding the JSON
//! text in the output, and projecting the parsed report.

use vstd::prelude::*;
use crate::text::{chars_of, find_char, first_index, lemma_first_index_unique};

verus! {

/// The counters and times of a run.
#[derive(Debug, Clone, PartialEq, Eq)]
pub struct CypressStats {
    pub suites: u32,
    pub tests: u32,
    pub passes: u32,
    pub pending: u32,
    pub failures: u32,
    pub start: String,
    pub end: String,
    pub duration: u32,
}

/// The place in the source that a failure points at.
#[derive(Debug, Clone, PartialEq, Eq)]
pub struct CypressCodeFrame {
    pub line: u32,
    pub column: u32,
    pub original_file: String,
    pub relative_file: String,
    pub absolute_file: String,
    pub frame: String,
    pub language: String,
}

/// The error of a failed test.
#[derive(Debug, Clone, PartialEq, Eq)]
pub struct CypressError {
    pub message: String,
    pub name: String,
    pub code_frame: Option<CypressCodeFrame>,
}

/// One test of a run.
#[derive(Debug, Clone, PartialEq, Eq)]
pub struct CypressTest {
    pub title: String,
    pub full_title: String,
    pub file: Option<String>,
    pub duration: Option<u32>,
    pub current_retry: u32,
    pub err: Option<CypressError>,
}

/// The whole report of a run.
#[derive(Debug, Clone, PartialEq, Eq)]
pub struct CypressResults {
    pub stats: CypressStats,
    pub tests: Vec<CypressTest>,
    pub pending: Vec<CypressTest>,
    pub failures: Vec<CypressTest>,
    pub passes: Vec<CypressTest>,
}

/// What a `CypressStats` holds.
pub struct Stats {
    pub suites: u32,
    pub tests: u32,
    pub passes: u32,
    pub pending: u32,
    pub failures: u32,
    pub start: Seq<char>,
    pub end: Seq<char>,
    pub duration: u32,
}

/// What a `CypressCodeFrame` holds.
pub struct CodeFrame {
    pub line: u32,
    pub column: u32,
    pub original_file: Seq<char>,
    pub relative_file: Seq<char>,
    pub absolute_file: Seq<char>,
    pub frame: Seq<char>,
    pub language: Seq<char>,
}

/// What a `CypressError` holds.
pub struct Failure {
    pub message: Seq<char>,
    pub name: Seq<char>,
    pub code_frame: Option<CodeFrame>,
}

/// What a `CypressTest` holds.
pub struct TestRecord {
    pub title: Seq<char>,
    pub full_title: Seq<char>,
    pub file: Option<Seq<char>>,
    pub duration: Option<u32>,
    pub current_retry: u32,
    pub err: Option<Failure>,
}

/// What a `CypressResults` holds.
pub struct Report {
    pub stats: Stats,
    pub tests: Seq<TestRecord>,
    pub pending: Seq<TestRecord>,
    pub failures: Seq<TestRecord>,
    pub passes: Seq<TestRecord>,
}

impl View for CypressStats {
    type V = Stats;

    open spec fn view(&self) -> Stats {
        Stats {
            suites: self.suites,
            tests: self.tests,
            passes: self.passes,
            pending: self.pending,
            failures: self.failures,
            start: self.start@,
            end: self.end@,
            duration: self.duration,
        }
    }
}

impl View for CypressCodeFrame {
    type V = CodeFrame;

    open spec fn view(&self) -> CodeFrame {
        CodeFrame {
            line: self.line,
            column: self.column,
            original_file: self.original_file@,
            relative_file: self.relative_file@,
            absolute_file: self.absolute_file@,
            frame: self.frame@,
            language: self.language@,
        }
    }
}

impl View for CypressError {
    type V = Failure;

    open spec fn view(&self) -> Failure {
        Failure {
            message: self.message@,
            name: self.name@,
            code_frame: match self.code_frame {
                Some(frame) => Some(frame@),
                None => None,
            },
        }
    }
}

impl View for CypressTest {
    type V = TestRecord;

    open spec fn view(&self) -> TestRecord {
        TestRecord {
            title: self.title@,
            full_title: self.full_title@,
            file: match self.file {
                Some(file) => Some(file@),
                None => None,
            },
            duration: self.duration,
            current_retry: self.current_retry,
            err: match self.err {
                Some(err) => Some(err@),
                None => None,
            },
        }
    }
}

/// What a list of tests holds.
pub open spec fn records(tests: Seq<CypressTest>) -> Seq<TestRecord> {
    tests.map_values(|test: CypressTest| test@)
}

impl View for CypressResults {
    type V = Report;

    open spec fn view(&self) -> Report {
        Report {
            stats: self.stats@,
            tests: records(self.tests@),
            pending: records(self.pending@),
            failures: records(self.failures@),
            passes: records(self.passes@),
        }
    }
}

/// The JSON text in the output of a run: the output from its first `{` on,
/// or `None` where it holds no `{`.
pub open spec fn json_portion(output: Seq<char>) -> Option<Seq<char>> {
    if output.contains('{') {
        Some(output.skip(first_index(output, '{')))
    } else {
        None
    }
}

/// The text that reports an output without JSON.
pub open spec fn no_json_text() -> Seq<char> {
    "No JSON found in Cypress output"@
}

/// Finds the JSON text in the output of a run, whatever noise stands before
/// it: `Ok` with the output from its first `{` on, or the error text where
/// the output holds no `{`.
pub fn extract_json_from_output(output: &str) -> (res: Result<String, String>)
    ensures
        match res {
            Ok(json) => json_portion(output@) == Some(json@),
            Err(text) => json_portion(output@) is None && text@ == no_json_text(),
        },
{
    let chars = chars_of(output);
    match find_char(&chars, '{') {
        Some(start) => {
            proof {
                lemma_first_index_unique(output@, '{', start as int);
                assert(output@.subrange(start as int, output@.len() as int) =~= output@.skip(
                    start as int,
                ));
            }
            Ok(output.substring_char(start, chars.len()).to_owned())
        },
        None => Err("No JSON found in Cypress output".to_owned()),
    }
}

/// The text that reports JSON which is not a report.
pub open spec fn parse_failure_text(detail: Seq<char>) -> Seq<char> {
    "Failed to parse Cypress JSON: "@ + detail
}

/// The error of the parse stage, from the parser's own words.
pub fn parse_failure(detail: &str) -> (text: String)
    ensures
        text@ == parse_failure_text(detail@),
{
    "Failed to parse Cypress JSON: ".to_owned().concat(detail)
}

/// The projection of one test: every field is kept.
fn filter_test(test: CypressTest) -> (out: CypressTest)
    ensures
        out@ == test@,
{
    CypressTest {
        title: test.title,
        full_title: test.full_title,
        file: test.file,
        duration: test.duration,
        current_retry: test.current_retry,
        err: match test.err {
            Some(err) => Some(
                CypressError { message: err.message, name: err.name, code_frame: err.code_frame },
            ),
            None => None,
        },
    }
}

/// The records of a list with one more test are the records of the list with
/// one more record.
proof fn lemma_records_push(tests: Seq<CypressTest>, test: CypressTest)
    ensures
        records(tests.push(test)) == records(tests).push(test@),
{
    assert(records(tests.push(test)) =~= records(tests).push(test@));
}

/// The projection of a list of tests, in their order.
fn filter_tests(tests: Vec<CypressTest>) -> (out: Vec<CypressTest>)
    ensures
        records(out@) == records(tests@),
{
    let ghost all = tests@;
    let mut out: Vec<CypressTest> = Vec::new();
    for test in it: tests
        invariant
            it.seq() == all,
            records(out@) == records(all.take(it.index() as int)),
    {
        let ghost i = it.index() as int;
        proof {
            lemma_records_push(all.take(i), test);
            assert(all.take(i + 1) =~= all.take(i).push(test));
        }
        let kept = filter_test(test);
        proof {
            lemma_records_push(out@, kept);
        }
        out.push(kept);
    }
    assert(all.take(all.len() as int) =~= all);
    out
}

/// The projection of a parsed report onto what is reported: the same shape,
/// with every field of every test kept.
pub fn filter_results(results: CypressResults) -> (out: CypressResults)
    ensures
        out@ == results@,
{
    CypressResults {
        stats: results.stats,
        tests: filter_tests(results.tests),
        pending: filter_tests(results.pending),
        failures: filter_tests(results.failures),
        passes: filter_tests(results.passes),
    }
}

/// What `extract_json_from_output` returns begins with `{`, ends the output,
/// and has no `{` before it in the output.
pub proof fn law_json_portion(output: Seq<char>)
    ensures
        json_portion(output) is Some <==> output.contains('{'),
        json_portion(output) matches Some(json) ==> {
            &&& json.len() > 0
            &&& json[0] == '{'
            &&& json.is_suffix_of(output)
            &&& !output.take(output.len() - json.len()).contains('{')
        },
{
    crate::text::lemma_first_index(output, '{');
    if output.contains('{') {
        let start = first_index(output, '{');
        let json = output.skip(start);
        assert(json[0] == output[start]);
        assert(output.skip(output.len() - json.len()) =~= json);
        let noise = output.take(output.len() - json.len());
        if noise.contains('{') {
            let w = choose|w: int| 0 <= w < noise.len() && noise[w] == '{';
            assert(output[w] == '{');
        }
    }
}

} // verus!
