//! What a finished run looks like, and the text that reports it.
//!
//! A run that ended with a failing exit code is reported like any other: the
//! code is part of the text. A stage of the Cypress pipeline that failed
//! changes the text, never the outcome: the raw output is reported in place
//! of the filtered one.

use vstd::prelude::*;
use vstd::string::StringExecFns;
use crate::decimal::{append_i32, decimal};
use crate::text::{has_substring, occurs_at};

verus! {

/// What a finished process left behind.
#[derive(Debug, Clone, PartialEq, Eq)]
pub struct ExecutionResult {
    /// The exit code, or `None` where the process ended without one.
    pub exit_code: Option<i32>,
    pub stdout: String,
    pub stderr: String,
}

/// What an `ExecutionResult` holds.
pub struct Execution {
    pub exit_code: Option<i32>,
    pub stdout: Seq<char>,
    pub stderr: Seq<char>,
}

impl View for ExecutionResult {
    type V = Execution;

    open spec fn view(&self) -> Execution {
        Execution { exit_code: self.exit_code, stdout: self.stdout@, stderr: self.stderr@ }
    }
}

/// The exit code as reported: the code itself, or -1 where there is none.
pub open spec fn reported_status(run: Execution) -> int {
    match run.exit_code {
        Some(code) => code as int,
        None => -1,
    }
}

/// The stage of the Cypress pipeline that failed.
#[derive(Clone, Copy, Debug, PartialEq, Eq, Structural)]
pub enum Stage {
    /// No JSON text was found in the output.
    Extraction,
    /// The JSON text is not a report.
    Parsing,
    /// The filtered report could not be written as JSON.
    Serialization,
}

/// The name of a stage in a report.
pub open spec fn stage_name(stage: Stage) -> Seq<char> {
    match stage {
        Stage::Extraction => "extraction"@,
        Stage::Parsing => "parsing"@,
        Stage::Serialization => "serialization"@,
    }
}

/// The lines of a report from the exit code on, with the raw output.
pub open spec fn raw_output_text(run: Execution) -> Seq<char> {
    "\nExit Code: "@ + decimal(reported_status(run)) + "\n\nOutput:\n"@ + run.stdout
        + "\n\nErrors:\n"@ + run.stderr
}

/// The report of a run of `label`: the label, the exit code, and what the
/// process wrote to its output and to its error stream, each as it is.
pub open spec fn run_report_text(label: Seq<char>, run: Execution) -> Seq<char> {
    "Test Results for: "@ + label + raw_output_text(run)
}

/// The report of a Cypress run whose output went through every stage: the
/// file, the exit code and the filtered report as JSON.
pub open spec fn filtered_report_text(file: Seq<char>, run: Execution, json: Seq<char>) -> Seq<
    char,
> {
    "Test Results for: "@ + file + "\nExit Code: "@ + decimal(reported_status(run))
        + "\n\nFiltered Results:\n"@ + json
}

/// The report of a Cypress run of which `stage` failed with `detail`: the
/// file, what failed, and the run as `run_report_text` shows it.
pub open spec fn degraded_report_text(
    file: Seq<char>,
    stage: Stage,
    detail: Seq<char>,
    run: Execution,
) -> Seq<char> {
    "Test Results for: "@ + file + " (JSON "@ + stage_name(stage) + " failed: "@ + detail + ")"@
        + raw_output_text(run)
}

/// The text of a request that was refused for its parameters.
pub open spec fn invalid_parameters_text(reason: Seq<char>) -> Seq<char> {
    "Invalid parameters: "@ + reason
}

/// The text of a request whose process could not be started.
pub open spec fn command_failed_text(reason: Seq<char>) -> Seq<char> {
    "Command failed: "@ + reason
}

impl ExecutionResult {
    /// The exit code as reported: the code itself, or -1 where there is none.
    pub fn status(&self) -> (code: i32)
        ensures
            code == reported_status(self@),
    {
        match self.exit_code {
            Some(code) => code,
            None => -1,
        }
    }
}

impl Stage {
    /// The name of this stage in a report.
    pub fn name(&self) -> (text: &'static str)
        ensures
            text@ == stage_name(*self),
    {
        match self {
            Stage::Extraction => "extraction",
            Stage::Parsing => "parsing",
            Stage::Serialization => "serialization",
        }
    }
}

/// Appends the lines from the exit code on, with the raw output.
fn append_raw_output(text: &mut String, run: &ExecutionResult)
    ensures
        final(text)@ == old(text)@ + raw_output_text(run@),
{
    text.append("\nExit Code: ");
    append_i32(text, run.status());
    text.append("\n\nOutput:\n");
    text.append(run.stdout.as_str());
    text.append("\n\nErrors:\n");
    text.append(run.stderr.as_str());
    assert(final(text)@ =~= old(text)@ + raw_output_text(run@));
}

/// Writes the report of a run of `label`.
pub fn run_report(label: &str, run: &ExecutionResult) -> (text: String)
    ensures
        text@ == run_report_text(label@, run@),
{
    let mut text = "Test Results for: ".to_owned();
    text.append(label);
    append_raw_output(&mut text, run);
    text
}

/// Writes the report of a Cypress run whose output went through every stage.
pub fn filtered_report(file: &str, run: &ExecutionResult, json: &str) -> (text: String)
    ensures
        text@ == filtered_report_text(file@, run@, json@),
{
    let mut text = "Test Results for: ".to_owned();
    text.append(file);
    text.append("\nExit Code: ");
    append_i32(&mut text, run.status());
    text.append("\n\nFiltered Results:\n");
    text.append(json);
    text
}

/// Writes the report of a Cypress run of which `stage` failed with `detail`.
pub fn degraded_report(file: &str, stage: Stage, detail: &str, run: &ExecutionResult) -> (text:
    String)
    ensures
        text@ == degraded_report_text(file@, stage, detail@, run@),
{
    let mut text = "Test Results for: ".to_owned();
    text.append(file);
    text.append(" (JSON ");
    text.append(stage.name());
    text.append(" failed: ");
    text.append(detail);
    text.append(")");
    append_raw_output(&mut text, run);
    text
}

/// Writes the text of a request that was refused for its parameters.
pub fn invalid_parameters(reason: &str) -> (text: String)
    ensures
        text@ == invalid_parameters_text(reason@),
{
    "Invalid parameters: ".to_owned().concat(reason)
}

/// Writes the text of a request whose process could not be started.
pub fn command_failed(reason: &str) -> (text: String)
    ensures
        text@ == command_failed_text(reason@),
{
    "Command failed: ".to_owned().concat(reason)
}

/// The lines from the exit code on hold the exit code as reported, then
/// the output of the process whole, and end with its error stream.
pub proof fn law_raw_output_is_kept(run: Execution)
    ensures
        ("\nExit Code: "@ + decimal(reported_status(run))).is_prefix_of(raw_output_text(run)),
        has_substring(raw_output_text(run), run.stdout),
        run.stderr.is_suffix_of(raw_output_text(run)),
{
    let text = raw_output_text(run);
    let head = "\nExit Code: "@ + decimal(reported_status(run));
    let upto = head + "\n\nOutput:\n"@;
    assert(text =~= upto + run.stdout + "\n\nErrors:\n"@ + run.stderr);
    assert(text.take(head.len() as int) =~= head);
    assert(text.subrange(upto.len() as int, (upto.len() + run.stdout.len()) as int)
        =~= run.stdout);
    assert(occurs_at(text, run.stdout, upto.len() as int));
    assert(text.skip(text.len() - run.stderr.len()) =~= run.stderr);
}

/// `part` occurs in every text that ends with a text in which it occurs.
proof fn lemma_substring_of_tail(head: Seq<char>, tail: Seq<char>, part: Seq<char>)
    requires
        has_substring(tail, part),
    ensures
        has_substring(head + tail, part),
{
    let at = choose|at: int| occurs_at(tail, part, at);
    let text = head + tail;
    assert(text.subrange(head.len() + at, head.len() + at + part.len()) =~= tail.subrange(
        at,
        at + part.len(),
    ));
    assert(occurs_at(text, part, head.len() + at));
}

/// The report of a run, and the report of a Cypress run of which a stage
/// failed, hold the exit code, the output and the error stream of the
/// process as they are: a failed stage loses nothing of the run.
pub proof fn law_reports_keep_the_run(
    label: Seq<char>,
    stage: Stage,
    detail: Seq<char>,
    run: Execution,
)
    ensures
        has_substring(run_report_text(label, run), run.stdout),
        run.stderr.is_suffix_of(run_report_text(label, run)),
        has_substring(
            run_report_text(label, run),
            "\nExit Code: "@ + decimal(reported_status(run)),
        ),
        has_substring(degraded_report_text(label, stage, detail, run), run.stdout),
        run.stderr.is_suffix_of(degraded_report_text(label, stage, detail, run)),
        has_substring(
            degraded_report_text(label, stage, detail, run),
            "\nExit Code: "@ + decimal(reported_status(run)),
        ),
        has_substring(degraded_report_text(label, stage, detail, run), stage_name(stage)),
{
    law_raw_output_is_kept(run);
    let tail = raw_output_text(run);
    let code = "\nExit Code: "@ + decimal(reported_status(run));
    assert(occurs_at(tail, code, 0)) by {
        assert(tail.subrange(0, code.len() as int) =~= tail.take(code.len() as int));
    }
    let plain = "Test Results for: "@ + label;
    lemma_substring_of_tail(plain, tail, run.stdout);
    lemma_substring_of_tail(plain, tail, code);
    assert((plain + tail).skip((plain + tail).len() - run.stderr.len()) =~= tail.skip(
        tail.len() - run.stderr.len(),
    ));
    let before = "Test Results for: "@ + label + " (JSON "@;
    let named = before + stage_name(stage);
    let degraded = named + " failed: "@ + detail + ")"@;
    lemma_substring_of_tail(degraded, tail, run.stdout);
    lemma_substring_of_tail(degraded, tail, code);
    assert((degraded + tail).skip((degraded + tail).len() - run.stderr.len()) =~= tail.skip(
        tail.len() - run.stderr.len(),
    ));
    let text = degraded_report_text(label, stage, detail, run);
    assert(text =~= degraded + tail);
    assert(text.subrange(before.len() as int, (before.len() + stage_name(stage).len()) as int)
        =~= stage_name(stage));
    assert(occurs_at(text, stage_name(stage), before.len() as int));
}

} // verus!
