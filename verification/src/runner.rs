//! The three operations of the test runner, each as the decisions around one
//! run of a process: what to start for a request, or why not, and what to
//! report once the process has ended.
//!
//! Nothing here starts a process. A request is first turned into a `Plan`;
//! whoever runs the plan hands back an `ExecutionResult`, and gets the report.
//! A request that breaks a rule is refused before any plan exists.

use vstd::prelude::*;
use crate::args::{argument_error_text, arguments_verdict, validate_arguments};
use crate::command::{
    build_invocation, build_shell_invocation, command_line, direct_invocation, shell_command,
    Invocation, InvocationText,
};
use crate::cypress::{
    extract_json_from_output, filter_results, json_portion, no_json_text, CypressResults, Report,
};
use crate::path::{normalize_path, normalized_path, FileKind};
use crate::report::{
    degraded_report, degraded_report_text, filtered_report, filtered_report_text,
    invalid_parameters, invalid_parameters_text, run_report, run_report_text, Execution,
    ExecutionResult, Stage,
};
use crate::target::{target_argument, target_error_text, target_verdict, ParsedFilePath};
use crate::text::texts;

verus! {

/// A request to run an RSpec file.
#[derive(Debug, Clone, PartialEq, Eq)]
pub struct TestRunnerArgs {
    /// The path of the file; it must end in `_spec.rb`.
    pub file: String,
    /// The lines of the tests to run; all tests of the file where `None`.
    pub line_numbers: Option<Vec<i32>>,
}

/// A request to run a Cypress file.
#[derive(Debug, Clone, PartialEq, Eq)]
pub struct CypressArgs {
    /// The path of the file; it must end in `.cy.js` or `.cy.ts`.
    pub file: String,
}

impl TestRunnerArgs {
    /// The line numbers of the request; none where it names none.
    pub open spec fn lines(&self) -> Seq<i32> {
        match self.line_numbers {
            Some(lines) => lines@,
            None => Seq::empty(),
        }
    }
}

/// What to start for a request, and the name under which it is reported.
#[derive(Debug, Clone, PartialEq, Eq)]
pub struct Plan {
    pub invocation: Invocation,
    pub label: String,
}

/// What a `Plan` holds.
pub struct PlanText {
    pub invocation: InvocationText,
    pub label: Seq<char>,
}

impl View for Plan {
    type V = PlanText;

    open spec fn view(&self) -> PlanText {
        PlanText { invocation: self.invocation@, label: self.label@ }
    }
}

/// Why no process is started for a request.
#[derive(Debug, Clone, PartialEq, Eq)]
pub enum Refusal {
    /// The request breaks a rule; the text says which.
    InvalidParameters(String),
    /// The configured command names no program.
    NoProgram,
}

/// What a `Refusal` holds.
pub enum RefusalText {
    InvalidParameters(Seq<char>),
    NoProgram,
}

impl View for Refusal {
    type V = RefusalText;

    open spec fn view(&self) -> RefusalText {
        match self {
            Refusal::InvalidParameters(text) => RefusalText::InvalidParameters(text@),
            Refusal::NoProgram => RefusalText::NoProgram,
        }
    }
}

/// What a `Result` of planning holds.
pub open spec fn planned(res: Result<Plan, Refusal>) -> Result<PlanText, RefusalText> {
    match res {
        Ok(plan) => Ok(plan@),
        Err(refusal) => Err(refusal@),
    }
}

/// The plan for running the RSpec file `file` at `lines` with the command
/// `command`: the target is validated first; its one argument then follows
/// the words of the command, and names the run.
pub open spec fn rspec_plan(command: Seq<char>, file: Seq<char>, lines: Seq<i32>) -> Result<
    PlanText,
    RefusalText,
> {
    let argument = target_argument(file, lines);
    match target_verdict(file, lines, FileKind::Rspec) {
        Err(e) => Err(RefusalText::InvalidParameters(invalid_parameters_text(target_error_text(e)))),
        Ok(()) => match direct_invocation(command, seq![argument]) {
            None => Err(RefusalText::NoProgram),
            Some(invocation) => Ok(PlanText { invocation, label: argument }),
        },
    }
}

/// The plan for running RSpec with the raw arguments `tokens` and the command
/// `command`: the list is validated first; its tokens then follow the words
/// of the command as they are, and the whole command line names the run.
pub open spec fn arguments_plan(command: Seq<char>, tokens: Seq<Seq<char>>) -> Result<
    PlanText,
    RefusalText,
> {
    match arguments_verdict(tokens) {
        Err(e) => Err(
            RefusalText::InvalidParameters(invalid_parameters_text(argument_error_text(tokens, e))),
        ),
        Ok(()) => match direct_invocation(command, tokens) {
            None => Err(RefusalText::NoProgram),
            Some(invocation) => Ok(PlanText { invocation, label: command_line(invocation) }),
        },
    }
}

/// The path that the Cypress command is given for `file`: the file as seen
/// from the working directory, where one is configured.
pub open spec fn cypress_path(directory: Option<Seq<char>>, file: Seq<char>) -> Seq<char> {
    match directory {
        Some(dir) => normalized_path(file, dir),
        None => file,
    }
}

/// The plan for running the Cypress file `file` with the command `command`:
/// the path is validated first; a shell then gets the command and the path
/// as one line, and the file as given names the run.
pub open spec fn cypress_plan(
    command: Seq<char>,
    directory: Option<Seq<char>>,
    file: Seq<char>,
) -> Result<PlanText, RefusalText> {
    match target_verdict(file, Seq::empty(), FileKind::Cypress) {
        Err(e) => Err(RefusalText::InvalidParameters(invalid_parameters_text(target_error_text(e)))),
        Ok(()) => Ok(
            PlanText {
                invocation: InvocationText::Shell {
                    command: shell_command(command, cypress_path(directory, file)),
                },
                label: file,
            },
        ),
    }
}

/// What is left to do with the output of a Cypress run.
#[derive(Debug, Clone, PartialEq, Eq)]
pub enum CypressStep {
    /// Parse this JSON text as a report.
    Parse(String),
    /// Write this report as JSON.
    Serialize(CypressResults),
    /// Nothing: this is the text to report.
    Done(String),
}

/// What a `CypressStep` holds.
pub enum CypressStepText {
    Parse(Seq<char>),
    Serialize(Report),
    Done(Seq<char>),
}

impl View for CypressStep {
    type V = CypressStepText;

    open spec fn view(&self) -> CypressStepText {
        match self {
            CypressStep::Parse(json) => CypressStepText::Parse(json@),
            CypressStep::Serialize(results) => CypressStepText::Serialize(results@),
            CypressStep::Done(text) => CypressStepText::Done(text@),
        }
    }
}

/// The step after the run: to parse the JSON text in its output, or, where
/// there is none, to report the run with its raw output.
pub open spec fn step_after_run(file: Seq<char>, run: Execution) -> CypressStepText {
    match json_portion(run.stdout) {
        Some(json) => CypressStepText::Parse(json),
        None => CypressStepText::Done(
            degraded_report_text(file, Stage::Extraction, no_json_text(), run),
        ),
    }
}

/// The step after parsing: to write the report, with every field kept, as
/// JSON, or, where the parser failed with `detail`, to report the run with
/// its raw output.
pub open spec fn step_after_parse(
    file: Seq<char>,
    run: Execution,
    parsed: Result<Report, Seq<char>>,
) -> CypressStepText {
    match parsed {
        Ok(report) => CypressStepText::Serialize(report),
        Err(detail) => CypressStepText::Done(
            degraded_report_text(file, Stage::Parsing, detail, run),
        ),
    }
}

/// The text to report after writing: the run with the JSON written, or,
/// where the writer failed with `detail`, the run with its raw output.
pub open spec fn report_after_serialize(
    file: Seq<char>,
    run: Execution,
    written: Result<Seq<char>, Seq<char>>,
) -> Seq<char> {
    match written {
        Ok(json) => filtered_report_text(file, run, json),
        Err(detail) => degraded_report_text(file, Stage::Serialization, detail, run),
    }
}

/// The configuration of the test runner: one command for each kind of test,
/// and the directory that the Cypress command runs in, if it is not the
/// project root. It does not change once made.
#[derive(Debug, Clone)]
pub struct TestRunner {
    rspec_command: String,
    cypress_command: String,
    working_directory: Option<String>,
}

impl TestRunner {
    /// The command configured for RSpec.
    pub closed spec fn rspec_command_text(&self) -> Seq<char> {
        self.rspec_command@
    }

    /// The command configured for Cypress.
    pub closed spec fn cypress_command_text(&self) -> Seq<char> {
        self.cypress_command@
    }

    /// The working directory configured for Cypress, if any.
    pub closed spec fn working_directory_text(&self) -> Option<Seq<char>> {
        match self.working_directory {
            Some(dir) => Some(dir@),
            None => None,
        }
    }

    /// A runner with the two commands and no working directory.
    pub fn new(rspec_command: String, cypress_command: String) -> (runner: Self)
        ensures
            runner.rspec_command_text() == rspec_command@,
            runner.cypress_command_text() == cypress_command@,
            runner.working_directory_text() is None,
    {
        TestRunner { rspec_command, cypress_command, working_directory: None }
    }

    /// This runner with `directory` as the working directory for Cypress.
    pub fn with_working_directory(self, directory: String) -> (runner: Self)
        ensures
            runner.rspec_command_text() == self.rspec_command_text(),
            runner.cypress_command_text() == self.cypress_command_text(),
            runner.working_directory_text() == Some(directory@),
    {
        TestRunner {
            rspec_command: self.rspec_command,
            cypress_command: self.cypress_command,
            working_directory: Some(directory),
        }
    }

    /// The command configured for RSpec.
    pub fn rspec_command(&self) -> (command: &str)
        ensures
            command@ == self.rspec_command_text(),
    {
        self.rspec_command.as_str()
    }

    /// The command configured for Cypress.
    pub fn cypress_command(&self) -> (command: &str)
        ensures
            command@ == self.cypress_command_text(),
    {
        self.cypress_command.as_str()
    }

    /// Plans the run that an RSpec request asks for.
    pub fn plan_rspec(&self, args: TestRunnerArgs) -> (res: Result<Plan, Refusal>)
        ensures
            planned(res) == rspec_plan(self.rspec_command_text(), args.file@, args.lines()),
    {
        let lines: Vec<i32> = match args.line_numbers {
            Some(lines) => lines,
            None => Vec::new(),
        };
        match ParsedFilePath::from_args(args.file.as_str(), lines) {
            Err(reason) => Err(Refusal::InvalidParameters(invalid_parameters(reason.as_str()))),
            Ok(target) => {
                let label = target.argument();
                let mut trailing: Vec<String> = Vec::new();
                trailing.push(label.clone());
                assert(texts(trailing@) =~= seq![label@]);
                match build_invocation(self.rspec_command.as_str(), trailing) {
                    None => Err(Refusal::NoProgram),
                    Some(invocation) => Ok(Plan { invocation, label }),
                }
            },
        }
    }

    /// Plans a run of RSpec with the raw arguments `tokens`.
    pub fn plan_arguments(&self, tokens: Vec<String>) -> (res: Result<Plan, Refusal>)
        ensures
            planned(res) == arguments_plan(self.rspec_command_text(), texts(tokens@)),
    {
        match validate_arguments(&tokens) {
            Err(e) => {
                let reason = e.describe(&tokens);
                Err(Refusal::InvalidParameters(invalid_parameters(reason.as_str())))
            },
            Ok(()) => match build_invocation(self.rspec_command.as_str(), tokens) {
                None => Err(Refusal::NoProgram),
                Some(invocation) => {
                    let label = invocation.command_line();
                    Ok(Plan { invocation, label })
                },
            },
        }
    }

    /// Plans the run that a Cypress request asks for.
    pub fn plan_cypress(&self, args: CypressArgs) -> (res: Result<Plan, Refusal>)
        ensures
            planned(res) == cypress_plan(
                self.cypress_command_text(),
                self.working_directory_text(),
                args.file@,
            ),
    {
        match ParsedFilePath::from_cypress_args(args.file.as_str()) {
            Err(reason) => Err(Refusal::InvalidParameters(invalid_parameters(reason.as_str()))),
            Ok(target) => {
                let path = match &self.working_directory {
                    Some(dir) => normalize_path(target.file_path.as_str(), dir.as_str()),
                    None => target.file_path.clone(),
                };
                let invocation = build_shell_invocation(
                    self.cypress_command.as_str(),
                    path.as_str(),
                );
                Ok(Plan { invocation, label: target.file_path })
            },
        }
    }

    /// Finds the JSON text in the output of a Cypress run.
    pub fn extract_json_from_cypress_output(output: &str) -> (res: Result<String, String>)
        ensures
            match res {
                Ok(json) => json_portion(output@) == Some(json@),
                Err(text) => json_portion(output@) is None && text@ == no_json_text(),
            },
    {
        extract_json_from_output(output)
    }

    /// Projects a parsed report onto what is reported.
    pub fn filter_cypress_results(results: CypressResults) -> (out: CypressResults)
        ensures
            out@ == results@,
    {
        filter_results(results)
    }
}

/// Reports a finished run of a plan for RSpec, under the plan's label.
pub fn rspec_report(plan: &Plan, run: &ExecutionResult) -> (text: String)
    ensures
        text@ == run_report_text(plan.label@, run@),
{
    run_report(plan.label.as_str(), run)
}

/// Decides what follows a finished Cypress run of `file`.
pub fn cypress_after_run(file: &str, run: &ExecutionResult) -> (step: CypressStep)
    ensures
        step@ == step_after_run(file@, run@),
{
    match extract_json_from_output(run.stdout.as_str()) {
        Ok(json) => CypressStep::Parse(json),
        Err(detail) => CypressStep::Done(
            degraded_report(file, Stage::Extraction, detail.as_str(), run),
        ),
    }
}

/// Decides what follows the parsing of the JSON text of a Cypress run of
/// `file`: `parsed` is the report, or the parser's error.
pub fn cypress_after_parse(
    file: &str,
    run: &ExecutionResult,
    parsed: Result<CypressResults, String>,
) -> (step: CypressStep)
    ensures
        step@ == step_after_parse(
            file@,
            run@,
            match parsed {
                Ok(results) => Ok(results@),
                Err(detail) => Err(detail@),
            },
        ),
{
    match parsed {
        Ok(results) => CypressStep::Serialize(filter_results(results)),
        Err(detail) => CypressStep::Done(
            degraded_report(file, Stage::Parsing, detail.as_str(), run),
        ),
    }
}

/// Reports a Cypress run of `file` once its filtered report was written:
/// `written` is the JSON, or the writer's error.
pub fn cypress_after_serialize(
    file: &str,
    run: &ExecutionResult,
    written: Result<String, String>,
) -> (text: String)
    ensures
        text@ == report_after_serialize(
            file@,
            run@,
            match written {
                Ok(json) => Ok(json@),
                Err(detail) => Err(detail@),
            },
        ),
{
    match written {
        Ok(json) => filtered_report(file, run, json.as_str()),
        Err(detail) => degraded_report(file, Stage::Serialization, detail.as_str(), run),
    }
}

/// Whatever happens to the output of a Cypress run, the text that is
/// reported in the end is never empty: a failed stage yields a report like
/// any other.
pub proof fn law_cypress_always_reports(
    file: Seq<char>,
    run: Execution,
    parsed: Result<Report, Seq<char>>,
    written: Result<Seq<char>, Seq<char>>,
)
    ensures
        step_after_run(file, run) matches CypressStepText::Done(text) ==> text.len() > 0,
        step_after_parse(file, run, parsed) matches CypressStepText::Done(text) ==> text.len() > 0,
        report_after_serialize(file, run, written).len() > 0,
{
    reveal_strlit("Test Results for: ");
}

/// No plan is made for a request that breaks a rule: where validation
/// fails, planning is refused for the parameters, whatever the configured
/// command is.
pub proof fn law_validation_precedes_planning(
    command: Seq<char>,
    directory: Option<Seq<char>>,
    file: Seq<char>,
    lines: Seq<i32>,
    tokens: Seq<Seq<char>>,
)
    ensures
        target_verdict(file, lines, FileKind::Rspec) is Err ==> rspec_plan(command, file, lines)
            matches Err(RefusalText::InvalidParameters(_)),
        arguments_verdict(tokens) is Err ==> arguments_plan(command, tokens) matches Err(
            RefusalText::InvalidParameters(_),
        ),
        target_verdict(file, Seq::empty(), FileKind::Cypress) is Err ==> cypress_plan(
            command,
            directory,
            file,
        ) matches Err(RefusalText::InvalidParameters(_)),
{
}

} // verus!
