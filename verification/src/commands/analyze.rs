//! The command that analyzes a directory, as a driver that is advanced one
//! event at a time. The driver does no outside work itself: each step says
//! what is to be shown and asks the caller for the next piece of work.

use crate::console::{blank, put, put_all, Channel, Color, Line, LineModel, Style};
use crate::error::{RunError, RunErrorModel};
use crate::model::{
    copy_findings, AnalysisOptions, AnalysisOptionsModel, AnalysisResult, AnalysisResultModel,
    Finding, FindingModel,
};
use crate::options::{resolve, resolution_warnings, resolved_options};
use crate::report::{ast_path, ast_path_of, normalize_report_path, report_path};
use crate::reporter::{finding_lines, render_findings, render_summary, summary_lines};
use crate::text::{decimal, decimal_text};
use vstd::prelude::*;

verus! {

/// The parameters of a run.
#[derive(Clone, Debug, PartialEq, Eq)]
pub struct RunRequest {
    /// The directory to analyze.
    pub path: String,
    /// A directory of rule templates of the user's own.
    pub templates: Option<String>,
    /// Where to write a report; without it the findings go to the console.
    pub output: Option<String>,
    /// Whether to write the syntax tree of each source file beside it.
    pub generate_ast: bool,
    /// A comma-separated list of severities to ignore.
    pub ignore: Option<String>,
    /// A comma-separated list of rule identifiers to ignore.
    pub ignore_rules: Option<String>,
    /// The kinds of rule to run, each by its name; every kind where none
    /// is named.
    pub include_rule_types: Vec<String>,
    /// Whether to show the code and the recommendations of each finding.
    pub verbose: bool,
    /// Whether to keep the standard output empty.
    pub quiet: bool,
}

/// Where a run stands, with what it carries along.
#[derive(Clone, Debug, PartialEq, Eq)]
pub enum Stage {
    /// Waiting to learn whether the path is an existing directory.
    ValidatingPath,
    /// Waiting for the source files of the directory.
    Discovering,
    /// Waiting for the syntax tree of `files[written]` to be written to
    /// `target`.
    EmittingAst { files: Vec<String>, written: usize, target: String },
    /// About to resolve the options for the engine.
    BuildingOptions,
    /// Waiting for the engine.
    Analyzing,
    /// About to summarize the result.
    Aggregating { result: AnalysisResult },
    /// About to show the findings, or waiting for the report to be written
    /// to `path`.
    Reporting { result: AnalysisResult, path: Option<String> },
    /// The run is complete.
    Done,
    /// The run was given up.
    Failed { error: RunError },
}

/// A run in progress.
#[derive(Clone, Debug, PartialEq, Eq)]
pub struct Pipeline {
    pub request: RunRequest,
    pub stage: Stage,
}

/// What the caller found out in answer to the last request.
#[derive(Debug, PartialEq, Eq)]
pub enum Event {
    /// The path was looked at.
    PathChecked { exists: bool, is_directory: bool },
    /// The directory was searched; these are its source files.
    Discovered { files: Vec<String> },
    /// A syntax tree was written, or could not be.
    AstWritten { outcome: Result<(), String> },
    /// There was nothing to do.
    Proceed,
    /// The engine is done; `elapsed` is the time since the run began, in
    /// seconds, as it is to be shown.
    Analyzed { result: Result<AnalysisResult, String>, elapsed: String },
    /// The report was written, or could not be.
    ReportSaved { outcome: Result<(), String> },
}

/// What the caller is asked to do next.
#[derive(Clone, Debug, PartialEq, Eq)]
pub enum Request {
    /// Look whether the path exists and is a directory.
    CheckPath { path: String },
    /// Search the directory for source files and parse them.
    Discover { path: String },
    /// Write the syntax tree of a source file to the target.
    WriteAst { source: String, target: String },
    /// Nothing; go on.
    Proceed,
    /// Run the engine once, on all the source files, with these options.
    Analyze { options: AnalysisOptions },
    /// Write the report of these findings to the path, with the project's
    /// identifier. The findings are those of the engine's result, all of
    /// them and in its order.
    SaveReport { path: String, project: String, findings: Vec<Finding> },
    /// Nothing more: the run is over.
    Finish,
}

/// What a step gives: the lines to show, in their order, and the next
/// request.
#[derive(Clone, Debug, PartialEq, Eq)]
pub struct Transition {
    pub output: Vec<Line>,
    pub request: Request,
}

/// The model of [`RunRequest`] that the contracts speak of.
pub struct RunRequestModel {
    pub path: Seq<char>,
    pub templates: Option<Seq<char>>,
    pub output: Option<Seq<char>>,
    pub generate_ast: bool,
    pub ignore: Option<Seq<char>>,
    pub ignore_rules: Option<Seq<char>>,
    pub include_rule_types: Seq<Seq<char>>,
    pub verbose: bool,
    pub quiet: bool,
}

/// The model of [`Stage`] that the contracts speak of.
pub enum StageModel {
    ValidatingPath,
    Discovering,
    EmittingAst { files: Seq<Seq<char>>, written: nat, target: Seq<char> },
    BuildingOptions,
    Analyzing,
    Aggregating { result: AnalysisResultModel },
    Reporting { result: AnalysisResultModel, path: Option<Seq<char>> },
    Done,
    Failed { error: RunErrorModel },
}

/// The model of [`Pipeline`] that the contracts speak of.
pub struct PipelineModel {
    pub request: RunRequestModel,
    pub stage: StageModel,
}

/// The model of [`Event`] that the contracts speak of.
pub enum EventModel {
    PathChecked { exists: bool, is_directory: bool },
    Discovered { files: Seq<Seq<char>> },
    AstWritten { outcome: Result<(), Seq<char>> },
    Proceed,
    Analyzed { result: Result<AnalysisResultModel, Seq<char>>, elapsed: Seq<char> },
    ReportSaved { outcome: Result<(), Seq<char>> },
}

/// The model of [`Request`] that the contracts speak of.
pub enum RequestModel {
    CheckPath { path: Seq<char> },
    Discover { path: Seq<char> },
    WriteAst { source: Seq<char>, target: Seq<char> },
    Proceed,
    Analyze { options: AnalysisOptionsModel },
    SaveReport { path: Seq<char>, project: Seq<char>, findings: Seq<FindingModel> },
    Finish,
}

/// The model of [`Transition`] that the contracts speak of.
pub struct TransitionModel {
    pub output: Seq<LineModel>,
    pub request: RequestModel,
}

impl DeepView for RunRequest {
    type V = RunRequestModel;

    open spec fn deep_view(&self) -> RunRequestModel {
        RunRequestModel {
            path: self.path@,
            templates: self.templates.deep_view(),
            output: self.output.deep_view(),
            generate_ast: self.generate_ast,
            ignore: self.ignore.deep_view(),
            ignore_rules: self.ignore_rules.deep_view(),
            include_rule_types: self.include_rule_types.deep_view(),
            verbose: self.verbose,
            quiet: self.quiet,
        }
    }
}

impl DeepView for Stage {
    type V = StageModel;

    open spec fn deep_view(&self) -> StageModel {
        match self {
            Stage::ValidatingPath => StageModel::ValidatingPath,
            Stage::Discovering => StageModel::Discovering,
            Stage::EmittingAst { files, written, target } => StageModel::EmittingAst {
                files: files.deep_view(),
                written: *written as nat,
                target: target@,
            },
            Stage::BuildingOptions => StageModel::BuildingOptions,
            Stage::Analyzing => StageModel::Analyzing,
            Stage::Aggregating { result } => StageModel::Aggregating {
                result: result.deep_view(),
            },
            Stage::Reporting { result, path } => StageModel::Reporting {
                result: result.deep_view(),
                path: path.deep_view(),
            },
            Stage::Done => StageModel::Done,
            Stage::Failed { error } => StageModel::Failed { error: error.deep_view() },
        }
    }
}

impl DeepView for Pipeline {
    type V = PipelineModel;

    open spec fn deep_view(&self) -> PipelineModel {
        PipelineModel { request: self.request.deep_view(), stage: self.stage.deep_view() }
    }
}

/// The outcome of a piece of work that gives nothing back but its failure.
pub open spec fn outcome_model(outcome: Result<(), String>) -> Result<(), Seq<char>> {
    match outcome {
        Ok(_) => Ok(()),
        Err(message) => Err(message@),
    }
}

impl DeepView for Event {
    type V = EventModel;

    open spec fn deep_view(&self) -> EventModel {
        match self {
            Event::PathChecked { exists, is_directory } => EventModel::PathChecked {
                exists: *exists,
                is_directory: *is_directory,
            },
            Event::Discovered { files } => EventModel::Discovered { files: files.deep_view() },
            Event::AstWritten { outcome } => EventModel::AstWritten {
                outcome: outcome_model(*outcome),
            },
            Event::Proceed => EventModel::Proceed,
            Event::Analyzed { result, elapsed } => EventModel::Analyzed {
                result: match result {
                    Ok(result) => Ok(result.deep_view()),
                    Err(message) => Err(message@),
                },
                elapsed: elapsed@,
            },
            Event::ReportSaved { outcome } => EventModel::ReportSaved {
                outcome: outcome_model(*outcome),
            },
        }
    }
}

impl DeepView for Request {
    type V = RequestModel;

    open spec fn deep_view(&self) -> RequestModel {
        match self {
            Request::CheckPath { path } => RequestModel::CheckPath { path: path@ },
            Request::Discover { path } => RequestModel::Discover { path: path@ },
            Request::WriteAst { source, target } => RequestModel::WriteAst {
                source: source@,
                target: target@,
            },
            Request::Proceed => RequestModel::Proceed,
            Request::Analyze { options } => RequestModel::Analyze { options: options.deep_view() },
            Request::SaveReport { path, project, findings } => RequestModel::SaveReport {
                path: path@,
                project: project@,
                findings: findings.deep_view(),
            },
            Request::Finish => RequestModel::Finish,
        }
    }
}

impl DeepView for Transition {
    type V = TransitionModel;

    open spec fn deep_view(&self) -> TransitionModel {
        TransitionModel { output: self.output.deep_view(), request: self.request.deep_view() }
    }
}

impl StageModel {
    /// Whether the run is over.
    pub open spec fn is_terminal(self) -> bool {
        self is Done || self is Failed
    }

    /// The place of the stage in the course of a run.
    pub open spec fn order(self) -> nat {
        match self {
            StageModel::ValidatingPath => 0,
            StageModel::Discovering => 1,
            StageModel::EmittingAst { .. } => 2,
            StageModel::BuildingOptions => 3,
            StageModel::Analyzing => 4,
            StageModel::Aggregating { .. } => 5,
            StageModel::Reporting { .. } => 6,
            StageModel::Done => 7,
            StageModel::Failed { .. } => 7,
        }
    }
}

/// The lines, or none of them where the run is quiet.
pub open spec fn unless(quiet: bool, lines: Seq<LineModel>) -> Seq<LineModel> {
    if quiet {
        Seq::<LineModel>::empty()
    } else {
        lines
    }
}

/// An empty line of the error output.
pub open spec fn blank_error() -> LineModel {
    LineModel::on(Channel::Stderr)
}

/// The rows of the banner.
pub open spec fn banner_rows() -> Seq<Seq<char>> {
    seq![
        "███████╗██╗      ██████╗ ██╗███████╗███████╗██████╗ "@,
        "██╔════╝██║     ██╔═══██╗██║╚══███╔╝██╔════╝██╔══██╗"@,
        "█████╗  ██║     ██║   ██║██║  ███╔╝ █████╗  ██████╔╝"@,
        "██╔══╝  ██║     ██║   ██║██║ ███╔╝  ██╔══╝  ██╔══██╗"@,
        "███████╗███████╗╚██████╔╝██║███████╗███████╗██║  ██║"@,
        "╚══════╝╚══════╝ ╚═════╝ ╚═╝╚══════╝╚══════╝╚═╝  ╚═╝                                                                                                                                                                                                                                                                             "@,
    ]
}

/// The banner: an empty line, the rows, and a line of four spaces.
pub open spec fn banner_lines() -> Seq<LineModel> {
    seq![blank()] + banner_rows().map_values(
        |row: Seq<char>| blank().styled(row, Style::Strong(Color::BrightCyan)),
    ) + seq![blank().styled("    "@, Style::Strong(Color::BrightCyan))]
}

/// The line of the error output that says that nothing is at the path.
pub open spec fn path_missing_line(path: Seq<char>) -> LineModel {
    blank_error().styled("✗"@, Style::Strong(Color::Red)).plain(" Path does not exist: "@).styled(
        path,
        Style::Tint(Color::Yellow),
    )
}

/// The line of the error output that says that the path is no directory.
pub open spec fn not_a_directory_line(path: Seq<char>) -> LineModel {
    blank_error().styled("✗"@, Style::Strong(Color::Red)).plain(
        " Path is not a directory: "@,
    ).styled(path, Style::Tint(Color::Yellow))
}

/// The notice that the directory is being analyzed.
pub open spec fn analyzing_lines(path: Seq<char>) -> Seq<LineModel> {
    seq![
        blank(),
        blank().styled("→"@, Style::Strong(Color::Cyan)).plain(" Analyzing directory: "@).styled(
            path,
            Style::Tint(Color::BrightBlue),
        ),
        blank(),
    ]
}

/// The notice of the error output that the directory holds no source file.
pub open spec fn no_files_lines(path: Seq<char>) -> Seq<LineModel> {
    seq![
        blank_error(),
        blank_error().styled("⚠"@, Style::Strong(Color::Yellow)).plain(
            " No Rust files found in "@,
        ).styled(path, Style::Tint(Color::Yellow)),
    ]
}

/// The notice of how many source files were found.
pub open spec fn found_lines(count: nat) -> Seq<LineModel> {
    seq![
        blank().styled("✓"@, Style::Strong(Color::Green)).plain(" Found "@).styled(
            decimal(count),
            Style::Strong(Color::BrightGreen),
        ).plain(" Rust file(s) to analyze"@),
        blank(),
    ]
}

/// The notice that syntax trees are being written.
pub open spec fn generating_lines() -> Seq<LineModel> {
    seq![
        blank().styled("→"@, Style::Strong(Color::Cyan)).plain(" Generating AST JSON files..."@),
        blank(),
    ]
}

/// The line that names a syntax tree that was written.
pub open spec fn written_line(target: Seq<char>) -> LineModel {
    blank().plain("  "@).styled("✓"@, Style::Tint(Color::Green)).plain(" "@).styled(
        target,
        Style::Dimmed,
    )
}

/// The notice that the engine is being run.
pub open spec fn running_lines() -> Seq<LineModel> {
    seq![blank().styled("🔍"@, Style::Bold).plain(" Running security analysis..."@), blank()]
}

/// The notice that the engine is done, with the time that the run took.
pub open spec fn completed_lines(elapsed: Seq<char>) -> Seq<LineModel> {
    seq![
        blank().styled("✓"@, Style::Strong(Color::Green)).plain(
            " Analysis completed in "@ + elapsed + "s"@,
        ),
        blank(),
    ]
}

/// The notice of the error output that the engine failed, with its message.
pub open spec fn analysis_failed_lines(message: Seq<char>) -> Seq<LineModel> {
    seq![
        blank_error(),
        blank_error().styled("✗"@, Style::Strong(Color::Red)).plain(" Analysis failed: "@).styled(
            message,
            Style::Tint(Color::Red),
        ),
    ]
}

/// The notice that the report was written.
pub open spec fn saved_lines(path: Seq<char>) -> Seq<LineModel> {
    seq![
        blank(),
        blank().styled("📄"@, Style::Bold).plain(" Report saved to: "@).styled(
            path,
            Style::Tint(Color::BrightGreen),
        ),
        blank(),
    ]
}

/// The notice of the error output that the report could not be written.
pub open spec fn save_failed_lines(message: Seq<char>) -> Seq<LineModel> {
    seq![
        blank_error(),
        blank_error().styled("✗"@, Style::Strong(Color::Red)).plain(
            " Failed to save report: "@,
        ).styled(message, Style::Tint(Color::Red)),
        blank_error(),
    ]
}

/// The notice that the run is complete.
pub open spec fn success_lines() -> Seq<LineModel> {
    seq![
        blank(),
        blank().styled("✓"@, Style::Strong(Color::Green)).plain(
            " Analysis completed successfully!"@,
        ),
        blank(),
    ]
}

/// A step that ends the run in failure.
pub open spec fn failing(error: RunErrorModel, output: Seq<LineModel>) -> (
    StageModel,
    TransitionModel,
) {
    (StageModel::Failed { error }, TransitionModel { output, request: RequestModel::Finish })
}

/// How a run begins: with the banner, unless it is quiet, and the request
/// to look at the path.
pub open spec fn beginning(request: RunRequestModel) -> (PipelineModel, TransitionModel) {
    (
        PipelineModel { request, stage: StageModel::ValidatingPath },
        TransitionModel {
            output: unless(request.quiet, banner_lines()),
            request: RequestModel::CheckPath { path: request.path },
        },
    )
}

/// The step after the path was looked at: the run fails unless the path is
/// an existing directory, and else goes on to search it.
pub open spec fn after_path_check(request: RunRequestModel, exists: bool, is_directory: bool) -> (
    StageModel,
    TransitionModel,
) {
    if !exists {
        failing(
            RunErrorModel::PathMissing { path: request.path },
            seq![path_missing_line(request.path)],
        )
    } else if !is_directory {
        failing(
            RunErrorModel::NotADirectory { path: request.path },
            seq![not_a_directory_line(request.path)],
        )
    } else {
        (
            StageModel::Discovering,
            TransitionModel {
                output: unless(request.quiet, analyzing_lines(request.path)),
                request: RequestModel::Discover { path: request.path },
            },
        )
    }
}

/// The step after the directory was searched. Without source files the run
/// is complete, with a notice and without the engine. Else it goes on to the
/// syntax trees where they were asked for, and to the options where not.
pub open spec fn after_discovery(request: RunRequestModel, files: Seq<Seq<char>>) -> (
    StageModel,
    TransitionModel,
) {
    if files.len() == 0 {
        (
            StageModel::Done,
            TransitionModel { output: no_files_lines(request.path), request: RequestModel::Finish },
        )
    } else if request.generate_ast {
        (
            StageModel::EmittingAst { files, written: 0, target: ast_path(files[0]) },
            TransitionModel {
                output: unless(request.quiet, found_lines(files.len()) + generating_lines()),
                request: RequestModel::WriteAst { source: files[0], target: ast_path(files[0]) },
            },
        )
    } else {
        (
            StageModel::BuildingOptions,
            TransitionModel {
                output: unless(request.quiet, found_lines(files.len())),
                request: RequestModel::Proceed,
            },
        )
    }
}

/// The step after a syntax tree was written, or could not be. A failure
/// ends the run. Else the next source file has its turn, and after the last
/// the run goes on to the options.
pub open spec fn after_ast_written(
    request: RunRequestModel,
    files: Seq<Seq<char>>,
    written: nat,
    target: Seq<char>,
    outcome: Result<(), Seq<char>>,
) -> (StageModel, TransitionModel) {
    match outcome {
        Err(message) => failing(RunErrorModel::AstWrite { message }, Seq::empty()),
        Ok(_) => if written + 1 < files.len() {
            (
                StageModel::EmittingAst {
                    files,
                    written: written + 1,
                    target: ast_path(files[written as int + 1]),
                },
                TransitionModel {
                    output: unless(request.quiet, seq![written_line(target)]),
                    request: RequestModel::WriteAst {
                        source: files[written as int + 1],
                        target: ast_path(files[written as int + 1]),
                    },
                },
            )
        } else {
            (
                StageModel::BuildingOptions,
                TransitionModel {
                    output: unless(request.quiet, seq![written_line(target), blank()]),
                    request: RequestModel::Proceed,
                },
            )
        },
    }
}

/// The step that resolves the options and asks for the engine. The
/// warnings of the resolution are shown also where the run is quiet.
pub open spec fn after_building(request: RunRequestModel) -> (StageModel, TransitionModel) {
    (
        StageModel::Analyzing,
        TransitionModel {
            output: unless(request.quiet, running_lines()) + resolution_warnings(
                request.ignore,
                request.include_rule_types,
            ),
            request: RequestModel::Analyze {
                options: resolved_options(
                    request.generate_ast,
                    request.templates,
                    request.ignore,
                    request.ignore_rules,
                    request.include_rule_types,
                ),
            },
        },
    )
}

/// The step after the engine is done. Its failure ends the run, with its
/// message; its result is kept for the summary.
pub open spec fn after_analysis(
    request: RunRequestModel,
    outcome: Result<AnalysisResultModel, Seq<char>>,
    elapsed: Seq<char>,
) -> (StageModel, TransitionModel) {
    match outcome {
        Err(message) => failing(
            RunErrorModel::AnalysisFailed { message },
            analysis_failed_lines(message),
        ),
        Ok(result) => (
            StageModel::Aggregating { result },
            TransitionModel {
                output: unless(request.quiet, completed_lines(elapsed)),
                request: RequestModel::Proceed,
            },
        ),
    }
}

/// The step that shows the summary. Where a report was asked for, the
/// caller is asked to write it, under the path that a report gets.
pub open spec fn after_aggregation(request: RunRequestModel, result: AnalysisResultModel) -> (
    StageModel,
    TransitionModel,
) {
    match request.output {
        Some(requested) => (
            StageModel::Reporting { result, path: Some(report_path(requested)) },
            TransitionModel {
                output: unless(request.quiet, summary_lines(result)),
                request: RequestModel::SaveReport {
                    path: report_path(requested),
                    project: request.path,
                    findings: result.findings,
                },
            },
        ),
        None => (
            StageModel::Reporting { result, path: None },
            TransitionModel {
                output: unless(request.quiet, summary_lines(result)),
                request: RequestModel::Proceed,
            },
        ),
    }
}

/// The last step of a run without a report: the findings in detail.
pub open spec fn after_display(request: RunRequestModel, result: AnalysisResultModel) -> (
    StageModel,
    TransitionModel,
) {
    (
        StageModel::Done,
        TransitionModel {
            output: unless(
                request.quiet,
                finding_lines(result.findings, request.verbose) + success_lines(),
            ),
            request: RequestModel::Finish,
        },
    )
}

/// The last step of a run with a report: the run is complete where the
/// report was written, and fails where it could not be.
pub open spec fn after_report(
    request: RunRequestModel,
    path: Seq<char>,
    outcome: Result<(), Seq<char>>,
) -> (StageModel, TransitionModel) {
    match outcome {
        Err(message) => failing(
            RunErrorModel::ReportFailed { message },
            save_failed_lines(message),
        ),
        Ok(_) => (
            StageModel::Done,
            TransitionModel {
                output: unless(request.quiet, saved_lines(path) + success_lines()),
                request: RequestModel::Finish,
            },
        ),
    }
}

/// What a step does, stage by stage. A run that is over stays as it is and
/// asks for nothing. An event that does not answer the request of the stage
/// ends the run in failure.
pub open spec fn next_stage(pipeline: PipelineModel, event: EventModel) -> (
    StageModel,
    TransitionModel,
) {
    let request = pipeline.request;
    match (pipeline.stage, event) {
        (StageModel::Done, _) => (
            StageModel::Done,
            TransitionModel { output: Seq::empty(), request: RequestModel::Finish },
        ),
        (StageModel::Failed { error }, _) => failing(error, Seq::empty()),
        (
            StageModel::ValidatingPath,
            EventModel::PathChecked { exists, is_directory },
        ) => after_path_check(request, exists, is_directory),
        (StageModel::Discovering, EventModel::Discovered { files }) => after_discovery(
            request,
            files,
        ),
        (
            StageModel::EmittingAst { files, written, target },
            EventModel::AstWritten { outcome },
        ) => after_ast_written(request, files, written, target, outcome),
        (StageModel::BuildingOptions, EventModel::Proceed) => after_building(request),
        (StageModel::Analyzing, EventModel::Analyzed { result, elapsed }) => after_analysis(
            request,
            result,
            elapsed,
        ),
        (StageModel::Aggregating { result }, EventModel::Proceed) => after_aggregation(
            request,
            result,
        ),
        (StageModel::Reporting { result, path: None }, EventModel::Proceed) => after_display(
            request,
            result,
        ),
        (
            StageModel::Reporting { result, path: Some(path) },
            EventModel::ReportSaved { outcome },
        ) => after_report(request, path, outcome),
        _ => failing(RunErrorModel::UnexpectedEvent, Seq::empty()),
    }
}

/// The run after a step, and what the step gives. The parameters of the
/// run stay as they are.
pub open spec fn advance(pipeline: PipelineModel, event: EventModel) -> (
    PipelineModel,
    TransitionModel,
) {
    let (stage, transition) = next_stage(pipeline, event);
    (PipelineModel { request: pipeline.request, stage }, transition)
}

/// No lines.
fn no_lines() -> (lines: Vec<Line>)
    ensures
        lines.deep_view() == Seq::<LineModel>::empty(),
{
    let lines: Vec<Line> = Vec::new();
    lines
}

/// The lines, or none of them where the run is quiet.
fn unless_quiet(quiet: bool, lines: Vec<Line>) -> (shown: Vec<Line>)
    ensures
        shown.deep_view() == unless(quiet, lines.deep_view()),
{
    if quiet {
        no_lines()
    } else {
        lines
    }
}

/// The banner.
fn banner() -> (lines: Vec<Line>)
    ensures
        lines.deep_view() == banner_lines(),
{
    let style = Style::Strong(Color::BrightCyan);
    let mut lines = no_lines();
    put(&mut lines, Line::blank());
    put(&mut lines, Line::blank().styled("███████╗██╗      ██████╗ ██╗███████╗███████╗██████╗ ", style));
    put(&mut lines, Line::blank().styled("██╔════╝██║     ██╔═══██╗██║╚══███╔╝██╔════╝██╔══██╗", style));
    put(&mut lines, Line::blank().styled("█████╗  ██║     ██║   ██║██║  ███╔╝ █████╗  ██████╔╝", style));
    put(&mut lines, Line::blank().styled("██╔══╝  ██║     ██║   ██║██║ ███╔╝  ██╔══╝  ██╔══██╗", style));
    put(&mut lines, Line::blank().styled("███████╗███████╗╚██████╔╝██║███████╗███████╗██║  ██║", style));
    put(&mut lines, Line::blank().styled("╚══════╝╚══════╝ ╚═════╝ ╚═╝╚══════╝╚══════╝╚═╝  ╚═╝                                                                                                                                                                                                                                                                             ", style));
    put(&mut lines, Line::blank().styled("    ", style));
    lines
}

/// A line of the error output: a mark, a message, and what the message is
/// about.
fn complaint(mark: &str, color: Color, message: &str, subject: &str, tint: Color) -> (line: Line)
    ensures
        line.deep_view() == blank_error().styled(mark@, Style::Strong(color)).plain(
            message@,
        ).styled(subject@, Style::Tint(tint)),
{
    Line::on(Channel::Stderr).styled(mark, Style::Strong(color)).plain(message).styled(
        subject,
        Style::Tint(tint),
    )
}

/// A line of the standard output: a mark in green, and a message.
fn good_news(message: &str) -> (line: Line)
    ensures
        line.deep_view() == blank().styled("✓"@, Style::Strong(Color::Green)).plain(message@),
{
    Line::blank().styled("✓", Style::Strong(Color::Green)).plain(message)
}

/// The notice that the directory is being analyzed.
fn analyzing(path: &str) -> (lines: Vec<Line>)
    ensures
        lines.deep_view() == analyzing_lines(path@),
{
    let mut lines = no_lines();
    put(&mut lines, Line::blank());
    put(
        &mut lines,
        Line::blank().styled("→", Style::Strong(Color::Cyan)).plain(" Analyzing directory: ").styled(
            path,
            Style::Tint(Color::BrightBlue),
        ),
    );
    put(&mut lines, Line::blank());
    lines
}

/// The notice that the directory holds no source file.
fn no_files(path: &str) -> (lines: Vec<Line>)
    ensures
        lines.deep_view() == no_files_lines(path@),
{
    let mut lines = no_lines();
    put(&mut lines, Line::on(Channel::Stderr));
    put(
        &mut lines,
        Line::on(Channel::Stderr).styled("⚠", Style::Strong(Color::Yellow)).plain(
            " No Rust files found in ",
        ).styled(path, Style::Tint(Color::Yellow)),
    );
    lines
}

/// Adds the notice of how many source files were found.
fn put_found(lines: &mut Vec<Line>, count: usize)
    ensures
        final(lines).deep_view() == old(lines).deep_view() + found_lines(count as nat),
{
    put(
        lines,
        Line::blank().styled("✓", Style::Strong(Color::Green)).plain(" Found ").styled(
            decimal_text(count).as_str(),
            Style::Strong(Color::BrightGreen),
        ).plain(" Rust file(s) to analyze"),
    );
    put(lines, Line::blank());
}

/// Adds the notice that syntax trees are being written.
fn put_generating(lines: &mut Vec<Line>)
    ensures
        final(lines).deep_view() == old(lines).deep_view() + generating_lines(),
{
    put(
        lines,
        Line::blank().styled("→", Style::Strong(Color::Cyan)).plain(
            " Generating AST JSON files...",
        ),
    );
    put(lines, Line::blank());
}

/// The line that names a syntax tree that was written.
fn written(target: &str) -> (line: Line)
    ensures
        line.deep_view() == written_line(target@),
{
    Line::blank().plain("  ").styled("✓", Style::Tint(Color::Green)).plain(" ").styled(
        target,
        Style::Dimmed,
    )
}

/// Adds the notice that the run is complete.
fn put_success(lines: &mut Vec<Line>)
    ensures
        final(lines).deep_view() == old(lines).deep_view() + success_lines(),
{
    put(lines, Line::blank());
    put(lines, good_news(" Analysis completed successfully!"));
    put(lines, Line::blank());
}

/// A step that ends the run in failure.
fn failed(error: RunError, output: Vec<Line>) -> (next: (Stage, Transition))
    ensures
        (next.0.deep_view(), next.1.deep_view()) == failing(error.deep_view(), output.deep_view()),
{
    (Stage::Failed { error }, Transition { output, request: Request::Finish })
}

/// The step after the path was looked at.
fn path_checked(request: &RunRequest, exists: bool, is_directory: bool) -> (next: (
    Stage,
    Transition,
))
    ensures
        (next.0.deep_view(), next.1.deep_view()) == after_path_check(
            request.deep_view(),
            exists,
            is_directory,
        ),
{
    let path = request.path.as_str();
    if !exists {
        let mut output = no_lines();
        put(
            &mut output,
            complaint("✗", Color::Red, " Path does not exist: ", path, Color::Yellow),
        );
        failed(RunError::PathMissing { path: request.path.clone() }, output)
    } else if !is_directory {
        let mut output = no_lines();
        put(
            &mut output,
            complaint("✗", Color::Red, " Path is not a directory: ", path, Color::Yellow),
        );
        failed(RunError::NotADirectory { path: request.path.clone() }, output)
    } else {
        (
            Stage::Discovering,
            Transition {
                output: unless_quiet(request.quiet, analyzing(path)),
                request: Request::Discover { path: request.path.clone() },
            },
        )
    }
}

/// The step after the directory was searched.
fn discovered(request: &RunRequest, files: Vec<String>) -> (next: (Stage, Transition))
    ensures
        (next.0.deep_view(), next.1.deep_view()) == after_discovery(
            request.deep_view(),
            files.deep_view(),
        ),
{
    if files.len() == 0 {
        return (
            Stage::Done,
            Transition { output: no_files(request.path.as_str()), request: Request::Finish },
        );
    }
    let mut lines = no_lines();
    put_found(&mut lines, files.len());
    if request.generate_ast {
        put_generating(&mut lines);
        let source = files[0].clone();
        let target = ast_path_of(files[0].as_str());
        let pending = target.clone();
        (
            Stage::EmittingAst { files, written: 0, target },
            Transition {
                output: unless_quiet(request.quiet, lines),
                request: Request::WriteAst { source, target: pending },
            },
        )
    } else {
        (
            Stage::BuildingOptions,
            Transition { output: unless_quiet(request.quiet, lines), request: Request::Proceed },
        )
    }
}

/// The step after a syntax tree was written, or could not be.
fn ast_written(
    request: &RunRequest,
    files: Vec<String>,
    written_so_far: usize,
    target: String,
    outcome: Result<(), String>,
) -> (next: (Stage, Transition))
    ensures
        (next.0.deep_view(), next.1.deep_view()) == after_ast_written(
            request.deep_view(),
            files.deep_view(),
            written_so_far as nat,
            target@,
            outcome_model(outcome),
        ),
{
    match outcome {
        Err(message) => failed(RunError::AstWrite { message }, no_lines()),
        Ok(_) => {
            let mut lines = no_lines();
            put(&mut lines, written(target.as_str()));
            if written_so_far < files.len() && written_so_far + 1 < files.len() {
                let next = written_so_far + 1;
                let source = files[next].clone();
                let next_target = ast_path_of(files[next].as_str());
                let pending = next_target.clone();
                (
                    Stage::EmittingAst { files, written: next, target: next_target },
                    Transition {
                        output: unless_quiet(request.quiet, lines),
                        request: Request::WriteAst { source, target: pending },
                    },
                )
            } else {
                put(&mut lines, Line::blank());
                proof {
                    assert(lines.deep_view() =~= seq![written_line(target@), blank()]);
                }
                (
                    Stage::BuildingOptions,
                    Transition {
                        output: unless_quiet(request.quiet, lines),
                        request: Request::Proceed,
                    },
                )
            }
        },
    }
}

/// The step that resolves the options and asks for the engine.
fn options_built(request: &RunRequest) -> (next: (Stage, Transition))
    ensures
        (next.0.deep_view(), next.1.deep_view()) == after_building(request.deep_view()),
{
    let mut lines = no_lines();
    put(&mut lines, Line::blank().styled("🔍", Style::Bold).plain(" Running security analysis..."));
    put(&mut lines, Line::blank());
    proof {
        assert(lines.deep_view() =~= running_lines());
    }
    let mut output = unless_quiet(request.quiet, lines);
    let resolution = resolve(
        request.generate_ast,
        &request.templates,
        &request.ignore,
        &request.ignore_rules,
        &request.include_rule_types,
    );
    put_all(&mut output, resolution.warnings);
    (Stage::Analyzing, Transition { output, request: Request::Analyze { options: resolution.options } })
}

/// The step after the engine is done.
fn analyzed(request: &RunRequest, result: Result<AnalysisResult, String>, elapsed: String) -> (next:
    (Stage, Transition))
    ensures
        (next.0.deep_view(), next.1.deep_view()) == after_analysis(
            request.deep_view(),
            match result {
                Ok(found) => Ok(found.deep_view()),
                Err(message) => Err(message@),
            },
            elapsed@,
        ),
{
    match result {
        Err(message) => {
            let mut output = no_lines();
            put(&mut output, Line::on(Channel::Stderr));
            put(
                &mut output,
                complaint("✗", Color::Red, " Analysis failed: ", message.as_str(), Color::Red),
            );
            proof {
                assert(output.deep_view() =~= analysis_failed_lines(message@));
            }
            failed(RunError::AnalysisFailed { message }, output)
        },
        Ok(found) => {
            let mut text = " Analysis completed in ".to_owned();
            text.append(elapsed.as_str());
            text.append("s");
            let mut lines = no_lines();
            put(&mut lines, good_news(text.as_str()));
            put(&mut lines, Line::blank());
            proof {
                assert(lines.deep_view() =~= completed_lines(elapsed@));
            }
            (
                Stage::Aggregating { result: found },
                Transition {
                    output: unless_quiet(request.quiet, lines),
                    request: Request::Proceed,
                },
            )
        },
    }
}

/// The step that shows the summary.
fn aggregated(request: &RunRequest, result: AnalysisResult) -> (next: (Stage, Transition))
    ensures
        (next.0.deep_view(), next.1.deep_view()) == after_aggregation(
            request.deep_view(),
            result.deep_view(),
        ),
{
    let output = unless_quiet(request.quiet, render_summary(&result));
    match &request.output {
        Some(requested) => {
            let path = normalize_report_path(requested.as_str());
            let pending = path.clone();
            let findings = copy_findings(&result.findings);
            (
                Stage::Reporting { result, path: Some(path) },
                Transition {
                    output,
                    request: Request::SaveReport {
                        path: pending,
                        project: request.path.clone(),
                        findings,
                    },
                },
            )
        },
        None => (
            Stage::Reporting { result, path: None },
            Transition { output, request: Request::Proceed },
        ),
    }
}

/// The last step of a run without a report.
fn displayed(request: &RunRequest, result: AnalysisResult) -> (next: (Stage, Transition))
    ensures
        (next.0.deep_view(), next.1.deep_view()) == after_display(
            request.deep_view(),
            result.deep_view(),
        ),
{
    let mut lines = render_findings(&result, request.verbose);
    put_success(&mut lines);
    (
        Stage::Done,
        Transition { output: unless_quiet(request.quiet, lines), request: Request::Finish },
    )
}

/// The last step of a run with a report.
fn report_saved(request: &RunRequest, path: String, outcome: Result<(), String>) -> (next: (
    Stage,
    Transition,
))
    ensures
        (next.0.deep_view(), next.1.deep_view()) == after_report(
            request.deep_view(),
            path@,
            outcome_model(outcome),
        ),
{
    match outcome {
        Err(message) => {
            let mut output = no_lines();
            put(&mut output, Line::on(Channel::Stderr));
            put(
                &mut output,
                complaint("✗", Color::Red, " Failed to save report: ", message.as_str(), Color::Red),
            );
            put(&mut output, Line::on(Channel::Stderr));
            proof {
                assert(output.deep_view() =~= save_failed_lines(message@));
            }
            failed(RunError::ReportFailed { message }, output)
        },
        Ok(_) => {
            let mut lines = no_lines();
            put(&mut lines, Line::blank());
            put(
                &mut lines,
                Line::blank().styled("📄", Style::Bold).plain(" Report saved to: ").styled(
                    path.as_str(),
                    Style::Tint(Color::BrightGreen),
                ),
            );
            put(&mut lines, Line::blank());
            proof {
                assert(lines.deep_view() =~= saved_lines(path@));
            }
            put_success(&mut lines);
            (
                Stage::Done,
                Transition { output: unless_quiet(request.quiet, lines), request: Request::Finish },
            )
        },
    }
}

impl Pipeline {
    /// Begins a run: shows the banner, unless the run is quiet, and asks
    /// the caller to look at the path.
    pub fn begin(request: RunRequest) -> (start: (Pipeline, Transition))
        ensures
            (start.0.deep_view(), start.1.deep_view()) == beginning(request.deep_view()),
    {
        let output = unless_quiet(request.quiet, banner());
        let path = request.path.clone();
        (
            Pipeline { request, stage: Stage::ValidatingPath },
            Transition { output, request: Request::CheckPath { path } },
        )
    }

    /// Whether the run is over.
    pub fn is_over(&self) -> (over: bool)
        ensures
            over == self.deep_view().stage.is_terminal(),
    {
        match &self.stage {
            Stage::Done => true,
            Stage::Failed { .. } => true,
            _ => false,
        }
    }

    /// Takes the run one step further, given what the caller found out in
    /// answer to the last request. The step says what is to be shown and
    /// what the caller is to do next.
    pub fn step(self, event: Event) -> (next: (Pipeline, Transition))
        ensures
            (next.0.deep_view(), next.1.deep_view()) == advance(
                self.deep_view(),
                event.deep_view(),
            ),
    {
        let Pipeline { request, stage } = self;
        let (stage, transition) = match (stage, event) {
            (Stage::Done, _) => (
                Stage::Done,
                Transition { output: no_lines(), request: Request::Finish },
            ),
            (Stage::Failed { error }, _) => failed(error, no_lines()),
            (Stage::ValidatingPath, Event::PathChecked { exists, is_directory }) => path_checked(
                &request,
                exists,
                is_directory,
            ),
            (Stage::Discovering, Event::Discovered { files }) => discovered(&request, files),
            (
                Stage::EmittingAst { files, written, target },
                Event::AstWritten { outcome },
            ) => ast_written(&request, files, written, target, outcome),
            (Stage::BuildingOptions, Event::Proceed) => options_built(&request),
            (Stage::Analyzing, Event::Analyzed { result, elapsed }) => analyzed(
                &request,
                result,
                elapsed,
            ),
            (Stage::Aggregating { result }, Event::Proceed) => aggregated(&request, result),
            (Stage::Reporting { result, path: None }, Event::Proceed) => displayed(
                &request,
                result,
            ),
            (
                Stage::Reporting { result, path: Some(path) },
                Event::ReportSaved { outcome },
            ) => report_saved(&request, path, outcome),
            _ => failed(RunError::UnexpectedEvent, no_lines()),
        };
        (Pipeline { request, stage }, transition)
    }
}

/// Begins the analysis of a directory with the given parameters, all kinds
/// of rule taken in. The run is then taken further by `Pipeline::step`, one
/// event at a time.
pub fn run(
    path: String,
    templates: Option<String>,
    output: Option<String>,
    generate_ast: bool,
    ignore: Option<String>,
    ignore_rules: Option<String>,
    verbose: bool,
    quiet: bool,
) -> (start: (Pipeline, Transition))
    ensures
        (start.0.deep_view(), start.1.deep_view()) == beginning(
            RunRequestModel {
                path: path@,
                templates: templates.deep_view(),
                output: output.deep_view(),
                generate_ast,
                ignore: ignore.deep_view(),
                ignore_rules: ignore_rules.deep_view(),
                include_rule_types: Seq::empty(),
                verbose,
                quiet,
            },
        ),
{
    let include_rule_types: Vec<String> = Vec::new();
    proof {
        assert(include_rule_types.deep_view() =~= Seq::<Seq<char>>::empty());
    }
    Pipeline::begin(
        RunRequest {
            path,
            templates,
            output,
            generate_ast,
            ignore,
            ignore_rules,
            include_rule_types,
            verbose,
            quiet,
        },
    )
}

/// The request that a stage waits for an answer to.
pub open spec fn awaited(stage: StageModel, request: RunRequestModel) -> RequestModel {
    match stage {
        StageModel::ValidatingPath => RequestModel::CheckPath { path: request.path },
        StageModel::Discovering => RequestModel::Discover { path: request.path },
        StageModel::EmittingAst { files, written, target } => RequestModel::WriteAst {
            source: files[written as int],
            target,
        },
        StageModel::BuildingOptions => RequestModel::Proceed,
        StageModel::Analyzing => RequestModel::Analyze {
            options: resolved_options(
                request.generate_ast,
                request.templates,
                request.ignore,
                request.ignore_rules,
                request.include_rule_types,
            ),
        },
        StageModel::Aggregating { .. } => RequestModel::Proceed,
        StageModel::Reporting { path: None, .. } => RequestModel::Proceed,
        StageModel::Reporting { path: Some(path), result } => RequestModel::SaveReport {
            path,
            project: request.path,
            findings: result.findings,
        },
        StageModel::Done => RequestModel::Finish,
        StageModel::Failed { .. } => RequestModel::Finish,
    }
}

/// A run that is over stays as it is: whatever the event, the step shows
/// nothing, asks for nothing, and leaves the stage unchanged.
pub proof fn lemma_finished_run_stays(pipeline: PipelineModel, event: EventModel)
    requires
        pipeline.stage.is_terminal(),
    ensures
        advance(pipeline, event).0 == pipeline,
        advance(pipeline, event).1.output == Seq::<LineModel>::empty(),
        advance(pipeline, event).1.request == RequestModel::Finish,
{
}

/// Every step asks for what the stage that it leads to waits for, and a
/// step asks for nothing more exactly when the run is over.
pub proof fn lemma_request_fits_stage(pipeline: PipelineModel, event: EventModel)
    ensures
        advance(pipeline, event).1.request == awaited(
            advance(pipeline, event).0.stage,
            pipeline.request,
        ),
        advance(pipeline, event).1.request is Finish <==> advance(
            pipeline,
            event,
        ).0.stage.is_terminal(),
{
}

/// A run never goes back: a step leads to a later stage, or to the next
/// source file while syntax trees are being written.
pub proof fn lemma_steps_go_forward(pipeline: PipelineModel, event: EventModel)
    requires
        !pipeline.stage.is_terminal(),
    ensures
        ({
            let next = advance(pipeline, event).0.stage;
            ||| next.order() > pipeline.stage.order()
            ||| {
                &&& pipeline.stage matches StageModel::EmittingAst { files, written, .. }
                &&& next matches StageModel::EmittingAst {
                    files: next_files,
                    written: next_written,
                    ..
                }
                &&& next_files == files
                &&& next_written == written + 1
                &&& next_written < files.len()
            }
        }),
{
}

/// The engine is asked for in one step alone: the one that leaves the stage
/// in which the options are built. With the run never going back, the
/// engine is run at most once.
pub proof fn lemma_engine_is_asked_once(pipeline: PipelineModel, event: EventModel)
    requires
        advance(pipeline, event).1.request is Analyze,
    ensures
        pipeline.stage is BuildingOptions,
        event is Proceed,
        advance(pipeline, event).0.stage is Analyzing,
{
}

/// A directory without source files completes the run at once: the step
/// shows the notice on the error output and asks for nothing more, so that
/// the engine is never run.
pub proof fn lemma_no_files_completes_the_run(request: RunRequestModel)
    ensures
        ({
            let searching = PipelineModel { request, stage: StageModel::Discovering };
            let found_none = EventModel::Discovered { files: Seq::empty() };
            &&& advance(searching, found_none).0.stage == StageModel::Done
            &&& advance(searching, found_none).1.request == RequestModel::Finish
            &&& advance(searching, found_none).1.output == no_files_lines(request.path)
        }),
{
}

/// Whatever the lists of severities, of rules and of kinds of rule hold,
/// the step that builds the options asks for the engine and never fails:
/// an entry that is not understood gives a warning and no more.
pub proof fn lemma_options_are_always_built(request: RunRequestModel)
    ensures
        ({
            let building = PipelineModel { request, stage: StageModel::BuildingOptions };
            &&& advance(building, EventModel::Proceed).0.stage == StageModel::Analyzing
            &&& advance(building, EventModel::Proceed).1.request is Analyze
            &&& forall|i: int|
                0 <= i < resolution_warnings(request.ignore, request.include_rule_types).len()
                    ==> (#[trigger] resolution_warnings(
                    request.ignore,
                    request.include_rule_types,
                )[i]).channel == Channel::Warning
        }),
{
}

/// Where a report was asked for, the step that shows the summary asks for
/// the report to be written from the findings of the result, all of them
/// and in their order, under the path that a report gets, with the path
/// that was analyzed as the project's identifier.
pub proof fn lemma_report_holds_the_findings(
    request: RunRequestModel,
    result: AnalysisResultModel,
    requested: Seq<char>,
)
    requires
        request.output == Some(requested),
    ensures
        ({
            let summarizing = PipelineModel { request, stage: StageModel::Aggregating { result } };
            advance(summarizing, EventModel::Proceed).1.request == (RequestModel::SaveReport {
                path: report_path(requested),
                project: request.path,
                findings: result.findings,
            })
        }),
{
}

/// From every stage before the end there is an event that fails the run.
pub proof fn lemma_failure_is_within_reach(pipeline: PipelineModel)
    requires
        !pipeline.stage.is_terminal(),
    ensures
        exists|event: EventModel| (#[trigger] advance(pipeline, event)).0.stage is Failed,
{
    let unasked = if pipeline.stage is ValidatingPath {
        EventModel::PathChecked { exists: false, is_directory: false }
    } else if pipeline.stage is BuildingOptions || pipeline.stage is Aggregating
        || pipeline.stage is Reporting {
        EventModel::Discovered { files: Seq::empty() }
    } else {
        EventModel::Proceed
    };
    assert(advance(pipeline, unasked).0.stage is Failed);
}

/// A quiet run leaves the standard output empty at every step.
pub proof fn lemma_quiet_run_keeps_stdout_empty(pipeline: PipelineModel, event: EventModel)
    requires
        pipeline.request.quiet,
    ensures
        forall|i: int|
            0 <= i < advance(pipeline, event).1.output.len() ==> (#[trigger] advance(
                pipeline,
                event,
            ).1.output[i]).channel != Channel::Stdout,
{
    let output = advance(pipeline, event).1.output;
    assert forall|i: int| 0 <= i < output.len() implies (#[trigger] output[i]).channel
        != Channel::Stdout by {
    }
}

} // verus!
