//! The command that runs an analysis as a configuration document describes
//! it. Reading the document is the caller's part; what it found is handed
//! in, and checked and resolved here.

use crate::commands::analyze::{
    beginning, Pipeline, PipelineModel, RunRequest, RunRequestModel, Transition, TransitionModel,
};
use crate::console::{blank, put, put_all, Channel, Color, Line, LineModel, Style};
use crate::error::{Failure, FailureModel, RunError, RunErrorModel};
use crate::options::{kind_of_entry, resolved_options, severity_of_entry};
use crate::severity::all_rule_types;
use crate::text::{join, joined, lemma_join_then_split, trimmed};
use vstd::prelude::*;

verus! {

/// The table `analysis` of a document, as far as it was given.
#[derive(Clone, Debug, PartialEq, Eq)]
pub struct RawAnalysis {
    pub path: Option<String>,
    pub generate_ast: Option<bool>,
}

/// The table `output` of a document, as far as it was given.
#[derive(Clone, Debug, PartialEq, Eq)]
pub struct RawOutput {
    pub report_file: Option<String>,
}

/// The table `rules` of a document, as far as it was given.
#[derive(Clone, Debug, PartialEq, Eq)]
pub struct RawRules {
    pub ignore_severities: Option<Vec<String>>,
    pub ignore_rules: Option<Vec<String>>,
    pub include_rule_types: Option<Vec<String>>,
}

/// The table `display` of a document, as far as it was given.
#[derive(Clone, Debug, PartialEq, Eq)]
pub struct RawDisplay {
    pub verbose: Option<bool>,
    pub quiet: Option<bool>,
    pub no_color: Option<bool>,
}

/// A configuration document as it was read: every table and every field
/// may be missing.
#[derive(Clone, Debug, PartialEq, Eq)]
pub struct RawConfig {
    pub analysis: Option<RawAnalysis>,
    pub output: Option<RawOutput>,
    pub rules: Option<RawRules>,
    pub display: Option<RawDisplay>,
}

/// What to analyze.
#[derive(Clone, Debug, PartialEq, Eq)]
pub struct AnalysisConfig {
    pub path: String,
    pub generate_ast: bool,
}

/// Where the report goes.
#[derive(Clone, Debug, PartialEq, Eq)]
pub struct OutputConfig {
    pub report_file: String,
}

/// What the engine is to leave out.
#[derive(Clone, Debug, PartialEq, Eq)]
pub struct RulesConfig {
    pub ignore_severities: Vec<String>,
    pub ignore_rules: Vec<String>,
    pub include_rule_types: Vec<String>,
}

/// How the run shows itself.
#[derive(Clone, Copy, Debug, PartialEq, Eq)]
pub struct DisplayConfig {
    pub verbose: bool,
    pub quiet: bool,
    pub no_color: bool,
}

/// A configuration with every field in place.
#[derive(Clone, Debug, PartialEq, Eq)]
pub struct Config {
    pub analysis: AnalysisConfig,
    pub output: OutputConfig,
    pub rules: RulesConfig,
    pub display: DisplayConfig,
}

/// What the caller found at the path of the configuration.
#[derive(Clone, Debug, PartialEq, Eq)]
pub enum ConfigSource {
    /// No file.
    Missing,
    /// A file that is no well-formed document, or whose values are of the
    /// wrong types; the message is the parser's own.
    Malformed { message: String },
    /// A document.
    Document { raw: RawConfig },
}

/// The model of [`RawAnalysis`] that the contracts speak of.
pub struct RawAnalysisModel {
    pub path: Option<Seq<char>>,
    pub generate_ast: Option<bool>,
}

/// The model of [`RawOutput`] that the contracts speak of.
pub struct RawOutputModel {
    pub report_file: Option<Seq<char>>,
}

/// The model of [`RawRules`] that the contracts speak of.
pub struct RawRulesModel {
    pub ignore_severities: Option<Seq<Seq<char>>>,
    pub ignore_rules: Option<Seq<Seq<char>>>,
    pub include_rule_types: Option<Seq<Seq<char>>>,
}

/// The model of [`RawConfig`] that the contracts speak of.
pub struct RawConfigModel {
    pub analysis: Option<RawAnalysisModel>,
    pub output: Option<RawOutputModel>,
    pub rules: Option<RawRulesModel>,
    pub display: Option<RawDisplay>,
}

/// The model of [`AnalysisConfig`] that the contracts speak of.
pub struct AnalysisConfigModel {
    pub path: Seq<char>,
    pub generate_ast: bool,
}

/// The model of [`RulesConfig`] that the contracts speak of.
pub struct RulesConfigModel {
    pub ignore_severities: Seq<Seq<char>>,
    pub ignore_rules: Seq<Seq<char>>,
    pub include_rule_types: Seq<Seq<char>>,
}

/// The model of [`Config`] that the contracts speak of.
pub struct ConfigModel {
    pub analysis: AnalysisConfigModel,
    pub report_file: Seq<char>,
    pub rules: RulesConfigModel,
    pub display: DisplayConfig,
}

/// The model of [`ConfigSource`] that the contracts speak of.
pub enum ConfigSourceModel {
    Missing,
    Malformed { message: Seq<char> },
    Document { raw: RawConfigModel },
}

impl DeepView for RawAnalysis {
    type V = RawAnalysisModel;

    open spec fn deep_view(&self) -> RawAnalysisModel {
        RawAnalysisModel { path: self.path.deep_view(), generate_ast: self.generate_ast }
    }
}

impl DeepView for RawOutput {
    type V = RawOutputModel;

    open spec fn deep_view(&self) -> RawOutputModel {
        RawOutputModel { report_file: self.report_file.deep_view() }
    }
}

impl DeepView for RawRules {
    type V = RawRulesModel;

    open spec fn deep_view(&self) -> RawRulesModel {
        RawRulesModel {
            ignore_severities: self.ignore_severities.deep_view(),
            ignore_rules: self.ignore_rules.deep_view(),
            include_rule_types: self.include_rule_types.deep_view(),
        }
    }
}

impl DeepView for RawConfig {
    type V = RawConfigModel;

    open spec fn deep_view(&self) -> RawConfigModel {
        RawConfigModel {
            analysis: self.analysis.deep_view(),
            output: self.output.deep_view(),
            rules: self.rules.deep_view(),
            display: self.display,
        }
    }
}

impl DeepView for Config {
    type V = ConfigModel;

    open spec fn deep_view(&self) -> ConfigModel {
        ConfigModel {
            analysis: AnalysisConfigModel {
                path: self.analysis.path@,
                generate_ast: self.analysis.generate_ast,
            },
            report_file: self.output.report_file@,
            rules: RulesConfigModel {
                ignore_severities: self.rules.ignore_severities.deep_view(),
                ignore_rules: self.rules.ignore_rules.deep_view(),
                include_rule_types: self.rules.include_rule_types.deep_view(),
            },
            display: self.display,
        }
    }
}

impl DeepView for ConfigSource {
    type V = ConfigSourceModel;

    open spec fn deep_view(&self) -> ConfigSourceModel {
        match self {
            ConfigSource::Missing => ConfigSourceModel::Missing,
            ConfigSource::Malformed { message } => ConfigSourceModel::Malformed {
                message: message@,
            },
            ConfigSource::Document { raw } => ConfigSourceModel::Document { raw: raw.deep_view() },
        }
    }
}

/// A flag, which is off where it was not given.
pub open spec fn flag(given: Option<bool>) -> bool {
    match given {
        Some(on) => on,
        None => false,
    }
}

/// A list, which is empty where it was not given.
pub open spec fn list(given: Option<Seq<Seq<char>>>) -> Seq<Seq<char>> {
    match given {
        Some(items) => items,
        None => Seq::empty(),
    }
}

/// The display of a document, with every flag off that was not given.
pub open spec fn display_of(given: Option<RawDisplay>) -> DisplayConfig {
    match given {
        Some(display) => DisplayConfig {
            verbose: flag(display.verbose),
            quiet: flag(display.quiet),
            no_color: flag(display.no_color),
        },
        None => DisplayConfig { verbose: false, quiet: false, no_color: false },
    }
}

/// The first field that a document must have and lacks, if it lacks any.
/// A field that is missing inside a table that is there is found before a
/// table that is missing altogether.
pub open spec fn missing_field(raw: RawConfigModel) -> Option<Seq<char>> {
    if raw.analysis matches Some(analysis) && analysis.path is None {
        Some("path"@)
    } else if raw.output matches Some(output) && output.report_file is None {
        Some("report_file"@)
    } else if raw.analysis is None {
        Some("analysis"@)
    } else if raw.output is None {
        Some("output"@)
    } else if raw.rules is None {
        Some("rules"@)
    } else {
        None
    }
}

/// The configuration that a document stands for. The path to analyze and
/// the file of the report must be given, and so must the table of the
/// rules; flags that are not given are off, lists that are not given are
/// empty, and the table of the display may be missing.
pub open spec fn checked(raw: RawConfigModel) -> Result<ConfigModel, RunErrorModel> {
    match missing_field(raw) {
        Some(field) => Err(RunErrorModel::ConfigMissingField { field }),
        None => Ok(
            ConfigModel {
                analysis: AnalysisConfigModel {
                    path: raw.analysis->0.path->0,
                    generate_ast: flag(raw.analysis->0.generate_ast),
                },
                report_file: raw.output->0.report_file->0,
                rules: RulesConfigModel {
                    ignore_severities: list(raw.rules->0.ignore_severities),
                    ignore_rules: list(raw.rules->0.ignore_rules),
                    include_rule_types: list(raw.rules->0.include_rule_types),
                },
                display: display_of(raw.display),
            },
        ),
    }
}

/// A list as one comma-separated text, or nothing for an empty list.
pub open spec fn as_list(items: Seq<Seq<char>>) -> Option<Seq<char>> {
    if items.len() == 0 {
        None
    } else {
        Some(joined(items, ","@))
    }
}

/// The parameters of the run that a configuration describes. The report
/// goes to the file of the configuration; the kinds of rule are those that
/// the configuration names; the run is verbose, or quiet, where the command
/// line or the configuration says so.
pub open spec fn request_of(config: ConfigModel, cli_verbose: bool, cli_quiet: bool) -> RunRequestModel {
    RunRequestModel {
        path: config.analysis.path,
        templates: None,
        output: Some(config.report_file),
        generate_ast: config.analysis.generate_ast,
        ignore: as_list(config.rules.ignore_severities),
        ignore_rules: as_list(config.rules.ignore_rules),
        include_rule_types: config.rules.include_rule_types,
        verbose: cli_verbose || config.display.verbose,
        quiet: cli_quiet || config.display.quiet,
    }
}

/// What the error output says where there is no configuration file.
pub open spec fn not_found_lines(config_path: Seq<char>) -> Seq<LineModel> {
    seq![
        LineModel::on(Channel::Stderr).styled("✗"@, Style::Strong(Color::Red)).plain(
            " Configuration file not found: "@,
        ).styled(config_path, Style::Tint(Color::Yellow)),
        LineModel::on(Channel::Stderr),
        LineModel::on(Channel::Stderr).plain("Create one with: "@).styled(
            "eloizer init"@,
            Style::Strong(Color::Cyan),
        ),
        LineModel::on(Channel::Stderr),
    ]
}

/// What the error output says where the configuration cannot be used.
pub open spec fn unusable_lines(message: Seq<char>) -> Seq<LineModel> {
    seq![
        LineModel::on(Channel::Stderr).styled("✗"@, Style::Strong(Color::Red)).plain(
            " Failed to parse configuration file: "@,
        ).styled(message, Style::Tint(Color::Red)),
    ]
}

/// The notice of which configuration is used.
pub open spec fn using_lines(config_path: Seq<char>) -> Seq<LineModel> {
    seq![
        blank(),
        blank().styled("⚙"@, Style::Strong(Color::Cyan)).plain(" Using configuration: "@).styled(
            config_path,
            Style::Tint(Color::BrightBlue),
        ),
        blank(),
    ]
}

/// The failure of a configuration that cannot be used.
pub open spec fn refused(error: RunErrorModel) -> FailureModel {
    FailureModel { output: unusable_lines(error.message()), error }
}

/// What the command gives. Without a file, with a file that is no proper
/// document, or with a document that lacks a field that it must have, the
/// command fails and no run begins. Else the run that the configuration
/// describes begins, after the notice of which configuration is used.
pub open spec fn outcome(
    config_path: Seq<char>,
    source: ConfigSourceModel,
    cli_verbose: bool,
    cli_quiet: bool,
) -> Result<(PipelineModel, TransitionModel), FailureModel> {
    match source {
        ConfigSourceModel::Missing => Err(
            FailureModel {
                output: not_found_lines(config_path),
                error: RunErrorModel::ConfigNotFound,
            },
        ),
        ConfigSourceModel::Malformed { message } => Err(
            refused(RunErrorModel::ConfigMalformed { message }),
        ),
        ConfigSourceModel::Document { raw } => match checked(raw) {
            Err(error) => Err(refused(error)),
            Ok(config) => {
                let (pipeline, first) = beginning(request_of(config, cli_verbose, cli_quiet));
                Ok(
                    (
                        pipeline,
                        TransitionModel {
                            output: using_lines(config_path) + first.output,
                            request: first.request,
                        },
                    ),
                )
            },
        },
    }
}

/// A flag, which is off where it was not given.
fn flag_of(given: Option<bool>) -> (on: bool)
    ensures
        on == flag(given),
{
    match given {
        Some(on) => on,
        None => false,
    }
}

/// A list, which is empty where it was not given.
fn list_of(given: Option<Vec<String>>) -> (items: Vec<String>)
    ensures
        items.deep_view() == list(given.deep_view()),
{
    match given {
        Some(items) => items,
        None => {
            let items: Vec<String> = Vec::new();
            items
        },
    }
}

/// The error that a field is missing.
fn missing(field: &str) -> (error: RunError)
    ensures
        error.deep_view() == (RunErrorModel::ConfigMissingField { field: field@ }),
{
    RunError::ConfigMissingField { field: field.to_owned() }
}

impl Config {
    /// Checks a document as it was read, and fills in what it may leave out.
    pub fn from_raw(raw: RawConfig) -> (result: Result<Config, RunError>)
        ensures
            match result {
                Ok(config) => checked(raw.deep_view()) == Ok::<ConfigModel, RunErrorModel>(
                    config.deep_view(),
                ),
                Err(error) => checked(raw.deep_view()) == Err::<ConfigModel, RunErrorModel>(
                    error.deep_view(),
                ),
            },
    {
        let RawConfig { analysis, output, rules, display } = raw;
        let analysis = match analysis {
            Some(RawAnalysis { path: None, .. }) => {
                return Err(missing("path"));
            },
            Some(RawAnalysis { path: Some(path), generate_ast }) => Some(
                AnalysisConfig { path, generate_ast: flag_of(generate_ast) },
            ),
            None => None,
        };
        let output = match output {
            Some(RawOutput { report_file: None }) => {
                return Err(missing("report_file"));
            },
            Some(RawOutput { report_file: Some(report_file) }) => Some(
                OutputConfig { report_file },
            ),
            None => None,
        };
        let analysis = match analysis {
            Some(analysis) => analysis,
            None => {
                return Err(missing("analysis"));
            },
        };
        let output = match output {
            Some(output) => output,
            None => {
                return Err(missing("output"));
            },
        };
        let rules = match rules {
            Some(RawRules { ignore_severities, ignore_rules, include_rule_types }) => RulesConfig {
                ignore_severities: list_of(ignore_severities),
                ignore_rules: list_of(ignore_rules),
                include_rule_types: list_of(include_rule_types),
            },
            None => {
                return Err(missing("rules"));
            },
        };
        let display = match display {
            Some(given) => DisplayConfig {
                verbose: flag_of(given.verbose),
                quiet: flag_of(given.quiet),
                no_color: flag_of(given.no_color),
            },
            None => DisplayConfig { verbose: false, quiet: false, no_color: false },
        };
        Ok(Config { analysis, output, rules, display })
    }

    /// The parameters of the run that the configuration describes.
    pub fn into_request(self, cli_verbose: bool, cli_quiet: bool) -> (request: RunRequest)
        ensures
            request.deep_view() == request_of(self.deep_view(), cli_verbose, cli_quiet),
    {
        let ignore = if self.rules.ignore_severities.len() == 0 {
            None
        } else {
            Some(join(&self.rules.ignore_severities, ","))
        };
        let ignore_rules = if self.rules.ignore_rules.len() == 0 {
            None
        } else {
            Some(join(&self.rules.ignore_rules, ","))
        };
        RunRequest {
            path: self.analysis.path,
            templates: None,
            output: Some(self.output.report_file),
            generate_ast: self.analysis.generate_ast,
            ignore,
            ignore_rules,
            include_rule_types: self.rules.include_rule_types,
            verbose: cli_verbose || self.display.verbose,
            quiet: cli_quiet || self.display.quiet,
        }
    }
}

/// The failure of a configuration that cannot be used.
fn refuse(error: RunError) -> (failure: Failure)
    ensures
        failure.deep_view() == refused(error.deep_view()),
{
    let mut output: Vec<Line> = Vec::new();
    proof {
        assert(output.deep_view() =~= Seq::<LineModel>::empty());
    }
    put(
        &mut output,
        Line::on(Channel::Stderr).styled("✗", Style::Strong(Color::Red)).plain(
            " Failed to parse configuration file: ",
        ).styled(error.message().as_str(), Style::Tint(Color::Red)),
    );
    Failure { output, error }
}

/// Begins the run that a configuration describes, given what was found at
/// the path of the configuration. Fails, before anything is looked at or
/// searched, where the configuration is missing or cannot be used.
pub fn run(config_path: &str, source: ConfigSource, cli_verbose: bool, cli_quiet: bool) -> (result:
    Result<(Pipeline, Transition), Failure>)
    ensures
        match result {
            Ok(start) => outcome(config_path@, source.deep_view(), cli_verbose, cli_quiet) == Ok::<
                (PipelineModel, TransitionModel),
                FailureModel,
            >((start.0.deep_view(), start.1.deep_view())),
            Err(failure) => outcome(config_path@, source.deep_view(), cli_verbose, cli_quiet)
                == Err::<(PipelineModel, TransitionModel), FailureModel>(failure.deep_view()),
        },
{
    match source {
        ConfigSource::Missing => {
            let mut output: Vec<Line> = Vec::new();
            put(
                &mut output,
                Line::on(Channel::Stderr).styled("✗", Style::Strong(Color::Red)).plain(
                    " Configuration file not found: ",
                ).styled(config_path, Style::Tint(Color::Yellow)),
            );
            put(&mut output, Line::on(Channel::Stderr));
            put(
                &mut output,
                Line::on(Channel::Stderr).plain("Create one with: ").styled(
                    "eloizer init",
                    Style::Strong(Color::Cyan),
                ),
            );
            put(&mut output, Line::on(Channel::Stderr));
            proof {
                assert(output.deep_view() =~= not_found_lines(config_path@));
            }
            Err(Failure { output, error: RunError::ConfigNotFound })
        },
        ConfigSource::Malformed { message } => Err(refuse(RunError::ConfigMalformed { message })),
        ConfigSource::Document { raw } => match Config::from_raw(raw) {
            Err(error) => Err(refuse(error)),
            Ok(config) => {
                let request = config.into_request(cli_verbose, cli_quiet);
                let (pipeline, first) = Pipeline::begin(request);
                let mut output: Vec<Line> = Vec::new();
                put(&mut output, Line::blank());
                put(
                    &mut output,
                    Line::blank().styled("⚙", Style::Strong(Color::Cyan)).plain(
                        " Using configuration: ",
                    ).styled(config_path, Style::Tint(Color::BrightBlue)),
                );
                put(&mut output, Line::blank());
                proof {
                    assert(output.deep_view() =~= using_lines(config_path@));
                }
                let Transition { output: banner, request } = first;
                put_all(&mut output, banner);
                Ok((pipeline, Transition { output, request }))
            },
        },
    }
}

/// A document that lacks the file of the report, its table being there and
/// the path to analyze not missing from its own, is refused for that field,
/// whatever else it holds.
pub proof fn lemma_missing_report_file_is_refused(raw: RawConfigModel)
    requires
        raw.output matches Some(output) && output.report_file is None,
        raw.analysis matches Some(analysis) ==> analysis.path is Some,
    ensures
        checked(raw) == Err::<ConfigModel, RunErrorModel>(
            RunErrorModel::ConfigMissingField { field: "report_file"@ },
        ),
{
}

/// A configuration that cannot be used begins no run: the command fails
/// exactly when the file is missing, is no proper document, or lacks a field
/// that it must have.
pub proof fn lemma_run_begins_only_from_a_full_document(
    config_path: Seq<char>,
    source: ConfigSourceModel,
    cli_verbose: bool,
    cli_quiet: bool,
)
    ensures
        outcome(config_path, source, cli_verbose, cli_quiet) is Ok <==> (source
            matches ConfigSourceModel::Document { raw } && missing_field(raw) is None),
{
}

/// The lists of a configuration reach the engine entry by entry. The kinds
/// of rule are those that the entries name, in their order, and every kind
/// where the configuration names none. As long as no entry holds a comma,
/// the severities to ignore are those that the entries name, in their
/// order, and the rules to ignore are the entries without the white space
/// around them.
pub proof fn lemma_lists_reach_the_options(config: ConfigModel, cli_verbose: bool, cli_quiet: bool)
    requires
        forall|i: int|
            0 <= i < config.rules.ignore_severities.len() ==> !(
            #[trigger] config.rules.ignore_severities[i]).contains(','),
        forall|i: int|
            0 <= i < config.rules.ignore_rules.len() ==> !(
            #[trigger] config.rules.ignore_rules[i]).contains(','),
    ensures
        ({
            let request = request_of(config, cli_verbose, cli_quiet);
            let options = resolved_options(
                request.generate_ast,
                request.templates,
                request.ignore,
                request.ignore_rules,
                request.include_rule_types,
            );
            &&& options.include_rule_types == (if config.rules.include_rule_types.len() == 0 {
                all_rule_types()
            } else {
                config.rules.include_rule_types.filter_map(kind_of_entry())
            })
            &&& options.ignore_severities == config.rules.ignore_severities.filter_map(
                severity_of_entry(),
            )
            &&& options.ignore_rules == config.rules.ignore_rules.map_values(
                |entry: Seq<char>| trimmed(entry),
            )
            &&& options.generate_ast == config.analysis.generate_ast
        }),
{
    reveal_strlit(",");
    assert(","@ =~= seq![',']);
    let severities = config.rules.ignore_severities;
    let rules = config.rules.ignore_rules;
    if severities.len() > 0 {
        lemma_join_then_split(severities, ',');
    }
    if rules.len() > 0 {
        lemma_join_then_split(rules, ',');
    }
}

} // verus!
