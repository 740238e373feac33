//! The ways in which a command fails, and what a failed command leaves behind.

use crate::console::{Line, LineModel};
use vstd::prelude::*;

verus! {

/// Why a command did not complete.
#[derive(Clone, Debug, PartialEq, Eq)]
pub enum RunError {
    /// Nothing exists at the path that was to be analyzed.
    PathMissing { path: String },
    /// The path that was to be analyzed is no directory.
    NotADirectory { path: String },
    /// The syntax tree of a source file could not be written.
    AstWrite { message: String },
    /// The engine failed; the message is its own.
    AnalysisFailed { message: String },
    /// The report could not be written; the message is the writer's own.
    ReportFailed { message: String },
    /// The severity filter names no severity.
    UnknownSeverity { token: String },
    /// No rule of the catalog has the identifier.
    RuleNotFound { id: String },
    /// There is no configuration file at the given path.
    ConfigNotFound,
    /// The configuration file is no well-formed document of the expected
    /// types; the message is the parser's own.
    ConfigMalformed { message: String },
    /// The configuration lacks a field that it must have.
    ConfigMissingField { field: String },
    /// The driver was handed an event that does not answer its last request.
    UnexpectedEvent,
}

/// The model of [`RunError`] that the contracts speak of.
pub enum RunErrorModel {
    PathMissing { path: Seq<char> },
    NotADirectory { path: Seq<char> },
    AstWrite { message: Seq<char> },
    AnalysisFailed { message: Seq<char> },
    ReportFailed { message: Seq<char> },
    UnknownSeverity { token: Seq<char> },
    RuleNotFound { id: Seq<char> },
    ConfigNotFound,
    ConfigMalformed { message: Seq<char> },
    ConfigMissingField { field: Seq<char> },
    UnexpectedEvent,
}

impl DeepView for RunError {
    type V = RunErrorModel;

    open spec fn deep_view(&self) -> RunErrorModel {
        match self {
            RunError::PathMissing { path } => RunErrorModel::PathMissing { path: path@ },
            RunError::NotADirectory { path } => RunErrorModel::NotADirectory { path: path@ },
            RunError::AstWrite { message } => RunErrorModel::AstWrite { message: message@ },
            RunError::AnalysisFailed { message } => RunErrorModel::AnalysisFailed {
                message: message@,
            },
            RunError::ReportFailed { message } => RunErrorModel::ReportFailed {
                message: message@,
            },
            RunError::UnknownSeverity { token } => RunErrorModel::UnknownSeverity {
                token: token@,
            },
            RunError::RuleNotFound { id } => RunErrorModel::RuleNotFound { id: id@ },
            RunError::ConfigNotFound => RunErrorModel::ConfigNotFound,
            RunError::ConfigMalformed { message } => RunErrorModel::ConfigMalformed {
                message: message@,
            },
            RunError::ConfigMissingField { field } => RunErrorModel::ConfigMissingField {
                field: field@,
            },
            RunError::UnexpectedEvent => RunErrorModel::UnexpectedEvent,
        }
    }
}

impl RunErrorModel {
    /// The error in one sentence, as it is reported when the program ends.
    pub open spec fn message(self) -> Seq<char> {
        match self {
            RunErrorModel::PathMissing { path } => "Path "@ + path + " does not exist"@,
            RunErrorModel::NotADirectory { path } => "Path "@ + path + " is not a directory"@,
            RunErrorModel::AstWrite { message } => message,
            RunErrorModel::AnalysisFailed { message } => "Analysis failed: "@ + message,
            RunErrorModel::ReportFailed { message } => message,
            RunErrorModel::UnknownSeverity { token } => "Unknown severity: "@ + token,
            RunErrorModel::RuleNotFound { id } => "Rule not found: "@ + id,
            RunErrorModel::ConfigNotFound => "Configuration file not found"@,
            RunErrorModel::ConfigMalformed { message } => message,
            RunErrorModel::ConfigMissingField { field } => "missing field `"@ + field + "`"@,
            RunErrorModel::UnexpectedEvent => "unexpected event"@,
        }
    }
}

impl RunError {
    /// The error in one sentence, as it is reported when the program ends.
    pub fn message(&self) -> (text: String)
        ensures
            text@ == self.deep_view().message(),
    {
        match self {
            RunError::PathMissing { path } => {
                let mut text = "Path ".to_owned();
                text.append(path.as_str());
                text.append(" does not exist");
                text
            },
            RunError::NotADirectory { path } => {
                let mut text = "Path ".to_owned();
                text.append(path.as_str());
                text.append(" is not a directory");
                text
            },
            RunError::AstWrite { message } => message.clone(),
            RunError::AnalysisFailed { message } => {
                let mut text = "Analysis failed: ".to_owned();
                text.append(message.as_str());
                text
            },
            RunError::ReportFailed { message } => message.clone(),
            RunError::UnknownSeverity { token } => {
                let mut text = "Unknown severity: ".to_owned();
                text.append(token.as_str());
                text
            },
            RunError::RuleNotFound { id } => {
                let mut text = "Rule not found: ".to_owned();
                text.append(id.as_str());
                text
            },
            RunError::ConfigNotFound => "Configuration file not found".to_owned(),
            RunError::ConfigMalformed { message } => message.clone(),
            RunError::ConfigMissingField { field } => {
                let mut text = "missing field `".to_owned();
                text.append(field.as_str());
                text.append("`");
                text
            },
            RunError::UnexpectedEvent => "unexpected event".to_owned(),
        }
    }
}

/// What a command that failed leaves behind: the lines it had for display,
/// and the error.
#[derive(Clone, Debug, PartialEq, Eq)]
pub struct Failure {
    pub output: Vec<Line>,
    pub error: RunError,
}

/// The model of [`Failure`] that the contracts speak of.
pub struct FailureModel {
    pub output: Seq<LineModel>,
    pub error: RunErrorModel,
}

impl DeepView for Failure {
    type V = FailureModel;

    open spec fn deep_view(&self) -> FailureModel {
        FailureModel { output: self.output.deep_view(), error: self.error.deep_view() }
    }
}

} // verus!
