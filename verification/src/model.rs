//! The values that pass between the analysis engine and the commands, each
//! with the mathematical model that the contracts speak of.

use crate::severity::{RuleType, Severity};
use crate::text::same_text;
use vstd::prelude::*;

verus! {

/// Where in the sources a finding was made.
#[derive(Clone, Debug, PartialEq, Eq)]
pub struct Location {
    pub file: String,
    pub line: usize,
}

/// One issue that the engine reports.
#[derive(Clone, Debug, PartialEq, Eq)]
pub struct Finding {
    pub severity: Severity,
    pub description: String,
    pub location: Location,
    pub code_snippet: Option<String>,
    pub recommendations: Vec<String>,
}

/// A number of findings for each severity.
#[derive(Clone, Copy, Debug, PartialEq, Eq, Structural)]
pub struct SeverityCounts {
    pub high: usize,
    pub medium: usize,
    pub low: usize,
    pub informational: usize,
}

/// The statistics that the engine reports beside its findings.
#[derive(Clone, Copy, Debug, PartialEq, Eq, Structural)]
pub struct AnalysisStats {
    pub findings_by_severity: SeverityCounts,
}

/// What one run of the engine gives: the findings in the engine's own order,
/// and its statistics.
#[derive(Clone, Debug, PartialEq, Eq)]
pub struct AnalysisResult {
    pub findings: Vec<Finding>,
    pub stats: AnalysisStats,
}

/// One entry of the rule catalog.
#[derive(Clone, Debug, PartialEq, Eq)]
pub struct Rule {
    pub id: String,
    pub title: String,
    pub description: String,
    pub severity: Severity,
}

/// The configuration of one run of the engine.
#[derive(Clone, Debug, PartialEq, Eq)]
pub struct AnalysisOptions {
    pub generate_ast: bool,
    pub custom_templates_path: Option<String>,
    pub include_rule_types: Vec<RuleType>,
    pub ignore_severities: Vec<Severity>,
    pub ignore_rules: Vec<String>,
}

/// The model of [`Location`] that the contracts speak of.
pub struct LocationModel {
    pub file: Seq<char>,
    pub line: nat,
}

/// The model of [`Finding`] that the contracts speak of.
pub struct FindingModel {
    pub severity: Severity,
    pub description: Seq<char>,
    pub location: LocationModel,
    pub code_snippet: Option<Seq<char>>,
    pub recommendations: Seq<Seq<char>>,
}

/// The model of [`AnalysisResult`] that the contracts speak of.
pub struct AnalysisResultModel {
    pub findings: Seq<FindingModel>,
    pub stats: AnalysisStats,
}

/// The model of [`Rule`] that the contracts speak of.
pub struct RuleModel {
    pub id: Seq<char>,
    pub title: Seq<char>,
    pub description: Seq<char>,
    pub severity: Severity,
}

/// The model of [`AnalysisOptions`] that the contracts speak of.
pub struct AnalysisOptionsModel {
    pub generate_ast: bool,
    pub custom_templates_path: Option<Seq<char>>,
    pub include_rule_types: Seq<RuleType>,
    pub ignore_severities: Seq<Severity>,
    pub ignore_rules: Seq<Seq<char>>,
}

impl DeepView for Location {
    type V = LocationModel;

    open spec fn deep_view(&self) -> LocationModel {
        LocationModel { file: self.file@, line: self.line as nat }
    }
}

impl DeepView for Finding {
    type V = FindingModel;

    open spec fn deep_view(&self) -> FindingModel {
        FindingModel {
            severity: self.severity,
            description: self.description@,
            location: self.location.deep_view(),
            code_snippet: self.code_snippet.deep_view(),
            recommendations: self.recommendations.deep_view(),
        }
    }
}

impl DeepView for AnalysisResult {
    type V = AnalysisResultModel;

    open spec fn deep_view(&self) -> AnalysisResultModel {
        AnalysisResultModel { findings: self.findings.deep_view(), stats: self.stats }
    }
}

impl DeepView for Rule {
    type V = RuleModel;

    open spec fn deep_view(&self) -> RuleModel {
        RuleModel {
            id: self.id@,
            title: self.title@,
            description: self.description@,
            severity: self.severity,
        }
    }
}

impl DeepView for AnalysisOptions {
    type V = AnalysisOptionsModel;

    open spec fn deep_view(&self) -> AnalysisOptionsModel {
        AnalysisOptionsModel {
            generate_ast: self.generate_ast,
            custom_templates_path: self.custom_templates_path.deep_view(),
            include_rule_types: self.include_rule_types@,
            ignore_severities: self.ignore_severities@,
            ignore_rules: self.ignore_rules.deep_view(),
        }
    }
}

/// A copy of each text, in the same order.
pub fn copy_texts(texts: &Vec<String>) -> (copies: Vec<String>)
    ensures
        copies.deep_view() == texts.deep_view(),
{
    let mut copies: Vec<String> = Vec::new();
    let mut i: usize = 0;
    while i < texts.len()
        invariant
            i <= texts.len(),
            copies.len() == i,
            forall|k: int| 0 <= k < i ==> (#[trigger] copies[k])@ == texts[k]@,
        decreases texts.len() - i,
    {
        copies.push(texts[i].clone());
        i += 1;
    }
    copies
}

impl Finding {
    /// A copy of the finding.
    pub fn duplicate(&self) -> (copy: Finding)
        ensures
            copy.deep_view() == self.deep_view(),
    {
        Finding {
            severity: self.severity,
            description: self.description.clone(),
            location: Location { file: self.location.file.clone(), line: self.location.line },
            code_snippet: match &self.code_snippet {
                Some(snippet) => Some(snippet.clone()),
                None => None,
            },
            recommendations: copy_texts(&self.recommendations),
        }
    }
}

/// A copy of each finding, in the same order.
pub fn copy_findings(findings: &Vec<Finding>) -> (copies: Vec<Finding>)
    ensures
        copies.deep_view() == findings.deep_view(),
{
    let mut copies: Vec<Finding> = Vec::new();
    let mut i: usize = 0;
    while i < findings.len()
        invariant
            i <= findings.len(),
            copies.len() == i,
            forall|k: int| 0 <= k < i ==> (#[trigger] copies[k]).deep_view() == findings[k].deep_view(),
        decreases findings.len() - i,
    {
        copies.push(findings[i].duplicate());
        i += 1;
    }
    copies
}

impl AnalysisOptionsModel {
    /// Whether findings of the severity are to be left out.
    pub open spec fn ignores_severity(self, severity: Severity) -> bool {
        self.ignore_severities.contains(severity)
    }

    /// Whether the rule of the identifier is to be left out.
    pub open spec fn ignores_rule(self, id: Seq<char>) -> bool {
        self.ignore_rules.contains(id)
    }
}

impl AnalysisOptions {
    /// Whether findings of the severity are to be left out. However often
    /// the severity was named, it is ignored or it is not.
    pub fn ignores_severity(&self, severity: Severity) -> (ignored: bool)
        ensures
            ignored == self.deep_view().ignores_severity(severity),
    {
        let mut i: usize = 0;
        while i < self.ignore_severities.len()
            invariant
                i <= self.ignore_severities.len(),
                forall|k: int| 0 <= k < i ==> self.ignore_severities[k] != severity,
            decreases self.ignore_severities.len() - i,
        {
            if self.ignore_severities[i] == severity {
                return true;
            }
            i += 1;
        }
        false
    }

    /// Whether the rule of the identifier is to be left out. The identifier
    /// is compared as it stands.
    pub fn ignores_rule(&self, id: &str) -> (ignored: bool)
        ensures
            ignored == self.deep_view().ignores_rule(id@),
    {
        let ghost all = self.ignore_rules.deep_view();
        let mut i: usize = 0;
        while i < self.ignore_rules.len()
            invariant
                i <= self.ignore_rules.len(),
                all == self.ignore_rules.deep_view(),
                forall|k: int| 0 <= k < i ==> all[k] != id@,
            decreases self.ignore_rules.len() - i,
        {
            if same_text(self.ignore_rules[i].as_str(), id) {
                proof {
                    assert(all[i as int] == id@);
                }
                return true;
            }
            i += 1;
        }
        false
    }
}

impl SeverityCounts {
    /// The count kept for a severity.
    pub open spec fn of(self, severity: Severity) -> nat {
        match severity {
            Severity::High => self.high as nat,
            Severity::Medium => self.medium as nat,
            Severity::Low => self.low as nat,
            Severity::Informational => self.informational as nat,
        }
    }

    /// The sum of the four counts.
    pub open spec fn total(self) -> nat {
        (self.high + self.medium + self.low + self.informational) as nat
    }

    /// The count kept for a severity.
    pub fn get(&self, severity: Severity) -> (count: usize)
        ensures
            count == self.of(severity),
    {
        match severity {
            Severity::High => self.high,
            Severity::Medium => self.medium,
            Severity::Low => self.low,
            Severity::Informational => self.informational,
        }
    }
}

} // verus!
