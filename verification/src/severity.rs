//! The fixed classifications by which findings and rules are grouped.

use crate::text::{lowercase, same_text, to_lowercase};
use vstd::prelude::*;

verus! {

/// How serious a finding or a rule is. The variants are listed from the most
/// to the least serious, and every grouped display follows that order.
#[derive(Clone, Copy, Debug, PartialEq, Eq, Hash, Structural)]
pub enum Severity {
    High,
    Medium,
    Low,
    Informational,
}

/// The kind of rule: written for the target platform, for its framework, or
/// for any program.
#[derive(Clone, Copy, Debug, PartialEq, Eq, Hash, Structural)]
pub enum RuleType {
    DomainSpecific,
    FrameworkSpecific,
    General,
}

impl DeepView for Severity {
    type V = Severity;

    open spec fn deep_view(&self) -> Severity {
        *self
    }
}

impl DeepView for RuleType {
    type V = RuleType;

    open spec fn deep_view(&self) -> RuleType {
        *self
    }
}

/// The severities from the most to the least serious.
pub open spec fn canonical_order() -> Seq<Severity> {
    seq![Severity::High, Severity::Medium, Severity::Low, Severity::Informational]
}

/// Every kind of rule, in the order in which the engine is told of them.
pub open spec fn all_rule_types() -> Seq<RuleType> {
    seq![RuleType::DomainSpecific, RuleType::FrameworkSpecific, RuleType::General]
}

impl Severity {
    /// Position in the canonical order: 0 for `High`, 3 for `Informational`.
    pub open spec fn rank(self) -> nat {
        match self {
            Severity::High => 0,
            Severity::Medium => 1,
            Severity::Low => 2,
            Severity::Informational => 3,
        }
    }

    /// The severity that a lower-case keyword names, if it names one.
    pub open spec fn named(keyword: Seq<char>) -> Option<Severity> {
        if keyword == "high"@ {
            Some(Severity::High)
        } else if keyword == "medium"@ {
            Some(Severity::Medium)
        } else if keyword == "low"@ {
            Some(Severity::Low)
        } else if keyword == "informational"@ {
            Some(Severity::Informational)
        } else {
            None
        }
    }

    /// The severity that a token names once differences of case are set aside.
    pub open spec fn of_token(token: Seq<char>) -> Option<Severity> {
        Severity::named(lowercase(token))
    }

    /// The name under which the severity is displayed.
    pub open spec fn label_text(self) -> Seq<char> {
        match self {
            Severity::High => "High"@,
            Severity::Medium => "Medium"@,
            Severity::Low => "Low"@,
            Severity::Informational => "Informational"@,
        }
    }

    /// The marker that precedes the severity in a display.
    pub open spec fn marker_text(self) -> Seq<char> {
        match self {
            Severity::High => "🔴"@,
            Severity::Medium => "🟡"@,
            Severity::Low => "🟢"@,
            Severity::Informational => "ℹ️"@,
        }
    }

    /// The position of the severity in the canonical order.
    pub fn position(self) -> (position: usize)
        ensures
            position == self.rank(),
            position < 4,
    {
        match self {
            Severity::High => 0,
            Severity::Medium => 1,
            Severity::Low => 2,
            Severity::Informational => 3,
        }
    }

    /// The severities from the most to the least serious.
    pub fn ordered() -> (order: [Severity; 4])
        ensures
            order@ == canonical_order(),
    {
        let order = [Severity::High, Severity::Medium, Severity::Low, Severity::Informational];
        order
    }

    /// Reads a severity from its lower-case keyword: `high`, `medium`, `low`
    /// or `informational`. Any other text names no severity.
    pub fn from_keyword(keyword: &str) -> (severity: Option<Severity>)
        ensures
            severity == Severity::named(keyword@),
    {
        if same_text(keyword, "high") {
            Some(Severity::High)
        } else if same_text(keyword, "medium") {
            Some(Severity::Medium)
        } else if same_text(keyword, "low") {
            Some(Severity::Low)
        } else if same_text(keyword, "informational") {
            Some(Severity::Informational)
        } else {
            None
        }
    }

    /// Reads each of the keywords, in their order: the severity that it
    /// names, or nothing where it names none.
    pub fn from_keywords(keywords: &Vec<String>) -> (readings: Vec<Option<Severity>>)
        ensures
            readings@ == keywords.deep_view().map_values(
                |keyword: Seq<char>| Severity::named(keyword),
            ),
    {
        let mut readings: Vec<Option<Severity>> = Vec::new();
        let mut i: usize = 0;
        while i < keywords.len()
            invariant
                i <= keywords.len(),
                readings.len() == i,
                forall|k: int| 0 <= k < i ==> #[trigger] readings[k] == Severity::named(keywords[k]@),
            decreases keywords.len() - i,
        {
            readings.push(Severity::from_keyword(keywords[i].as_str()));
            i += 1;
        }
        readings
    }

    /// Reads a severity from a token in any mix of upper and lower case.
    pub fn parse(token: &str) -> (severity: Option<Severity>)
        ensures
            severity == Severity::of_token(token@),
    {
        let lowered = to_lowercase(token);
        Severity::from_keyword(lowered.as_str())
    }

    /// The name under which the severity is displayed.
    pub fn label(self) -> (label: &'static str)
        ensures
            label@ == self.label_text(),
    {
        match self {
            Severity::High => "High",
            Severity::Medium => "Medium",
            Severity::Low => "Low",
            Severity::Informational => "Informational",
        }
    }

    /// The marker that precedes the severity in a display.
    pub fn marker(self) -> (marker: &'static str)
        ensures
            marker@ == self.marker_text(),
    {
        match self {
            Severity::High => "🔴",
            Severity::Medium => "🟡",
            Severity::Low => "🟢",
            Severity::Informational => "ℹ️",
        }
    }
}

impl RuleType {
    /// The kind of rule that a lower-case keyword names, if it names one.
    pub open spec fn named(keyword: Seq<char>) -> Option<RuleType> {
        if keyword == "domain_specific"@ {
            Some(RuleType::DomainSpecific)
        } else if keyword == "framework_specific"@ {
            Some(RuleType::FrameworkSpecific)
        } else if keyword == "general"@ {
            Some(RuleType::General)
        } else {
            None
        }
    }

    /// The kind of rule that a token names once differences of case are set
    /// aside.
    pub open spec fn of_token(token: Seq<char>) -> Option<RuleType> {
        RuleType::named(lowercase(token))
    }

    /// Reads a kind of rule from its lower-case keyword: `domain_specific`,
    /// `framework_specific` or `general`. Any other text names no kind.
    pub fn from_keyword(keyword: &str) -> (kind: Option<RuleType>)
        ensures
            kind == RuleType::named(keyword@),
    {
        if same_text(keyword, "domain_specific") {
            Some(RuleType::DomainSpecific)
        } else if same_text(keyword, "framework_specific") {
            Some(RuleType::FrameworkSpecific)
        } else if same_text(keyword, "general") {
            Some(RuleType::General)
        } else {
            None
        }
    }

    /// Reads each of the keywords, in their order: the kind of rule that it
    /// names, or nothing where it names none.
    pub fn from_keywords(keywords: &Vec<String>) -> (readings: Vec<Option<RuleType>>)
        ensures
            readings@ == keywords.deep_view().map_values(
                |keyword: Seq<char>| RuleType::named(keyword),
            ),
    {
        let mut readings: Vec<Option<RuleType>> = Vec::new();
        let mut i: usize = 0;
        while i < keywords.len()
            invariant
                i <= keywords.len(),
                readings.len() == i,
                forall|k: int| 0 <= k < i ==> #[trigger] readings[k] == RuleType::named(keywords[k]@),
            decreases keywords.len() - i,
        {
            readings.push(RuleType::from_keyword(keywords[i].as_str()));
            i += 1;
        }
        readings
    }

    /// Reads a kind of rule from a token in any mix of upper and lower case.
    pub fn parse(token: &str) -> (kind: Option<RuleType>)
        ensures
            kind == RuleType::of_token(token@),
    {
        let lowered = to_lowercase(token);
        RuleType::from_keyword(lowered.as_str())
    }

    /// Every kind of rule.
    pub fn all() -> (kinds: Vec<RuleType>)
        ensures
            kinds@ == all_rule_types(),
    {
        let mut kinds: Vec<RuleType> = Vec::new();
        kinds.push(RuleType::DomainSpecific);
        kinds.push(RuleType::FrameworkSpecific);
        kinds.push(RuleType::General);
        kinds
    }
}

/// The canonical order lists every severity once, at the position of its rank.
pub proof fn lemma_canonical_order_is_total(severity: Severity)
    ensures
        canonical_order().len() == 4,
        canonical_order()[severity.rank() as int] == severity,
        forall|i: int, j: int|
            0 <= i < j < 4 ==> canonical_order()[i].rank() < canonical_order()[j].rank(),
{
}

/// Filtering severities that stand in ascending rank leaves them in
/// ascending rank, and keeps none that was not there.
pub proof fn lemma_filter_keeps_order(order: Seq<Severity>, keep: spec_fn(Severity) -> bool)
    requires
        forall|i: int, j: int| 0 <= i < j < order.len() ==> order[i].rank() < order[j].rank(),
    ensures
        forall|i: int, j: int|
            0 <= i < j < order.filter(keep).len() ==> order.filter(keep)[i].rank()
                < order.filter(keep)[j].rank(),
        forall|i: int|
            0 <= i < order.filter(keep).len() ==> order.contains(#[trigger] order.filter(keep)[i]),
    decreases order.len(),
{
    reveal(Seq::filter);
    if order.len() > 0 {
        let front = order.drop_last();
        lemma_filter_keeps_order(front, keep);
        let kept = front.filter(keep);
    }
}

} // verus!
