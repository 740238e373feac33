//! Grouping of findings by severity, and the counts that go with the groups.

use crate::model::{
    AnalysisResult, AnalysisResultModel, AnalysisStats, Finding, FindingModel, SeverityCounts,
};
use crate::severity::{canonical_order, lemma_filter_keeps_order, Severity};
use vstd::prelude::*;

verus! {

/// The findings of one severity, in the order in which the engine gave them.
#[derive(Debug, PartialEq, Eq)]
pub struct FindingGroup<'a> {
    pub severity: Severity,
    pub findings: Vec<&'a Finding>,
}

/// The findings of a run, grouped for display.
#[derive(Debug, PartialEq, Eq)]
pub struct Aggregation<'a> {
    /// The number of findings.
    pub total: usize,
    /// The counts that the engine reported.
    pub reported: SeverityCounts,
    /// The counts made here from the findings themselves.
    pub counted: SeverityCounts,
    /// One group for each severity that occurs, most serious first.
    pub groups: Vec<FindingGroup<'a>>,
}

/// The model of [`FindingGroup`] that the contracts speak of.
pub struct FindingGroupModel {
    pub severity: Severity,
    pub findings: Seq<FindingModel>,
}

/// The model of [`Aggregation`] that the contracts speak of.
pub struct AggregationModel {
    pub total: nat,
    pub reported: SeverityCounts,
    pub counted: SeverityCounts,
    pub groups: Seq<FindingGroupModel>,
}

impl<'a> DeepView for FindingGroup<'a> {
    type V = FindingGroupModel;

    open spec fn deep_view(&self) -> FindingGroupModel {
        FindingGroupModel { severity: self.severity, findings: self.findings.deep_view() }
    }
}

impl<'a> DeepView for Aggregation<'a> {
    type V = AggregationModel;

    open spec fn deep_view(&self) -> AggregationModel {
        AggregationModel {
            total: self.total as nat,
            reported: self.reported,
            counted: self.counted,
            groups: self.groups.deep_view(),
        }
    }
}

/// The test that a finding is of the given severity.
pub open spec fn has_severity(severity: Severity) -> spec_fn(FindingModel) -> bool {
    |finding: FindingModel| finding.severity == severity
}

/// The findings of one severity, in the order in which they came.
pub open spec fn with_severity(findings: Seq<FindingModel>, severity: Severity) -> Seq<
    FindingModel,
> {
    findings.filter(has_severity(severity))
}

/// How many findings are of the given severity.
pub open spec fn count_of(findings: Seq<FindingModel>, severity: Severity) -> nat {
    with_severity(findings, severity).len()
}

/// The test that at least one finding is of a severity.
pub open spec fn occurs_in(findings: Seq<FindingModel>) -> spec_fn(Severity) -> bool {
    |severity: Severity| count_of(findings, severity) > 0
}

/// The severities that occur among the findings, most serious first.
pub open spec fn occurring(findings: Seq<FindingModel>) -> Seq<Severity> {
    canonical_order().filter(occurs_in(findings))
}

/// The group of one severity.
pub open spec fn group_of(findings: Seq<FindingModel>) -> spec_fn(Severity) -> FindingGroupModel {
    |severity: Severity|
        FindingGroupModel { severity, findings: with_severity(findings, severity) }
}

/// The groups of the findings: one for each severity that occurs, most
/// serious first, each holding its findings in the order in which they came.
pub open spec fn groups_of(findings: Seq<FindingModel>) -> Seq<FindingGroupModel> {
    occurring(findings).map_values(group_of(findings))
}

/// Whether the four counts are those of the findings.
pub open spec fn counts_match(counts: SeverityCounts, findings: Seq<FindingModel>) -> bool {
    forall|severity: Severity| counts.of(severity) == count_of(findings, severity)
}

impl AnalysisResultModel {
    /// Whether the statistics agree with the findings, severity by severity.
    pub open spec fn consistent(self) -> bool {
        counts_match(self.stats.findings_by_severity, self.findings)
    }
}

/// The counts of the four severities add up to the number of findings.
pub proof fn lemma_counts_cover_findings(findings: Seq<FindingModel>)
    ensures
        count_of(findings, Severity::High) + count_of(findings, Severity::Medium) + count_of(
            findings,
            Severity::Low,
        ) + count_of(findings, Severity::Informational) == findings.len(),
    decreases findings.len(),
{
    reveal(Seq::filter);
    if findings.len() > 0 {
        lemma_counts_cover_findings(findings.drop_last());
    }
}

/// Where the statistics of a result agree with its findings, the counts of
/// the statistics add up to the number of findings.
pub proof fn lemma_consistent_stats_sum_to_total(result: AnalysisResultModel)
    requires
        result.consistent(),
    ensures
        result.stats.findings_by_severity.total() == result.findings.len(),
{
    lemma_counts_cover_findings(result.findings);
}

/// The severities of the groups, in the order of the groups.
pub open spec fn severities_of(groups: Seq<FindingGroupModel>) -> Seq<Severity> {
    groups.map_values(|group: FindingGroupModel| group.severity)
}

/// The severities of the groups are the canonical order restricted to the
/// severities that occur, whatever the order of the findings. No group is
/// empty, and each holds the findings of its severity.
pub proof fn lemma_groups_follow_canonical_order(findings: Seq<FindingModel>)
    ensures
        severities_of(groups_of(findings)) == canonical_order().filter(occurs_in(findings)),
        groups_of(findings).len() == occurring(findings).len(),
        forall|i: int|
            0 <= i < groups_of(findings).len() ==> {
                &&& (#[trigger] groups_of(findings)[i]).severity == occurring(findings)[i]
                &&& groups_of(findings)[i].findings == with_severity(
                    findings,
                    occurring(findings)[i],
                )
                &&& groups_of(findings)[i].findings.len() > 0
            },
        forall|i: int, j: int|
            0 <= i < j < groups_of(findings).len() ==> groups_of(findings)[i].severity.rank()
                < groups_of(findings)[j].severity.rank(),
{
    let order = canonical_order();
    let keep = occurs_in(findings);
    lemma_filter_keeps_order(order, keep);
    assert forall|i: int| 0 <= i < groups_of(findings).len() implies (#[trigger] groups_of(
        findings,
    )[i]).findings.len() > 0 by {
        order.lemma_filter_pred(keep, i);
    }
}

/// The findings of one severity, in the order in which they came.
pub fn select<'a>(findings: &'a Vec<Finding>, severity: Severity) -> (chosen: Vec<&'a Finding>)
    ensures
        chosen.deep_view() == with_severity(findings.deep_view(), severity),
{
    let mut chosen: Vec<&'a Finding> = Vec::new();
    let mut i: usize = 0;
    let ghost all = findings.deep_view();
    proof {
        reveal(Seq::filter);
    }
    while i < findings.len()
        invariant
            i <= findings.len(),
            all == findings.deep_view(),
            chosen.deep_view() == with_severity(all.take(i as int), severity),
        decreases findings.len() - i,
    {
        proof {
            assert(all.take(i + 1) =~= all.take(i as int).push(all[i as int]));
            all.take(i as int).lemma_filter_push(all[i as int], has_severity(severity));
        }
        if findings[i].severity == severity {
            chosen.push(&findings[i]);
        }
        i += 1;
    }
    proof {
        assert(all.take(findings.len() as int) =~= all);
    }
    chosen
}

/// Counts the findings of each severity.
pub fn tally(findings: &Vec<Finding>) -> (counts: SeverityCounts)
    ensures
        counts_match(counts, findings.deep_view()),
        counts.total() == findings.len(),
{
    let mut counts = SeverityCounts { high: 0, medium: 0, low: 0, informational: 0 };
    let mut i: usize = 0;
    let ghost all = findings.deep_view();
    proof {
        reveal(Seq::filter);
    }
    while i < findings.len()
        invariant
            i <= findings.len(),
            all == findings.deep_view(),
            counts_match(counts, all.take(i as int)),
            counts.total() == i,
        decreases findings.len() - i,
    {
        let ghost before = counts;
        proof {
            assert(all.take(i + 1) =~= all.take(i as int).push(all[i as int]));
            assert forall|s: Severity|
                count_of(all.take(i + 1), s) == count_of(all.take(i as int), s) + (if all[i as int].severity
                    == s {
                    1nat
                } else {
                    0nat
                }) by {
                all.take(i as int).lemma_filter_push(all[i as int], has_severity(s));
            }
            assert(before.of(Severity::High) == count_of(all.take(i as int), Severity::High));
            assert(before.of(Severity::Medium) == count_of(all.take(i as int), Severity::Medium));
            assert(before.of(Severity::Low) == count_of(all.take(i as int), Severity::Low));
            assert(before.of(Severity::Informational) == count_of(
                all.take(i as int),
                Severity::Informational,
            ));
        }
        match findings[i].severity {
            Severity::High => {
                counts.high += 1;
            },
            Severity::Medium => {
                counts.medium += 1;
            },
            Severity::Low => {
                counts.low += 1;
            },
            Severity::Informational => {
                counts.informational += 1;
            },
        }
        i += 1;
    }
    proof {
        assert(all.take(findings.len() as int) =~= all);
    }
    counts
}

impl AnalysisResult {
    /// The result that holds the findings, with the statistics counted from
    /// them: the counts agree with the findings, and add up to their number.
    pub fn from_findings(findings: Vec<Finding>) -> (result: AnalysisResult)
        ensures
            result.findings == findings,
            result.deep_view().consistent(),
            result.stats.findings_by_severity.total() == findings.len(),
    {
        let counts = tally(&findings);
        AnalysisResult { findings, stats: AnalysisStats { findings_by_severity: counts } }
    }
}

/// Whether the statistics of a result agree with its findings.
pub fn stats_are_consistent(result: &AnalysisResult) -> (consistent: bool)
    ensures
        consistent == result.deep_view().consistent(),
{
    let counted = tally(&result.findings);
    let reported = result.stats.findings_by_severity;
    proof {
        if result.deep_view().consistent() {
            assert(reported.of(Severity::High) == counted.of(Severity::High));
            assert(reported.of(Severity::Medium) == counted.of(Severity::Medium));
            assert(reported.of(Severity::Low) == counted.of(Severity::Low));
            assert(reported.of(Severity::Informational) == counted.of(Severity::Informational));
        }
    }
    counted.high == reported.high && counted.medium == reported.medium && counted.low
        == reported.low && counted.informational == reported.informational
}

/// Groups the findings of a result by severity. The groups come in the
/// canonical order of their severities, only severities that occur have a
/// group, and within a group the findings keep the order of the engine.
pub fn aggregate<'a>(result: &'a AnalysisResult) -> (aggregation: Aggregation<'a>)
    ensures
        aggregation.total == result.findings.len(),
        aggregation.reported == result.stats.findings_by_severity,
        counts_match(aggregation.counted, result.findings.deep_view()),
        aggregation.groups.deep_view() == groups_of(result.findings.deep_view()),
{
    let ghost all = result.findings.deep_view();
    let ghost order = canonical_order();
    let mut groups: Vec<FindingGroup<'a>> = Vec::new();
    let severities = Severity::ordered();
    let mut position: usize = 0;
    proof {
        reveal(Seq::filter);
    }
    while position < 4
        invariant
            position <= 4,
            all == result.findings.deep_view(),
            order == canonical_order(),
            severities@ == order,
            groups.deep_view() == order.take(position as int).filter(occurs_in(all)).map_values(
                group_of(all),
            ),
        decreases 4 - position,
    {
        let severity = severities[position];
        let chosen = select(&result.findings, severity);
        let ghost before = groups.deep_view();
        proof {
            assert(order.take(position + 1) =~= order.take(position as int).push(severity));
            order.take(position as int).lemma_filter_push(severity, occurs_in(all));
        }
        if chosen.len() > 0 {
            groups.push(FindingGroup { severity, findings: chosen });
            proof {
                assert(groups.deep_view() =~= before.push(group_of(all)(severity)));
            }
        }
        position += 1;
    }
    proof {
        assert(order.take(4) =~= order);
    }
    let counted = tally(&result.findings);
    Aggregation {
        total: result.findings.len(),
        reported: result.stats.findings_by_severity,
        counted,
        groups,
    }
}

} // verus!
