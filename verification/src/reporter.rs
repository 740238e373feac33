//! The console report of a run: a summary of counts, and the findings in
//! detail, grouped by severity and numbered across the groups.

use crate::aggregate::{
    aggregate, count_of, group_of, groups_of, lemma_counts_cover_findings, occurs_in,
    FindingGroup, FindingGroupModel,
};
use crate::console::{blank, put, Color, Line, LineModel, Style};
use crate::model::{AnalysisResult, AnalysisResultModel, Finding, FindingModel, SeverityCounts};
use crate::severity::{canonical_order, Severity};
use crate::text::{decimal, decimal_text, join, joined, pad_right, padded};
use vstd::prelude::*;

verus! {

/// The characters of the rule that separates the parts of a report.
pub open spec fn separator_text() -> Seq<char> {
    "══════════════════════════════════════════════════════════════════════"@
}

/// The rule that separates the parts of a report.
pub open spec fn separator_line() -> LineModel {
    blank().styled(separator_text(), Style::Dimmed)
}

/// The title of a part of a report.
pub open spec fn heading_line(title: Seq<char>) -> LineModel {
    blank().styled(title, Style::Strong(Color::BrightWhite))
}

/// The line that says that nothing was found.
pub open spec fn no_findings_line() -> LineModel {
    blank().plain("  "@).styled("✓"@, Style::Strong(Color::Green)).plain(
        " No vulnerabilities found!"@,
    )
}

/// The line that gives the number of findings.
pub open spec fn total_line(total: nat) -> LineModel {
    blank().plain("  Total findings: "@).styled(decimal(total), Style::Bold)
}

/// The line that gives the number of findings of one severity.
pub open spec fn count_line(severity: Severity, count: nat) -> LineModel {
    blank().plain(
        "  "@ + severity.marker_text() + " "@ + padded(severity.label_text() + ":"@, 15) + " "@,
    ).styled(decimal(count), severity.emphasis_of())
}

/// The count lines of the first `upto` severities of the canonical order:
/// one line for each of them that has a count above zero.
pub open spec fn count_lines(counts: SeverityCounts, upto: nat) -> Seq<LineModel>
    decreases upto,
{
    if upto == 0 {
        Seq::<LineModel>::empty()
    } else {
        let severity = canonical_order()[upto - 1];
        let before = count_lines(counts, (upto - 1) as nat);
        if counts.of(severity) > 0 {
            before.push(count_line(severity, counts.of(severity)))
        } else {
            before
        }
    }
}

/// What opens a part of a report: a rule and a title, each followed by an
/// empty line.
pub open spec fn opening_lines(title: Seq<char>) -> Seq<LineModel> {
    seq![separator_line(), blank(), heading_line(title), blank()]
}

/// The summary of a result: the number of findings, then the count that the
/// statistics give for each severity that has findings, most serious first.
pub open spec fn summary_lines(result: AnalysisResultModel) -> Seq<LineModel> {
    let opening = opening_lines("📊 ANALYSIS SUMMARY"@);
    if result.findings.len() == 0 {
        opening + seq![no_findings_line(), blank()]
    } else {
        opening + seq![total_line(result.findings.len()), blank()] + count_lines(
            result.stats.findings_by_severity,
            4,
        ) + seq![blank()]
    }
}

/// The heading of the group of one severity.
pub open spec fn group_heading_line(severity: Severity) -> LineModel {
    blank().plain(severity.marker_text() + " "@).styled(
        severity.label_text() + " Severity"@,
        severity.heading_of(),
    )
}

/// The line that numbers a finding and describes it.
pub open spec fn numbered_line(finding: FindingModel, number: nat) -> LineModel {
    blank().plain("  "@).styled(decimal(number), Style::Bold).plain(". "@).styled(
        finding.description,
        finding.severity.emphasis_of(),
    )
}

/// The line that says where a finding was made: the file, a colon, the line.
pub open spec fn location_line(finding: FindingModel) -> LineModel {
    blank().plain("     📍 "@).styled(
        finding.location.file + ":"@ + decimal(finding.location.line),
        finding.severity.tint_of(),
    )
}

/// The line that shows the code of a finding.
pub open spec fn code_line(severity: Severity, snippet: Seq<char>) -> LineModel {
    blank().plain("     "@).styled("Code:"@, Style::Dimmed).plain(" "@).styled(
        snippet,
        severity.tint_of(),
    )
}

/// The line that gives the recommendations of a finding, joined by commas.
pub open spec fn advice_line(recommendations: Seq<Seq<char>>) -> LineModel {
    blank().plain("     💡 "@).styled(joined(recommendations, ", "@), Style::Tint(Color::Green))
}

/// The lines of one finding: its number and description, its location, in
/// verbose mode its code where it has any and its recommendations where it
/// has any, and an empty line.
pub open spec fn entry_lines(finding: FindingModel, number: nat, verbose: bool) -> Seq<
    LineModel,
> {
    let code = if verbose && finding.code_snippet is Some {
        seq![code_line(finding.severity, finding.code_snippet->0)]
    } else {
        Seq::<LineModel>::empty()
    };
    let advice = if verbose && finding.recommendations.len() > 0 {
        seq![advice_line(finding.recommendations)]
    } else {
        Seq::<LineModel>::empty()
    };
    seq![numbered_line(finding, number), location_line(finding)] + code + advice + seq![blank()]
}

/// The lines of the first `upto` findings of a group, numbered from
/// `before + 1` on.
pub open spec fn entries_lines(
    findings: Seq<FindingModel>,
    before: nat,
    verbose: bool,
    upto: nat,
) -> Seq<LineModel>
    decreases upto,
{
    if upto == 0 {
        Seq::<LineModel>::empty()
    } else {
        entries_lines(findings, before, verbose, (upto - 1) as nat) + entry_lines(
            findings[upto - 1],
            before + upto,
            verbose,
        )
    }
}

/// The lines of a group: its heading, an empty line, and its findings.
pub open spec fn group_lines(group: FindingGroupModel, before: nat, verbose: bool) -> Seq<
    LineModel,
> {
    seq![group_heading_line(group.severity), blank()] + entries_lines(
        group.findings,
        before,
        verbose,
        group.findings.len(),
    )
}

/// How many findings the first `upto` groups hold.
pub open spec fn shown_before(groups: Seq<FindingGroupModel>, upto: nat) -> nat
    decreases upto,
{
    if upto == 0 {
        0
    } else {
        shown_before(groups, (upto - 1) as nat) + groups[upto - 1].findings.len()
    }
}

/// The lines of the first `upto` groups. The numbers run on from one group
/// to the next.
pub open spec fn groups_lines(groups: Seq<FindingGroupModel>, verbose: bool, upto: nat) -> Seq<
    LineModel,
>
    decreases upto,
{
    if upto == 0 {
        Seq::<LineModel>::empty()
    } else {
        groups_lines(groups, verbose, (upto - 1) as nat) + group_lines(
            groups[upto - 1],
            shown_before(groups, (upto - 1) as nat),
            verbose,
        )
    }
}

/// The findings in detail: nothing where there are none, else a title and
/// the groups of the findings, most serious first.
pub open spec fn finding_lines(findings: Seq<FindingModel>, verbose: bool) -> Seq<LineModel> {
    if findings.len() == 0 {
        Seq::<LineModel>::empty()
    } else {
        opening_lines("🔍 DETAILED FINDINGS"@) + groups_lines(
            groups_of(findings),
            verbose,
            groups_of(findings).len(),
        )
    }
}

/// The number of findings in the first groups depends on those groups alone.
proof fn lemma_shown_before_of_prefix(
    groups: Seq<FindingGroupModel>,
    longer: Seq<FindingGroupModel>,
    upto: nat,
)
    requires
        upto <= groups.len() <= longer.len(),
        forall|i: int| 0 <= i < groups.len() ==> groups[i] == longer[i],
    ensures
        shown_before(groups, upto) == shown_before(longer, upto),
    decreases upto,
{
    if upto > 0 {
        lemma_shown_before_of_prefix(groups, longer, (upto - 1) as nat);
    }
}

/// More groups hold no fewer findings.
proof fn lemma_shown_before_grows(groups: Seq<FindingGroupModel>, fewer: nat, more: nat)
    requires
        fewer <= more,
    ensures
        shown_before(groups, fewer) <= shown_before(groups, more),
    decreases more,
{
    if fewer < more {
        lemma_shown_before_grows(groups, fewer, (more - 1) as nat);
    }
}

/// How many findings are of the first `upto` severities of the canonical
/// order.
spec fn count_upto(findings: Seq<FindingModel>, upto: nat) -> nat
    decreases upto,
{
    if upto == 0 {
        0
    } else {
        count_upto(findings, (upto - 1) as nat) + count_of(findings, canonical_order()[upto - 1])
    }
}

/// The groups of the first `upto` severities hold the findings of those
/// severities.
proof fn lemma_groups_of_prefix(findings: Seq<FindingModel>, upto: nat)
    requires
        upto <= 4,
    ensures
        ({
            let groups = canonical_order().take(upto as int).filter(
                occurs_in(findings),
            ).map_values(group_of(findings));
            shown_before(groups, groups.len()) == count_upto(findings, upto)
        }),
    decreases upto,
{
    let order = canonical_order();
    let keep = occurs_in(findings);
    let make = group_of(findings);
    if upto == 0 {
        assert(Seq::<Severity>::empty().filter(keep) =~= Seq::<Severity>::empty()) by {
            reveal(Seq::filter);
        }
    } else {
        lemma_groups_of_prefix(findings, (upto - 1) as nat);
        let severity = order[upto - 1];
        let kept = order.take(upto - 1).filter(keep);
        let groups = kept.map_values(make);
        assert(order.take(upto as int) =~= order.take(upto - 1).push(severity));
        order.take(upto - 1).lemma_filter_push(severity, keep);
        if keep(severity) {
            let longer = kept.push(severity).map_values(make);
            lemma_shown_before_of_prefix(groups, longer, groups.len());
        }
    }
}

/// Every finding is in exactly one group: the groups together hold as many
/// findings as there are.
pub proof fn lemma_groups_hold_every_finding(findings: Seq<FindingModel>)
    ensures
        shown_before(groups_of(findings), groups_of(findings).len()) == findings.len(),
{
    lemma_groups_of_prefix(findings, 4);
    lemma_counts_cover_findings(findings);
    assert(canonical_order().take(4) =~= canonical_order());
    reveal_with_fuel(count_upto, 5);
}

/// The rule that separates the parts of a report.
fn separator() -> (line: Line)
    ensures
        line.deep_view() == separator_line(),
{
    Line::blank().styled(
        "══════════════════════════════════════════════════════════════════════",
        Style::Dimmed,
    )
}

/// Adds what opens a part of a report.
fn put_opening(lines: &mut Vec<Line>, title: &str)
    ensures
        final(lines).deep_view() == old(lines).deep_view() + opening_lines(title@),
{
    put(lines, separator());
    put(lines, Line::blank());
    put(lines, Line::blank().styled(title, Style::Strong(Color::BrightWhite)));
    put(lines, Line::blank());
}

/// The line that gives the number of findings of one severity.
fn render_count_line(severity: Severity, count: usize) -> (line: Line)
    ensures
        line.deep_view() == count_line(severity, count as nat),
{
    let mut label = severity.label().to_owned();
    label.append(":");
    let mut lead = "  ".to_owned();
    lead.append(severity.marker());
    lead.append(" ");
    lead.append(pad_right(label.as_str(), 15).as_str());
    lead.append(" ");
    Line::blank().plain(lead.as_str()).styled(
        decimal_text(count).as_str(),
        severity.emphasis(),
    )
}

/// Renders the summary of a result.
pub fn render_summary(result: &AnalysisResult) -> (lines: Vec<Line>)
    ensures
        lines.deep_view() == summary_lines(result.deep_view()),
{
    let mut lines: Vec<Line> = Vec::new();
    put_opening(&mut lines, "📊 ANALYSIS SUMMARY");
    let total = result.findings.len();
    if total == 0 {
        put(
            &mut lines,
            Line::blank().plain("  ").styled("✓", Style::Strong(Color::Green)).plain(
                " No vulnerabilities found!",
            ),
        );
        put(&mut lines, Line::blank());
        return lines;
    }
    put(
        &mut lines,
        Line::blank().plain("  Total findings: ").styled(decimal_text(total).as_str(), Style::Bold),
    );
    put(&mut lines, Line::blank());
    let counts = result.stats.findings_by_severity;
    let ghost head = lines.deep_view();
    let severities = Severity::ordered();
    let mut position: usize = 0;
    while position < 4
        invariant
            position <= 4,
            severities@ == canonical_order(),
            lines.deep_view() == head + count_lines(counts, position as nat),
        decreases 4 - position,
    {
        let severity = severities[position];
        let count = counts.get(severity);
        if count > 0 {
            put(&mut lines, render_count_line(severity, count));
        }
        position += 1;
    }
    put(&mut lines, Line::blank());
    lines
}

/// Adds the lines of one finding.
fn put_entry(lines: &mut Vec<Line>, finding: &Finding, number: usize, verbose: bool)
    ensures
        final(lines).deep_view() == old(lines).deep_view() + entry_lines(
            finding.deep_view(),
            number as nat,
            verbose,
        ),
{
    let severity = finding.severity;
    put(
        lines,
        Line::blank().plain("  ").styled(decimal_text(number).as_str(), Style::Bold).plain(
            ". ",
        ).styled(finding.description.as_str(), severity.emphasis()),
    );
    let mut place = finding.location.file.clone();
    place.append(":");
    place.append(decimal_text(finding.location.line).as_str());
    put(lines, Line::blank().plain("     📍 ").styled(place.as_str(), severity.tint()));
    if verbose {
        match &finding.code_snippet {
            Some(snippet) => {
                put(
                    lines,
                    Line::blank().plain("     ").styled("Code:", Style::Dimmed).plain(" ").styled(
                        snippet.as_str(),
                        severity.tint(),
                    ),
                );
            },
            None => {},
        }
    }
    if verbose && finding.recommendations.len() > 0 {
        put(
            lines,
            Line::blank().plain("     💡 ").styled(
                join(&finding.recommendations, ", ").as_str(),
                Style::Tint(Color::Green),
            ),
        );
    }
    put(lines, Line::blank());
}

/// Adds the lines of one group.
fn put_group(lines: &mut Vec<Line>, group: &FindingGroup, before: usize, verbose: bool)
    requires
        before + group.findings.len() <= usize::MAX,
    ensures
        final(lines).deep_view() == old(lines).deep_view() + group_lines(
            group.deep_view(),
            before as nat,
            verbose,
        ),
{
    let ghost model = group.deep_view();
    let severity = group.severity;
    let mut title = severity.label().to_owned();
    title.append(" Severity");
    let mut lead = severity.marker().to_owned();
    lead.append(" ");
    put(lines, Line::blank().plain(lead.as_str()).styled(title.as_str(), severity.heading()));
    put(lines, Line::blank());
    let ghost head = lines.deep_view();
    let mut i: usize = 0;
    while i < group.findings.len()
        invariant
            i <= group.findings.len(),
            before + group.findings.len() <= usize::MAX,
            model == group.deep_view(),
            lines.deep_view() == head + entries_lines(
                model.findings,
                before as nat,
                verbose,
                i as nat,
            ),
        decreases group.findings.len() - i,
    {
        put_entry(lines, group.findings[i], before + i + 1, verbose);
        i += 1;
    }
}

/// Renders the findings in detail.
pub fn render_findings(result: &AnalysisResult, verbose: bool) -> (lines: Vec<Line>)
    ensures
        lines.deep_view() == finding_lines(result.findings.deep_view(), verbose),
{
    let mut lines: Vec<Line> = Vec::new();
    if result.findings.len() == 0 {
        return lines;
    }
    put_opening(&mut lines, "🔍 DETAILED FINDINGS");
    let ghost head = lines.deep_view();
    let aggregation = aggregate(result);
    let ghost groups = aggregation.groups.deep_view();
    proof {
        lemma_groups_hold_every_finding(result.findings.deep_view());
    }
    let mut shown: usize = 0;
    let mut g: usize = 0;
    while g < aggregation.groups.len()
        invariant
            g <= aggregation.groups.len(),
            groups == aggregation.groups.deep_view(),
            shown == shown_before(groups, g as nat),
            shown_before(groups, groups.len()) <= usize::MAX,
            lines.deep_view() == head + groups_lines(groups, verbose, g as nat),
        decreases aggregation.groups.len() - g,
    {
        proof {
            lemma_shown_before_grows(groups, (g + 1) as nat, groups.len());
        }
        put_group(&mut lines, &aggregation.groups[g], shown, verbose);
        shown += aggregation.groups[g].findings.len();
        g += 1;
    }
    lines
}

/// Rendering the summary of one result gives the same lines every time.
pub proof fn lemma_summary_is_repeatable(
    result: AnalysisResultModel,
    first: Seq<LineModel>,
    second: Seq<LineModel>,
)
    requires
        first == summary_lines(result),
        second == summary_lines(result),
    ensures
        first == second,
{
}

/// The summary rests on the number of findings and on the statistics
/// alone: what else the findings hold does not change it.
pub proof fn lemma_summary_rests_on_counts(first: AnalysisResultModel, second: AnalysisResultModel)
    requires
        first.findings.len() == second.findings.len(),
        first.stats == second.stats,
    ensures
        summary_lines(first) == summary_lines(second),
{
}

} // verus!
