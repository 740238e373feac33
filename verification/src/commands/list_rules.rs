//! The command that lists the rules of the catalog, grouped by severity.

use crate::catalog::{list, listing_of, RuleGroup, RuleGroupModel, RuleListing, RuleListingModel};
use crate::console::{blank, put, Channel, Color, Line, LineModel, Style};
use crate::error::{Failure, FailureModel, RunError, RunErrorModel};
use crate::model::{Rule, RuleModel};
use crate::severity::Severity;
use crate::text::{decimal, decimal_text};
use vstd::prelude::*;

verus! {

/// What opens the listing: its title between two empty lines.
pub open spec fn title_lines() -> Seq<LineModel> {
    seq![
        blank(),
        blank().styled("📋 Available Detection Rules"@, Style::Strong(Color::BrightCyan)),
        blank(),
    ]
}

/// The line of the error output that says that the filter names no severity.
pub open spec fn unknown_filter_line(token: Seq<char>) -> LineModel {
    LineModel::on(Channel::Stderr).styled("✗"@, Style::Strong(Color::Red)).plain(
        " Unknown severity: "@ + token,
    )
}

/// The line that says that the view holds no rule.
pub open spec fn no_rules_line() -> LineModel {
    blank().plain("  "@).styled("⚠"@, Style::Tint(Color::Yellow)).plain(" No rules found"@)
}

/// The heading of the group of one severity, with the number of its rules.
pub open spec fn rule_group_heading(severity: Severity, count: nat) -> LineModel {
    blank().plain(severity.marker_text() + " "@).styled(
        severity.label_text() + " Severity"@,
        severity.emphasis_of(),
    ).plain(" ("@ + decimal(count) + " rules)"@)
}

/// The line that names a rule: its identifier and its title.
pub open spec fn rule_line(rule: RuleModel) -> LineModel {
    blank().plain("  • "@).styled(rule.id, Style::Bold).plain(" - "@ + rule.title)
}

/// The line that describes a rule.
pub open spec fn rule_detail_line(rule: RuleModel) -> LineModel {
    blank().plain("    "@).styled(rule.description, Style::Dimmed)
}

/// The lines of one rule: its name, and where details are asked for its
/// description and an empty line.
pub open spec fn rule_lines(rule: RuleModel, detailed: bool) -> Seq<LineModel> {
    if detailed {
        seq![rule_line(rule), rule_detail_line(rule), blank()]
    } else {
        seq![rule_line(rule)]
    }
}

/// The lines of the first `upto` rules.
pub open spec fn rules_lines(rules: Seq<RuleModel>, detailed: bool, upto: nat) -> Seq<LineModel>
    decreases upto,
{
    if upto == 0 {
        Seq::<LineModel>::empty()
    } else {
        rules_lines(rules, detailed, (upto - 1) as nat) + rule_lines(rules[upto - 1], detailed)
    }
}

/// The lines of a group: its heading, an empty line, its rules, and an
/// empty line.
pub open spec fn rule_group_lines(group: RuleGroupModel, detailed: bool) -> Seq<LineModel> {
    seq![rule_group_heading(group.severity, group.rules.len()), blank()] + rules_lines(
        group.rules,
        detailed,
        group.rules.len(),
    ) + seq![blank()]
}

/// The lines of the first `upto` groups.
pub open spec fn rule_groups_lines(groups: Seq<RuleGroupModel>, detailed: bool, upto: nat) -> Seq<
    LineModel,
>
    decreases upto,
{
    if upto == 0 {
        Seq::<LineModel>::empty()
    } else {
        rule_groups_lines(groups, detailed, (upto - 1) as nat) + rule_group_lines(
            groups[upto - 1],
            detailed,
        )
    }
}

/// The line that gives the number of rules in the view, and an empty line.
pub open spec fn total_rules_lines(total: nat) -> Seq<LineModel> {
    seq![blank().plain("Total: "@).styled(decimal(total), Style::Bold).plain(" rules"@), blank()]
}

/// The lines of a listing: a notice where it holds no rule, else its groups
/// and the number of its rules.
pub open spec fn listing_lines(listing: RuleListingModel, detailed: bool) -> Seq<LineModel> {
    if listing.total == 0 {
        seq![no_rules_line()]
    } else {
        rule_groups_lines(listing.groups, detailed, listing.groups.len()) + total_rules_lines(
            listing.total,
        )
    }
}

/// What the command gives for a filter that was read: the title and the
/// listing of the catalog under the filter.
pub open spec fn listed_lines(catalog: Seq<RuleModel>, filter: Option<Severity>, detailed: bool) -> Seq<
    LineModel,
> {
    title_lines() + listing_lines(listing_of(catalog, filter), detailed)
}

/// What the command gives. A filter in any mix of case that names a
/// severity restricts the listing to that severity; a filter that names
/// none is an error, reported after the title.
pub open spec fn outcome(catalog: Seq<RuleModel>, filter: Option<Seq<char>>, detailed: bool) -> Result<
    Seq<LineModel>,
    FailureModel,
> {
    match filter {
        None => Ok(listed_lines(catalog, None, detailed)),
        Some(token) => match Severity::of_token(token) {
            Some(severity) => Ok(listed_lines(catalog, Some(severity), detailed)),
            None => Err(
                FailureModel {
                    output: title_lines().push(unknown_filter_line(token)),
                    error: RunErrorModel::UnknownSeverity { token },
                },
            ),
        },
    }
}

/// Adds the lines of a group.
fn put_rule_group(lines: &mut Vec<Line>, group: &RuleGroup, detailed: bool)
    ensures
        final(lines).deep_view() == old(lines).deep_view() + rule_group_lines(
            group.deep_view(),
            detailed,
        ),
{
    let ghost model = group.deep_view();
    let severity = group.severity;
    let mut lead = severity.marker().to_owned();
    lead.append(" ");
    let mut title = severity.label().to_owned();
    title.append(" Severity");
    let mut count = " (".to_owned();
    count.append(decimal_text(group.rules.len()).as_str());
    count.append(" rules)");
    put(
        lines,
        Line::blank().plain(lead.as_str()).styled(title.as_str(), severity.emphasis()).plain(
            count.as_str(),
        ),
    );
    put(lines, Line::blank());
    let ghost head = lines.deep_view();
    let mut i: usize = 0;
    while i < group.rules.len()
        invariant
            i <= group.rules.len(),
            model == group.deep_view(),
            lines.deep_view() == head + rules_lines(model.rules, detailed, i as nat),
        decreases group.rules.len() - i,
    {
        let rule = group.rules[i];
        let mut name = " - ".to_owned();
        name.append(rule.title.as_str());
        put(
            lines,
            Line::blank().plain("  • ").styled(rule.id.as_str(), Style::Bold).plain(
                name.as_str(),
            ),
        );
        if detailed {
            put(lines, Line::blank().plain("    ").styled(rule.description.as_str(), Style::Dimmed));
            put(lines, Line::blank());
        }
        i += 1;
    }
    put(lines, Line::blank());
}

/// Renders a listing.
pub fn render_listing(listing: &RuleListing, detailed: bool) -> (lines: Vec<Line>)
    ensures
        lines.deep_view() == listing_lines(listing.deep_view(), detailed),
{
    let mut lines: Vec<Line> = Vec::new();
    if listing.total == 0 {
        put(
            &mut lines,
            Line::blank().plain("  ").styled("⚠", Style::Tint(Color::Yellow)).plain(
                " No rules found",
            ),
        );
        return lines;
    }
    let ghost groups = listing.groups.deep_view();
    let mut g: usize = 0;
    while g < listing.groups.len()
        invariant
            g <= listing.groups.len(),
            groups == listing.groups.deep_view(),
            lines.deep_view() == rule_groups_lines(groups, detailed, g as nat),
        decreases listing.groups.len() - g,
    {
        put_rule_group(&mut lines, &listing.groups[g], detailed);
        g += 1;
    }
    put(
        &mut lines,
        Line::blank().plain("Total: ").styled(decimal_text(listing.total).as_str(), Style::Bold).plain(
            " rules",
        ),
    );
    put(&mut lines, Line::blank());
    lines
}

/// What opens the listing.
fn title() -> (lines: Vec<Line>)
    ensures
        lines.deep_view() == title_lines(),
{
    let mut lines: Vec<Line> = Vec::new();
    put(&mut lines, Line::blank());
    put(
        &mut lines,
        Line::blank().styled("📋 Available Detection Rules", Style::Strong(Color::BrightCyan)),
    );
    put(&mut lines, Line::blank());
    lines
}

/// Lists the rules of the catalog, all of them or those of the severity
/// that the filter names, and gives the lines to show. Fails on a filter
/// that names no severity.
pub fn run(catalog: &Vec<Rule>, severity_filter: Option<String>, detailed: bool) -> (result: Result<
    Vec<Line>,
    Failure,
>)
    ensures
        match result {
            Ok(lines) => outcome(catalog.deep_view(), severity_filter.deep_view(), detailed) == Ok::<
                Seq<LineModel>,
                FailureModel,
            >(lines.deep_view()),
            Err(failure) => outcome(catalog.deep_view(), severity_filter.deep_view(), detailed)
                == Err::<Seq<LineModel>, FailureModel>(failure.deep_view()),
        },
{
    let mut lines = title();
    let filter = match severity_filter {
        None => None,
        Some(token) => match Severity::parse(token.as_str()) {
            Some(severity) => Some(severity),
            None => {
                let mut text = " Unknown severity: ".to_owned();
                text.append(token.as_str());
                put(
                    &mut lines,
                    Line::on(Channel::Stderr).styled("✗", Style::Strong(Color::Red)).plain(
                        text.as_str(),
                    ),
                );
                return Err(Failure { output: lines, error: RunError::UnknownSeverity { token } });
            },
        },
    };
    let listing = list(catalog, filter);
    let body = render_listing(&listing, detailed);
    crate::console::put_all(&mut lines, body);
    Ok(lines)
}

} // verus!
