//! The command that shows one rule of the catalog.

use crate::catalog::{
    answers_to, find, found, lemma_find_ignores_case, lemma_found_is_first_match,
};
use crate::text::lowercase;
use crate::console::{blank, put, Channel, Color, Line, LineModel, Style};
use crate::error::{Failure, FailureModel, RunError, RunErrorModel};
use crate::model::{Rule, RuleModel};
use vstd::prelude::*;

verus! {

/// What is shown of a rule: a title, its identifier, its title, its
/// severity and its description.
pub open spec fn rule_info_lines(rule: RuleModel) -> Seq<LineModel> {
    seq![
        blank(),
        blank().styled("📖 Rule Information"@, Style::Strong(Color::BrightCyan)),
        blank(),
        blank().plain("  "@).styled("ID:"@, Style::Bold).plain(" "@ + rule.id),
        blank().plain("  "@).styled("Title:"@, Style::Bold).plain(" "@ + rule.title),
        blank().plain("  "@).styled("Severity:"@, Style::Bold).plain(
            " "@ + rule.severity.marker_text() + " "@,
        ).styled(rule.severity.label_text(), rule.severity.emphasis_of()),
        blank(),
        blank().plain("  "@).styled("Description:"@, Style::Bold),
        blank().plain("  "@ + rule.description),
        blank(),
    ]
}

/// What the error output says where no rule has the identifier.
pub open spec fn not_found_lines(id: Seq<char>) -> Seq<LineModel> {
    seq![
        LineModel::on(Channel::Stderr).styled("✗"@, Style::Strong(Color::Red)).plain(
            " Rule not found: "@,
        ).styled(id, Style::Tint(Color::Yellow)),
        LineModel::on(Channel::Stderr),
        LineModel::on(Channel::Stderr).plain("Use "@).styled(
            "eloizer list-rules"@,
            Style::Tint(Color::Cyan),
        ).plain(" to see all available rules"@),
        LineModel::on(Channel::Stderr),
    ]
}

/// What the command gives: the rule that has the identifier, differences
/// of case set aside, or the error that there is none.
pub open spec fn outcome(catalog: Seq<RuleModel>, id: Seq<char>) -> Result<
    Seq<LineModel>,
    FailureModel,
> {
    match found(catalog, id) {
        Some(rule) => Ok(rule_info_lines(rule)),
        None => Err(
            FailureModel { output: not_found_lines(id), error: RunErrorModel::RuleNotFound { id } },
        ),
    }
}

/// The command succeeds exactly where some rule of the catalog answers to
/// the identifier; it then shows the first such rule, and else fails with
/// the error that names the identifier.
pub proof fn lemma_rule_is_shown_where_one_answers(catalog: Seq<RuleModel>, id: Seq<char>)
    ensures
        outcome(catalog, id) is Ok <==> exists|i: int|
            0 <= i < catalog.len() && answers_to(#[trigger] catalog[i], id),
        outcome(catalog, id) matches Ok(lines) ==> exists|i: int|
            {
                &&& 0 <= i < catalog.len()
                &&& lines == rule_info_lines(#[trigger] catalog[i])
                &&& answers_to(catalog[i], id)
                &&& forall|j: int| 0 <= j < i ==> !answers_to(#[trigger] catalog[j], id)
            },
        outcome(catalog, id) matches Err(failure) ==> {
            &&& failure.error == (RunErrorModel::RuleNotFound { id })
            &&& failure.error.message() == "Rule not found: "@ + id
        },
{
    lemma_found_is_first_match(catalog, id);
}

/// Two spellings of an identifier that differ in case alone show the
/// same rule, or both show none.
pub proof fn lemma_spelling_does_not_matter(
    catalog: Seq<RuleModel>,
    id: Seq<char>,
    other: Seq<char>,
)
    requires
        lowercase(id) == lowercase(other),
    ensures
        outcome(catalog, id) is Ok <==> outcome(catalog, other) is Ok,
        outcome(catalog, id) is Ok ==> outcome(catalog, id) == outcome(catalog, other),
{
    lemma_find_ignores_case(catalog, id, other);
}

/// Renders what is shown of a rule.
pub fn render_rule(rule: &Rule) -> (lines: Vec<Line>)
    ensures
        lines.deep_view() == rule_info_lines(rule.deep_view()),
{
    let mut lines: Vec<Line> = Vec::new();
    let severity = rule.severity;
    put(&mut lines, Line::blank());
    put(&mut lines, Line::blank().styled("📖 Rule Information", Style::Strong(Color::BrightCyan)));
    put(&mut lines, Line::blank());
    let mut id = " ".to_owned();
    id.append(rule.id.as_str());
    put(&mut lines, Line::blank().plain("  ").styled("ID:", Style::Bold).plain(id.as_str()));
    let mut title = " ".to_owned();
    title.append(rule.title.as_str());
    put(&mut lines, Line::blank().plain("  ").styled("Title:", Style::Bold).plain(title.as_str()));
    let mut marker = " ".to_owned();
    marker.append(severity.marker());
    marker.append(" ");
    put(
        &mut lines,
        Line::blank().plain("  ").styled("Severity:", Style::Bold).plain(marker.as_str()).styled(
            severity.label(),
            severity.emphasis(),
        ),
    );
    put(&mut lines, Line::blank());
    put(&mut lines, Line::blank().plain("  ").styled("Description:", Style::Bold));
    let mut description = "  ".to_owned();
    description.append(rule.description.as_str());
    put(&mut lines, Line::blank().plain(description.as_str()));
    put(&mut lines, Line::blank());
    lines
}

/// Shows the rule that has the identifier, differences of case set aside.
/// Fails where the catalog has no such rule.
pub fn run(catalog: &Vec<Rule>, rule_id: String) -> (result: Result<Vec<Line>, Failure>)
    ensures
        match result {
            Ok(lines) => outcome(catalog.deep_view(), rule_id@) == Ok::<
                Seq<LineModel>,
                FailureModel,
            >(lines.deep_view()),
            Err(failure) => outcome(catalog.deep_view(), rule_id@) == Err::<
                Seq<LineModel>,
                FailureModel,
            >(failure.deep_view()),
        },
{
    match find(catalog, rule_id.as_str()) {
        Some(rule) => Ok(render_rule(rule)),
        None => {
            let mut lines: Vec<Line> = Vec::new();
            put(
                &mut lines,
                Line::on(Channel::Stderr).styled("✗", Style::Strong(Color::Red)).plain(
                    " Rule not found: ",
                ).styled(rule_id.as_str(), Style::Tint(Color::Yellow)),
            );
            put(&mut lines, Line::on(Channel::Stderr));
            put(
                &mut lines,
                Line::on(Channel::Stderr).plain("Use ").styled(
                    "eloizer list-rules",
                    Style::Tint(Color::Cyan),
                ).plain(" to see all available rules"),
            );
            put(&mut lines, Line::on(Channel::Stderr));
            proof {
                assert(lines.deep_view() =~= not_found_lines(rule_id@));
            }
            Err(Failure { output: lines, error: RunError::RuleNotFound { id: rule_id } })
        },
    }
}

} // verus!
