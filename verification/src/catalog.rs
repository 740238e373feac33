//! Queries over the rule catalog: the rules grouped by severity, and the
//! rule of a given identifier.

use crate::model::{Rule, RuleModel};
use crate::severity::{canonical_order, lemma_filter_keeps_order, Severity};
use crate::text::{
    first_equal, first_index_of, lemma_first_index_is_first, lowercase, to_lowercase,
};
use vstd::prelude::*;

verus! {

/// The rules of one severity, in the order of the catalog.
#[derive(Debug, PartialEq, Eq)]
pub struct RuleGroup<'a> {
    pub severity: Severity,
    pub rules: Vec<&'a Rule>,
}

/// A view of the catalog, grouped for display.
#[derive(Debug, PartialEq, Eq)]
pub struct RuleListing<'a> {
    /// One group for each severity that has rules in the view, most serious
    /// first.
    pub groups: Vec<RuleGroup<'a>>,
    /// The number of rules in the view.
    pub total: usize,
}

/// The model of [`RuleGroup`] that the contracts speak of.
pub struct RuleGroupModel {
    pub severity: Severity,
    pub rules: Seq<RuleModel>,
}

/// The model of [`RuleListing`] that the contracts speak of.
pub struct RuleListingModel {
    pub groups: Seq<RuleGroupModel>,
    pub total: nat,
}

impl<'a> DeepView for RuleGroup<'a> {
    type V = RuleGroupModel;

    open spec fn deep_view(&self) -> RuleGroupModel {
        RuleGroupModel { severity: self.severity, rules: self.rules.deep_view() }
    }
}

impl<'a> DeepView for RuleListing<'a> {
    type V = RuleListingModel;

    open spec fn deep_view(&self) -> RuleListingModel {
        RuleListingModel { groups: self.groups.deep_view(), total: self.total as nat }
    }
}

/// The test that a rule is of the given severity.
pub open spec fn is_of(severity: Severity) -> spec_fn(RuleModel) -> bool {
    |rule: RuleModel| rule.severity == severity
}

/// The rules of one severity, in the order in which they came.
pub open spec fn rules_of(rules: Seq<RuleModel>, severity: Severity) -> Seq<RuleModel> {
    rules.filter(is_of(severity))
}

/// The rules that a listing shows: all of them, or those of the severity
/// that the filter names.
pub open spec fn shown(catalog: Seq<RuleModel>, filter: Option<Severity>) -> Seq<RuleModel> {
    match filter {
        Some(severity) => rules_of(catalog, severity),
        None => catalog,
    }
}

/// The test that at least one rule is of a severity.
pub open spec fn has_rules(rules: Seq<RuleModel>) -> spec_fn(Severity) -> bool {
    |severity: Severity| rules_of(rules, severity).len() > 0
}

/// The severities that have rules, most serious first.
pub open spec fn listed(rules: Seq<RuleModel>) -> Seq<Severity> {
    canonical_order().filter(has_rules(rules))
}

/// The group of one severity.
pub open spec fn rule_group_of(rules: Seq<RuleModel>) -> spec_fn(Severity) -> RuleGroupModel {
    |severity: Severity| RuleGroupModel { severity, rules: rules_of(rules, severity) }
}

/// The groups of the rules: one for each severity that has rules, most
/// serious first, each holding its rules in the order in which they came.
pub open spec fn rule_groups_of(rules: Seq<RuleModel>) -> Seq<RuleGroupModel> {
    listed(rules).map_values(rule_group_of(rules))
}

/// The listing of a catalog under a filter.
pub open spec fn listing_of(catalog: Seq<RuleModel>, filter: Option<Severity>) -> RuleListingModel {
    RuleListingModel {
        groups: rule_groups_of(shown(catalog, filter)),
        total: shown(catalog, filter).len(),
    }
}

/// Whether a rule has the identifier, differences of case set aside.
pub open spec fn answers_to(rule: RuleModel, id: Seq<char>) -> bool {
    lowercase(rule.id) == lowercase(id)
}

/// The identifiers of the rules in lower case, in the order of the catalog.
pub open spec fn lowered_ids(catalog: Seq<RuleModel>) -> Seq<Seq<char>> {
    catalog.map_values(|rule: RuleModel| lowercase(rule.id))
}

/// The first rule of the catalog that has the identifier, differences of
/// case set aside: the first whose identifier in lower case is the
/// identifier in lower case.
pub open spec fn found(catalog: Seq<RuleModel>, id: Seq<char>) -> Option<RuleModel> {
    match first_index_of(lowered_ids(catalog), lowercase(id)) {
        Some(at) => Some(catalog[at]),
        None => None,
    }
}

/// The severities of the groups, in the order of the groups.
pub open spec fn severities_of(groups: Seq<RuleGroupModel>) -> Seq<Severity> {
    groups.map_values(|group: RuleGroupModel| group.severity)
}

/// The severities of the groups of a listing are the canonical order
/// restricted to the severities that have rules, whatever the order of the
/// catalog; no group is empty, and each holds the rules of its severity.
pub proof fn lemma_rule_groups_follow_canonical_order(rules: Seq<RuleModel>)
    ensures
        severities_of(rule_groups_of(rules)) == canonical_order().filter(has_rules(rules)),
        rule_groups_of(rules).len() == listed(rules).len(),
        forall|i: int|
            0 <= i < rule_groups_of(rules).len() ==> {
                &&& (#[trigger] rule_groups_of(rules)[i]).severity == listed(rules)[i]
                &&& rule_groups_of(rules)[i].rules == rules_of(rules, listed(rules)[i])
                &&& rule_groups_of(rules)[i].rules.len() > 0
            },
        forall|i: int, j: int|
            0 <= i < j < rule_groups_of(rules).len() ==> rule_groups_of(rules)[i].severity.rank()
                < rule_groups_of(rules)[j].severity.rank(),
{
    let order = canonical_order();
    let keep = has_rules(rules);
    lemma_filter_keeps_order(order, keep);
    assert forall|i: int| 0 <= i < rule_groups_of(rules).len() implies (#[trigger] rule_groups_of(
        rules,
    )[i]).rules.len() > 0 by {
        order.lemma_filter_pred(keep, i);
    }
}

/// Two identifiers that differ in case alone find the same rule.
pub proof fn lemma_find_ignores_case(catalog: Seq<RuleModel>, id: Seq<char>, other: Seq<char>)
    requires
        lowercase(id) == lowercase(other),
    ensures
        found(catalog, id) == found(catalog, other),
{
}

/// A rule is found exactly when some rule of the catalog has the
/// identifier, and the rule found is the first such rule.
pub proof fn lemma_found_is_first_match(catalog: Seq<RuleModel>, id: Seq<char>)
    ensures
        found(catalog, id) is None <==> forall|i: int|
            0 <= i < catalog.len() ==> !answers_to(#[trigger] catalog[i], id),
        found(catalog, id) matches Some(rule) ==> exists|i: int|
            {
                &&& 0 <= i < catalog.len()
                &&& #[trigger] catalog[i] == rule
                &&& answers_to(rule, id)
                &&& forall|j: int| 0 <= j < i ==> !answers_to(#[trigger] catalog[j], id)
            },
{
    let ids = lowered_ids(catalog);
    lemma_first_index_is_first(ids, lowercase(id));
    assert forall|i: int| 0 <= i < catalog.len() implies (answers_to(#[trigger] catalog[i], id)
        <==> ids[i] == lowercase(id)) by {}
}

/// The rules of one severity, in the order in which they came.
pub fn select_rules<'a>(rules: &Vec<&'a Rule>, severity: Severity) -> (chosen: Vec<&'a Rule>)
    ensures
        chosen.deep_view() == rules_of(rules.deep_view(), severity),
{
    let mut chosen: Vec<&'a Rule> = Vec::new();
    let mut i: usize = 0;
    let ghost all = rules.deep_view();
    proof {
        reveal(Seq::filter);
    }
    while i < rules.len()
        invariant
            i <= rules.len(),
            all == rules.deep_view(),
            chosen.deep_view() == rules_of(all.take(i as int), severity),
        decreases rules.len() - i,
    {
        proof {
            assert(all.take(i + 1) =~= all.take(i as int).push(all[i as int]));
            all.take(i as int).lemma_filter_push(all[i as int], is_of(severity));
        }
        if rules[i].severity == severity {
            chosen.push(rules[i]);
        }
        i += 1;
    }
    proof {
        assert(all.take(rules.len() as int) =~= all);
    }
    chosen
}

/// The rules of the catalog, each by reference.
fn every_rule<'a>(catalog: &'a Vec<Rule>) -> (rules: Vec<&'a Rule>)
    ensures
        rules.deep_view() == catalog.deep_view(),
{
    let mut rules: Vec<&'a Rule> = Vec::new();
    let mut i: usize = 0;
    while i < catalog.len()
        invariant
            i <= catalog.len(),
            rules.deep_view() == catalog.deep_view().take(i as int),
        decreases catalog.len() - i,
    {
        let ghost before = rules.deep_view();
        rules.push(&catalog[i]);
        proof {
            assert(rules.deep_view() =~= before.push(catalog[i as int].deep_view()));
        }
        i += 1;
    }
    rules
}

/// Lists the catalog, or the rules of one severity, grouped by severity.
/// The groups come in the canonical order of their severities, only
/// severities that have rules in the view have a group, and within a group
/// the rules keep the order of the catalog.
pub fn list<'a>(catalog: &'a Vec<Rule>, filter: Option<Severity>) -> (listing: RuleListing<'a>)
    ensures
        listing.deep_view() == listing_of(catalog.deep_view(), filter),
{
    let every = every_rule(catalog);
    let rules = match filter {
        Some(severity) => select_rules(&every, severity),
        None => every,
    };
    let ghost all = rules.deep_view();
    let ghost order = canonical_order();
    let mut groups: Vec<RuleGroup<'a>> = Vec::new();
    let severities = Severity::ordered();
    let mut position: usize = 0;
    proof {
        reveal(Seq::filter);
    }
    while position < 4
        invariant
            position <= 4,
            all == rules.deep_view(),
            order == canonical_order(),
            severities@ == order,
            groups.deep_view() == order.take(position as int).filter(has_rules(all)).map_values(
                rule_group_of(all),
            ),
        decreases 4 - position,
    {
        let severity = severities[position];
        let chosen = select_rules(&rules, severity);
        let ghost before = groups.deep_view();
        proof {
            assert(order.take(position + 1) =~= order.take(position as int).push(severity));
            order.take(position as int).lemma_filter_push(severity, has_rules(all));
        }
        if chosen.len() > 0 {
            groups.push(RuleGroup { severity, rules: chosen });
            proof {
                assert(groups.deep_view() =~= before.push(rule_group_of(all)(severity)));
            }
        }
        position += 1;
    }
    proof {
        assert(order.take(4) =~= order);
    }
    RuleListing { groups, total: rules.len() }
}

/// The identifiers of the rules in lower case, in the order of the catalog.
fn lower_ids(catalog: &Vec<Rule>) -> (ids: Vec<String>)
    ensures
        ids.deep_view() == lowered_ids(catalog.deep_view()),
{
    let mut ids: Vec<String> = Vec::new();
    let mut i: usize = 0;
    while i < catalog.len()
        invariant
            i <= catalog.len(),
            ids.len() == i,
            forall|k: int| 0 <= k < i ==> (#[trigger] ids[k])@ == lowercase(catalog[k].id@),
        decreases catalog.len() - i,
    {
        ids.push(to_lowercase(catalog[i].id.as_str()));
        i += 1;
    }
    ids
}

/// Finds the rule with the given identifier, differences of case set aside.
/// Where several rules answer to it, the first of the catalog is found.
pub fn find<'a>(catalog: &'a Vec<Rule>, id: &str) -> (rule: Option<&'a Rule>)
    ensures
        rule.deep_view() == found(catalog.deep_view(), id@),
{
    let wanted = to_lowercase(id);
    let ids = lower_ids(catalog);
    proof {
        lemma_first_index_is_first(ids.deep_view(), wanted@);
    }
    match first_equal(&ids, wanted.as_str()) {
        Some(at) => Some(&catalog[at]),
        None => None,
    }
}

} // verus!
