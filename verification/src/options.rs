//! The options of a run, resolved from what the command line or a
//! configuration gave: which severities and rules to ignore, and the rest.

use crate::console::{put, Channel, Line, LineModel};
use crate::model::{AnalysisOptions, AnalysisOptionsModel};
use crate::severity::{all_rule_types, RuleType, Severity};
use crate::text::{
    is_whitespace, lemma_split_of_one_more_piece, lemma_split_without_separator,
    lemma_trim_removes_what_surrounds, lowercase,
    split, split_on, to_lowercase, trim, trimmed,
};
use vstd::prelude::*;

verus! {

/// What a list of severities to ignore holds.
#[derive(Clone, Debug, PartialEq, Eq)]
pub struct IgnoredSeverities {
    /// The severities that the entries name, in the order of the entries.
    pub severities: Vec<Severity>,
    /// The entries that name no severity, as they were written.
    pub unknown: Vec<String>,
}

/// What a list of kinds of rule holds.
#[derive(Clone, Debug, PartialEq, Eq)]
pub struct IncludedRuleTypes {
    /// The kinds that the entries name, in the order of the entries.
    pub kinds: Vec<RuleType>,
    /// The entries that name no kind, as they were written.
    pub unknown: Vec<String>,
}

/// The options of a run, and the warnings that resolving them gave rise to.
#[derive(Clone, Debug, PartialEq, Eq)]
pub struct Resolution {
    pub options: AnalysisOptions,
    pub warnings: Vec<Line>,
}

/// The severity that an entry of a list names, white space around it and
/// differences of case set aside.
pub open spec fn severity_of_entry() -> spec_fn(Seq<char>) -> Option<Severity> {
    |entry: Seq<char>| Severity::of_token(trimmed(entry))
}

/// The test that an entry of a list names no severity.
pub open spec fn names_no_severity() -> spec_fn(Seq<char>) -> bool {
    |entry: Seq<char>| severity_of_entry()(entry) is None
}

/// The severities that a comma-separated list names, in the order of its
/// entries. Entries that name none are passed over.
pub open spec fn ignored_severities(list: Seq<char>) -> Seq<Severity> {
    split_on(list, ',').filter_map(severity_of_entry())
}

/// The entries of a comma-separated list that name no severity.
pub open spec fn unknown_severities(list: Seq<char>) -> Seq<Seq<char>> {
    split_on(list, ',').filter(names_no_severity())
}

/// The rule identifiers of a comma-separated list: its entries, each
/// without the white space around it.
pub open spec fn ignored_rules(list: Seq<char>) -> Seq<Seq<char>> {
    split_on(list, ',').map_values(|entry: Seq<char>| trimmed(entry))
}

/// The kind of rule that an entry of a list names, white space around it
/// and differences of case set aside.
pub open spec fn kind_of_entry() -> spec_fn(Seq<char>) -> Option<RuleType> {
    |entry: Seq<char>| RuleType::of_token(trimmed(entry))
}

/// The test that an entry of a list names no kind of rule.
pub open spec fn names_no_kind() -> spec_fn(Seq<char>) -> bool {
    |entry: Seq<char>| kind_of_entry()(entry) is None
}

/// The kinds of rule that the entries name, in the order of the entries.
/// Entries that name none are passed over.
pub open spec fn named_kinds(entries: Seq<Seq<char>>) -> Seq<RuleType> {
    entries.filter_map(kind_of_entry())
}

/// The entries that name no kind of rule.
pub open spec fn unknown_kinds(entries: Seq<Seq<char>>) -> Seq<Seq<char>> {
    entries.filter(names_no_kind())
}

/// The kinds of rule that a run includes: every kind where no entry is
/// given, else the kinds that the entries name.
pub open spec fn included_rule_types(entries: Seq<Seq<char>>) -> Seq<RuleType> {
    if entries.len() == 0 {
        all_rule_types()
    } else {
        named_kinds(entries)
    }
}

/// The warning that says, after `lead`, which entry was not understood.
pub open spec fn warning_line(lead: Seq<char>) -> spec_fn(Seq<char>) -> LineModel {
    |entry: Seq<char>| LineModel::on(Channel::Warning).plain(lead + entry)
}

/// The warning that an entry names no severity.
pub open spec fn unknown_severity_line() -> spec_fn(Seq<char>) -> LineModel {
    warning_line("Unknown severity level: "@)
}

/// The warning that an entry names no kind of rule.
pub open spec fn unknown_rule_type_line() -> spec_fn(Seq<char>) -> LineModel {
    warning_line("Unknown rule type: "@)
}

/// The options that the parameters of a run resolve to.
pub open spec fn resolved_options(
    generate_ast: bool,
    templates: Option<Seq<char>>,
    ignore: Option<Seq<char>>,
    ignore_rules: Option<Seq<char>>,
    rule_types: Seq<Seq<char>>,
) -> AnalysisOptionsModel {
    AnalysisOptionsModel {
        generate_ast,
        custom_templates_path: templates,
        include_rule_types: included_rule_types(rule_types),
        ignore_severities: match ignore {
            Some(list) => ignored_severities(list),
            None => Seq::empty(),
        },
        ignore_rules: match ignore_rules {
            Some(list) => ignored_rules(list),
            None => Seq::empty(),
        },
    }
}

/// The warnings about the list of severities: one for each entry that
/// names none.
pub open spec fn severity_warnings(ignore: Option<Seq<char>>) -> Seq<LineModel> {
    match ignore {
        Some(list) => unknown_severities(list).map_values(unknown_severity_line()),
        None => Seq::empty(),
    }
}

/// The warnings that the parameters of a run give rise to: one for each
/// entry of the list of severities that names none, then one for each
/// entry of the kinds of rule that names none.
pub open spec fn resolution_warnings(ignore: Option<Seq<char>>, rule_types: Seq<Seq<char>>) -> Seq<
    LineModel,
> {
    severity_warnings(ignore) + unknown_kinds(rule_types).map_values(unknown_rule_type_line())
}

/// A list of one entry names the severity that the entry names, and
/// warns of the entry where it names none.
pub proof fn lemma_list_of_one_entry(entry: Seq<char>)
    requires
        !entry.contains(','),
    ensures
        ignored_severities(entry) == (match severity_of_entry()(entry) {
            Some(severity) => seq![severity],
            None => Seq::<Severity>::empty(),
        }),
        unknown_severities(entry) == (if severity_of_entry()(entry) is None {
            seq![entry]
        } else {
            Seq::<Seq<char>>::empty()
        }),
{
    lemma_split_without_separator(entry, ',');
    let nothing = Seq::<Seq<char>>::empty();
    assert(nothing.push(entry).drop_last() =~= nothing);
    nothing.lemma_filter_push(entry, names_no_severity());
    assert(nothing.filter(names_no_severity()) =~= nothing) by {
        reveal(Seq::filter);
    }
    assert(nothing.filter_map(severity_of_entry()) =~= Seq::<Severity>::empty());
}

/// Two entries that each name a severity give those two severities, in
/// their order, and no warning.
pub proof fn lemma_list_of_two_named_entries(
    first: Seq<char>,
    second: Seq<char>,
    one: Severity,
    other: Severity,
)
    requires
        !first.contains(','),
        !second.contains(','),
        severity_of_entry()(first) == Some(one),
        severity_of_entry()(second) == Some(other),
    ensures
        ignored_severities(first + seq![','] + second) == seq![one, other],
        unknown_severities(first + seq![','] + second) == Seq::<Seq<char>>::empty(),
{
    lemma_list_of_one_entry(first);
    lemma_entry_with_severity_is_added(first, second, other);
}

/// One more entry at the end of a list that names a severity adds that
/// severity at the end, and no warning.
pub proof fn lemma_entry_with_severity_is_added(
    list: Seq<char>,
    entry: Seq<char>,
    severity: Severity,
)
    requires
        !entry.contains(','),
        severity_of_entry()(entry) == Some(severity),
    ensures
        ignored_severities(list + seq![','] + entry) == ignored_severities(list).push(severity),
        unknown_severities(list + seq![','] + entry) == unknown_severities(list),
{
    let entries = split_on(list, ',');
    lemma_split_of_one_more_piece(list, entry, ',');
    assert(entries.push(entry).drop_last() =~= entries);
    entries.lemma_filter_push(entry, names_no_severity());
}

/// One more entry at the end of a list that names no severity changes
/// nothing but for its own warning: the severities are those of the list
/// without it.
pub proof fn lemma_entry_without_severity_is_dropped(list: Seq<char>, entry: Seq<char>)
    requires
        !entry.contains(','),
        severity_of_entry()(entry) is None,
    ensures
        ignored_severities(list + seq![','] + entry) == ignored_severities(list),
        unknown_severities(list + seq![','] + entry) == unknown_severities(list).push(entry),
{
    let entries = split_on(list, ',');
    lemma_split_of_one_more_piece(list, entry, ',');
    assert(entries.push(entry).drop_last() =~= entries);
    entries.lemma_filter_push(entry, names_no_severity());
}

/// White space around an entry does not change what it names: an entry
/// that neither begins nor ends with white space names, with white space
/// before and after it, the severity that it names alone.
pub proof fn lemma_space_around_an_entry_is_set_aside(
    lead: Seq<char>,
    entry: Seq<char>,
    tail: Seq<char>,
)
    requires
        forall|i: int| 0 <= i < lead.len() ==> is_whitespace(#[trigger] lead[i]),
        forall|i: int| 0 <= i < tail.len() ==> is_whitespace(#[trigger] tail[i]),
        entry.len() > 0 ==> !is_whitespace(entry.first()) && !is_whitespace(entry.last()),
    ensures
        severity_of_entry()(lead + entry + tail) == Severity::of_token(entry),
{
    lemma_trim_removes_what_surrounds(lead, entry, tail);
}

/// The keyword of each entry: the entry without the white space around
/// it, in lower case.
fn keywords_of(entries: &Vec<String>) -> (keywords: Vec<String>)
    ensures
        keywords.len() == entries.len(),
        forall|k: int|
            0 <= k < entries.len() ==> (#[trigger] keywords[k])@ == lowercase(trimmed(entries[k]@)),
{
    let mut keywords: Vec<String> = Vec::new();
    let mut i: usize = 0;
    while i < entries.len()
        invariant
            i <= entries.len(),
            keywords.len() == i,
            forall|k: int|
                0 <= k < i ==> (#[trigger] keywords[k])@ == lowercase(trimmed(entries[k]@)),
        decreases entries.len() - i,
    {
        keywords.push(to_lowercase(trim(entries[i].as_str())));
        i += 1;
    }
    keywords
}

/// Reads a comma-separated list of severities. Each entry is read without
/// the white space around it and in any mix of case; an entry that names
/// no severity is set aside and does not stop the reading.
pub fn parse_ignored_severities(list: &str) -> (ignored: IgnoredSeverities)
    ensures
        ignored.severities@ == ignored_severities(list@),
        ignored.unknown.deep_view() == unknown_severities(list@),
{
    let entries = split(list, ',');
    let keywords = keywords_of(&entries);
    let readings = Severity::from_keywords(&keywords);
    let ghost all = entries.deep_view();
    let mut severities: Vec<Severity> = Vec::new();
    let mut unknown: Vec<String> = Vec::new();
    let mut i: usize = 0;
    proof {
        reveal(Seq::filter);
    }
    while i < entries.len()
        invariant
            i <= entries.len(),
            all == entries.deep_view(),
            readings.len() == entries.len(),
            forall|k: int|
                0 <= k < entries.len() ==> #[trigger] readings[k] == severity_of_entry()(all[k]),
            severities@ == all.take(i as int).filter_map(severity_of_entry()),
            unknown.deep_view() == all.take(i as int).filter(names_no_severity()),
        decreases entries.len() - i,
    {
        proof {
            assert(all.take(i + 1).drop_last() =~= all.take(i as int));
            assert(all.take(i + 1) =~= all.take(i as int).push(all[i as int]));
            all.take(i as int).lemma_filter_push(all[i as int], names_no_severity());
        }
        match readings[i] {
            Some(severity) => {
                severities.push(severity);
            },
            None => {
                unknown.push(entries[i].clone());
            },
        }
        i += 1;
    }
    proof {
        assert(all.take(entries.len() as int) =~= all);
    }
    IgnoredSeverities { severities, unknown }
}

/// Reads a comma-separated list of rule identifiers. Each entry is taken
/// as it stands, without the white space around it.
pub fn parse_ignored_rules(list: &str) -> (rules: Vec<String>)
    ensures
        rules.deep_view() == ignored_rules(list@),
{
    let entries = split(list, ',');
    let ghost all = entries.deep_view();
    let mut rules: Vec<String> = Vec::new();
    let mut i: usize = 0;
    while i < entries.len()
        invariant
            i <= entries.len(),
            all == entries.deep_view(),
            rules.len() == i,
            forall|k: int| 0 <= k < i ==> (#[trigger] rules[k])@ == trimmed(all[k]),
        decreases entries.len() - i,
    {
        rules.push(trim(entries[i].as_str()).to_owned());
        i += 1;
    }
    rules
}

/// Reads the kinds of rule that a run is to take in. Each entry is read
/// without the white space around it and in any mix of case; an entry that
/// names no kind is set aside and does not stop the reading.
pub fn parse_rule_types(entries: &Vec<String>) -> (included: IncludedRuleTypes)
    ensures
        included.kinds@ == named_kinds(entries.deep_view()),
        included.unknown.deep_view() == unknown_kinds(entries.deep_view()),
{
    let keywords = keywords_of(entries);
    let readings = RuleType::from_keywords(&keywords);
    let ghost all = entries.deep_view();
    let mut kinds: Vec<RuleType> = Vec::new();
    let mut unknown: Vec<String> = Vec::new();
    let mut i: usize = 0;
    proof {
        reveal(Seq::filter);
    }
    while i < entries.len()
        invariant
            i <= entries.len(),
            all == entries.deep_view(),
            readings.len() == entries.len(),
            forall|k: int| 0 <= k < entries.len() ==> #[trigger] readings[k] == kind_of_entry()(all[k]),
            kinds@ == all.take(i as int).filter_map(kind_of_entry()),
            unknown.deep_view() == all.take(i as int).filter(names_no_kind()),
        decreases entries.len() - i,
    {
        proof {
            assert(all.take(i + 1).drop_last() =~= all.take(i as int));
            assert(all.take(i + 1) =~= all.take(i as int).push(all[i as int]));
            all.take(i as int).lemma_filter_push(all[i as int], names_no_kind());
        }
        match readings[i] {
            Some(kind) => {
                kinds.push(kind);
            },
            None => {
                unknown.push(entries[i].clone());
            },
        }
        i += 1;
    }
    proof {
        assert(all.take(entries.len() as int) =~= all);
    }
    IncludedRuleTypes { kinds, unknown }
}

/// Adds one warning for each entry that was not understood.
fn put_warnings(warnings: &mut Vec<Line>, lead: &str, entries: &Vec<String>)
    ensures
        final(warnings).deep_view() == old(warnings).deep_view() + entries.deep_view().map_values(
            warning_line(lead@),
        ),
{
    let ghost start = warnings.deep_view();
    let ghost all = entries.deep_view();
    let mut i: usize = 0;
    while i < entries.len()
        invariant
            i <= entries.len(),
            all == entries.deep_view(),
            warnings.deep_view() == start + all.take(i as int).map_values(warning_line(lead@)),
        decreases entries.len() - i,
    {
        let mut text = lead.to_owned();
        text.append(entries[i].as_str());
        put(warnings, Line::on(Channel::Warning).plain(text.as_str()));
        i += 1;
    }
}

/// Resolves the parameters of a run into the options for the engine. All
/// kinds of rule are included where `rule_types` names none at all; else
/// those that its entries name.
pub fn resolve(
    generate_ast: bool,
    templates: &Option<String>,
    ignore: &Option<String>,
    ignore_rules: &Option<String>,
    rule_types: &Vec<String>,
) -> (resolution: Resolution)
    ensures
        resolution.options.deep_view() == resolved_options(
            generate_ast,
            templates.deep_view(),
            ignore.deep_view(),
            ignore_rules.deep_view(),
            rule_types.deep_view(),
        ),
        resolution.warnings.deep_view() == resolution_warnings(
            ignore.deep_view(),
            rule_types.deep_view(),
        ),
{
    let mut warnings: Vec<Line> = Vec::new();
    let ignore_severities = match ignore {
        Some(list) => {
            let ignored = parse_ignored_severities(list.as_str());
            put_warnings(&mut warnings, "Unknown severity level: ", &ignored.unknown);
            ignored.severities
        },
        None => Vec::new(),
    };
    let ignored_rules = match ignore_rules {
        Some(list) => parse_ignored_rules(list.as_str()),
        None => Vec::new(),
    };
    let custom_templates_path = match templates {
        Some(path) => Some(path.clone()),
        None => None,
    };
    let include_rule_types = if rule_types.len() == 0 {
        RuleType::all()
    } else {
        let included = parse_rule_types(rule_types);
        put_warnings(&mut warnings, "Unknown rule type: ", &included.unknown);
        included.kinds
    };
    proof {
        if rule_types.len() == 0 {
            reveal(Seq::filter);
        }
    }
    let options = AnalysisOptions {
        generate_ast,
        custom_templates_path,
        include_rule_types,
        ignore_severities,
        ignore_rules: ignored_rules,
    };
    proof {
        assert(options.ignore_rules.deep_view() =~= resolved_options(
            generate_ast,
            templates.deep_view(),
            ignore.deep_view(),
            ignore_rules.deep_view(),
            rule_types.deep_view(),
        ).ignore_rules);
    }
    Resolution { options, warnings }
}

} // verus!
