use eloizer::catalog::{find, list};
use eloizer::model::Rule;
use eloizer::severity::Severity;

fn rule(id: &str, title: &str, severity: Severity) -> Rule {
    Rule {
        id: id.to_string(),
        title: title.to_string(),
        description: format!("{} in detail", title),
        severity,
    }
}

fn catalog() -> Vec<Rule> {
    vec![
        rule("SOL-003", "Unused import", Severity::Low),
        rule("SOL-001", "Missing signer check", Severity::High),
        rule("GEN-001", "Long function", Severity::Informational),
        rule("SOL-002", "Unchecked arithmetic", Severity::High),
    ]
}

#[test]
fn list_groups_the_catalog_in_canonical_order() {
    let rules = catalog();
    let listing = list(&rules, None);
    assert_eq!(listing.total, 4);
    let groups: Vec<(Severity, Vec<&str>)> = listing
        .groups
        .iter()
        .map(|group| (group.severity, group.rules.iter().map(|r| r.id.as_str()).collect()))
        .collect();
    assert_eq!(
        groups,
        vec![
            (Severity::High, vec!["SOL-001", "SOL-002"]),
            (Severity::Low, vec!["SOL-003"]),
            (Severity::Informational, vec!["GEN-001"]),
        ]
    );
}

#[test]
fn list_with_a_filter_shows_one_severity() {
    let rules = catalog();
    let listing = list(&rules, Some(Severity::High));
    assert_eq!(listing.total, 2);
    assert_eq!(listing.groups.len(), 1);
    assert_eq!(listing.groups[0].severity, Severity::High);
    assert_eq!(listing.groups[0].rules.len(), 2);
}

#[test]
fn list_with_a_filter_that_matches_nothing_is_empty() {
    let rules = catalog();
    let listing = list(&rules, Some(Severity::Medium));
    assert_eq!(listing.total, 0);
    assert!(listing.groups.is_empty());
}

#[test]
fn list_of_an_empty_catalog_is_empty() {
    let rules = Vec::new();
    let listing = list(&rules, None);
    assert_eq!(listing.total, 0);
    assert!(listing.groups.is_empty());
}

#[test]
fn find_sets_case_aside() {
    let rules = catalog();
    let upper = find(&rules, "SOL-001");
    let lower = find(&rules, "sol-001");
    assert_eq!(upper, Some(&rules[1]));
    assert_eq!(lower, upper);
    assert_eq!(find(&rules, "Sol-001"), upper);
}

#[test]
fn find_matches_the_whole_identifier() {
    let rules = catalog();
    assert_eq!(find(&rules, "SOL-00"), None);
    assert_eq!(find(&rules, "SOL-0011"), None);
    assert_eq!(find(&rules, " SOL-001"), None);
    assert_eq!(find(&rules, ""), None);
    assert_eq!(find(&Vec::new(), "SOL-001"), None);
}

#[test]
fn find_takes_the_first_of_several() {
    let rules = vec![
        rule("dup", "first", Severity::Low),
        rule("DUP", "second", Severity::High),
    ];
    assert_eq!(find(&rules, "Dup").map(|r| r.title.as_str()), Some("first"));
}
