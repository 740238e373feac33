use eloizer::console::{Color, Style};
use eloizer::severity::{RuleType, Severity};

#[test]
fn keywords_name_the_four_severities() {
    assert_eq!(Severity::from_keyword("high"), Some(Severity::High));
    assert_eq!(Severity::from_keyword("medium"), Some(Severity::Medium));
    assert_eq!(Severity::from_keyword("low"), Some(Severity::Low));
    assert_eq!(Severity::from_keyword("informational"), Some(Severity::Informational));
}

#[test]
fn other_keywords_name_no_severity() {
    assert_eq!(Severity::from_keyword("critical"), None);
    assert_eq!(Severity::from_keyword("High"), None);
    assert_eq!(Severity::from_keyword(" high"), None);
    assert_eq!(Severity::from_keyword(""), None);
    assert_eq!(Severity::from_keyword("info"), None);
}

#[test]
fn parse_sets_case_aside() {
    assert_eq!(Severity::parse("HIGH"), Some(Severity::High));
    assert_eq!(Severity::parse("Medium"), Some(Severity::Medium));
    assert_eq!(Severity::parse("lOw"), Some(Severity::Low));
    assert_eq!(Severity::parse("INFORMATIONAL"), Some(Severity::Informational));
    assert_eq!(Severity::parse("critical"), None);
}

#[test]
fn parse_does_not_trim() {
    assert_eq!(Severity::parse(" high"), None);
    assert_eq!(Severity::parse("high "), None);
}

#[test]
fn positions_follow_the_canonical_order() {
    let order = [Severity::High, Severity::Medium, Severity::Low, Severity::Informational];
    assert_eq!(Severity::ordered(), order);
    for (position, severity) in order.iter().enumerate() {
        assert_eq!(severity.position(), position);
    }
}

#[test]
fn labels_and_markers_are_those_of_the_display() {
    assert_eq!(Severity::High.label(), "High");
    assert_eq!(Severity::Medium.label(), "Medium");
    assert_eq!(Severity::Low.label(), "Low");
    assert_eq!(Severity::Informational.label(), "Informational");
    assert_eq!(Severity::High.marker(), "🔴");
    assert_eq!(Severity::Medium.marker(), "🟡");
    assert_eq!(Severity::Low.marker(), "🟢");
    assert_eq!(Severity::Informational.marker(), "ℹ️");
}

#[test]
fn styles_cover_every_severity() {
    assert_eq!(Severity::High.emphasis(), Style::Strong(Color::Red));
    assert_eq!(Severity::Medium.emphasis(), Style::Strong(Color::Yellow));
    assert_eq!(Severity::Low.emphasis(), Style::Strong(Color::Blue));
    assert_eq!(Severity::Informational.emphasis(), Style::Tint(Color::Cyan));
    assert_eq!(Severity::Informational.heading(), Style::Strong(Color::Cyan));
    assert_eq!(Severity::High.tint(), Style::Tint(Color::Red));
    assert_eq!(Severity::Low.color(), Color::Blue);
}

#[test]
fn every_rule_type_is_listed_once() {
    assert_eq!(
        RuleType::all(),
        vec![RuleType::DomainSpecific, RuleType::FrameworkSpecific, RuleType::General]
    );
}

#[test]
fn keywords_name_the_three_rule_types() {
    assert_eq!(RuleType::from_keyword("domain_specific"), Some(RuleType::DomainSpecific));
    assert_eq!(RuleType::from_keyword("framework_specific"), Some(RuleType::FrameworkSpecific));
    assert_eq!(RuleType::from_keyword("general"), Some(RuleType::General));
    assert_eq!(RuleType::from_keyword("General"), None);
    assert_eq!(RuleType::from_keyword("domain"), None);
    assert_eq!(RuleType::from_keyword(""), None);
}

#[test]
fn rule_type_parse_sets_case_aside() {
    assert_eq!(RuleType::parse("GENERAL"), Some(RuleType::General));
    assert_eq!(RuleType::parse("Domain_Specific"), Some(RuleType::DomainSpecific));
    assert_eq!(RuleType::parse("FRAMEWORK_specific"), Some(RuleType::FrameworkSpecific));
    assert_eq!(RuleType::parse(" general"), None);
    assert_eq!(RuleType::parse("other"), None);
}

#[test]
fn keywords_are_read_one_by_one() {
    let keywords: Vec<String> =
        ["low", "critical", "high", "", "low", "Medium"].iter().map(|k| k.to_string()).collect();
    assert_eq!(
        Severity::from_keywords(&keywords),
        vec![Some(Severity::Low), None, Some(Severity::High), None, Some(Severity::Low), None]
    );
    assert!(Severity::from_keywords(&Vec::new()).is_empty());
    let kinds: Vec<String> =
        ["general", "plugin", "domain_specific"].iter().map(|k| k.to_string()).collect();
    assert_eq!(
        RuleType::from_keywords(&kinds),
        vec![Some(RuleType::General), None, Some(RuleType::DomainSpecific)]
    );
}
