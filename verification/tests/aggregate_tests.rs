use eloizer::aggregate::{aggregate, select, stats_are_consistent, tally};
use eloizer::model::{AnalysisResult, AnalysisStats, Finding, Location, SeverityCounts};
use eloizer::severity::Severity;

fn finding(severity: Severity, description: &str) -> Finding {
    Finding {
        severity,
        description: description.to_string(),
        location: Location { file: "src/lib.rs".to_string(), line: 1 },
        code_snippet: None,
        recommendations: Vec::new(),
    }
}

fn mixed() -> Vec<Finding> {
    vec![
        finding(Severity::Low, "first low"),
        finding(Severity::Informational, "a note"),
        finding(Severity::High, "first high"),
        finding(Severity::Low, "second low"),
        finding(Severity::High, "second high"),
    ]
}

#[test]
fn groups_come_in_canonical_order_whatever_the_input_order() {
    let result = AnalysisResult::from_findings(mixed());
    let aggregation = aggregate(&result);
    let severities: Vec<Severity> = aggregation.groups.iter().map(|group| group.severity).collect();
    assert_eq!(severities, vec![Severity::High, Severity::Low, Severity::Informational]);

    let mut reversed = mixed();
    reversed.reverse();
    let result = AnalysisResult::from_findings(reversed);
    let aggregation = aggregate(&result);
    let severities: Vec<Severity> = aggregation.groups.iter().map(|group| group.severity).collect();
    assert_eq!(severities, vec![Severity::High, Severity::Low, Severity::Informational]);
}

#[test]
fn groups_keep_the_order_of_the_engine() {
    let result = AnalysisResult::from_findings(mixed());
    let aggregation = aggregate(&result);
    let descriptions: Vec<Vec<&str>> = aggregation
        .groups
        .iter()
        .map(|group| group.findings.iter().map(|f| f.description.as_str()).collect())
        .collect();
    assert_eq!(
        descriptions,
        vec![vec!["first high", "second high"], vec!["first low", "second low"], vec!["a note"]]
    );
}

#[test]
fn no_findings_give_no_groups() {
    let result = AnalysisResult::from_findings(Vec::new());
    let aggregation = aggregate(&result);
    assert_eq!(aggregation.total, 0);
    assert!(aggregation.groups.is_empty());
    assert_eq!(
        aggregation.counted,
        SeverityCounts { high: 0, medium: 0, low: 0, informational: 0 }
    );
}

#[test]
fn counts_add_up_to_the_number_of_findings() {
    let findings = mixed();
    let counts = tally(&findings);
    assert_eq!(counts, SeverityCounts { high: 2, medium: 0, low: 2, informational: 1 });
    assert_eq!(counts.high + counts.medium + counts.low + counts.informational, findings.len());
    assert_eq!(counts.get(Severity::High), 2);
    assert_eq!(counts.get(Severity::Medium), 0);
    assert_eq!(counts.get(Severity::Low), 2);
    assert_eq!(counts.get(Severity::Informational), 1);
}

#[test]
fn own_count_agrees_with_consistent_statistics() {
    let result = AnalysisResult {
        findings: mixed(),
        stats: AnalysisStats {
            findings_by_severity: SeverityCounts { high: 2, medium: 0, low: 2, informational: 1 },
        },
    };
    assert!(stats_are_consistent(&result));
    let aggregation = aggregate(&result);
    assert_eq!(aggregation.reported, aggregation.counted);
    assert_eq!(aggregation.total, 5);
    for group in &aggregation.groups {
        assert_eq!(group.findings.len(), aggregation.reported.get(group.severity));
    }
}

#[test]
fn inconsistent_statistics_are_noticed() {
    let result = AnalysisResult {
        findings: mixed(),
        stats: AnalysisStats {
            findings_by_severity: SeverityCounts { high: 5, medium: 0, low: 0, informational: 0 },
        },
    };
    assert!(!stats_are_consistent(&result));
    let aggregation = aggregate(&result);
    assert_ne!(aggregation.reported, aggregation.counted);
    assert_eq!(aggregation.counted, SeverityCounts { high: 2, medium: 0, low: 2, informational: 1 });
}

#[test]
fn result_made_from_findings_is_consistent() {
    let result = AnalysisResult::from_findings(mixed());
    assert!(stats_are_consistent(&result));
    assert_eq!(result.findings, mixed());
    assert_eq!(
        result.stats.findings_by_severity,
        SeverityCounts { high: 2, medium: 0, low: 2, informational: 1 }
    );
}

#[test]
fn select_takes_one_severity_in_order() {
    let findings = mixed();
    let lows = select(&findings, Severity::Low);
    let descriptions: Vec<&str> = lows.iter().map(|f| f.description.as_str()).collect();
    assert_eq!(descriptions, vec!["first low", "second low"]);
    assert!(select(&findings, Severity::Medium).is_empty());
}

#[test]
fn low_high_high_groups_high_before_low() {
    let result = AnalysisResult::from_findings(vec![
        finding(Severity::Low, "l"),
        finding(Severity::High, "h1"),
        finding(Severity::High, "h2"),
    ]);
    let aggregation = aggregate(&result);
    assert_eq!(aggregation.total, 3);
    assert_eq!(aggregation.groups.len(), 2);
    assert_eq!(aggregation.groups[0].severity, Severity::High);
    assert_eq!(aggregation.groups[0].findings.len(), 2);
    assert_eq!(aggregation.groups[1].severity, Severity::Low);
    assert_eq!(aggregation.groups[1].findings.len(), 1);
    assert_eq!(aggregation.reported.high, 2);
    assert_eq!(aggregation.reported.low, 1);
}

#[test]
fn copies_of_findings_are_equal_to_the_findings() {
    let mut rich = finding(Severity::High, "rich");
    rich.code_snippet = Some("code".to_string());
    rich.recommendations = vec!["one".to_string(), "two".to_string()];
    let findings = vec![finding(Severity::Low, "plain"), rich];
    assert_eq!(eloizer::model::copy_findings(&findings), findings);
    assert_eq!(findings[1].duplicate(), findings[1]);
    assert_eq!(
        eloizer::model::copy_texts(&findings[1].recommendations),
        findings[1].recommendations
    );
    assert!(eloizer::model::copy_findings(&Vec::new()).is_empty());
}
