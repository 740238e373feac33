use eloizer::commands::analyze::{run, Event, Pipeline, Request, RunRequest, Stage, Transition};
use eloizer::console::{Channel, Color, Line, Span, Style};
use eloizer::error::RunError;
use eloizer::model::{AnalysisResult, Finding, Location};
use eloizer::severity::{RuleType, Severity};

fn texts(lines: &[Line]) -> Vec<String> {
    lines.iter().map(|line| line.text()).collect()
}

fn request(output: Option<&str>, generate_ast: bool, verbose: bool, quiet: bool) -> RunRequest {
    RunRequest {
        path: "programs/vault".to_string(),
        templates: None,
        output: output.map(|path| path.to_string()),
        generate_ast,
        ignore: None,
        ignore_rules: None,
        include_rule_types: Vec::new(),
        verbose,
        quiet,
    }
}

fn finding(severity: Severity, description: &str) -> Finding {
    Finding {
        severity,
        description: description.to_string(),
        location: Location { file: "src/lib.rs".to_string(), line: 7 },
        code_snippet: None,
        recommendations: Vec::new(),
    }
}

fn result() -> AnalysisResult {
    AnalysisResult::from_findings(vec![
        finding(Severity::Low, "l"),
        finding(Severity::High, "h1"),
        finding(Severity::High, "h2"),
    ])
}

fn directory() -> Event {
    Event::PathChecked { exists: true, is_directory: true }
}

fn files(names: &[&str]) -> Event {
    Event::Discovered { files: names.iter().map(|name| name.to_string()).collect() }
}

fn analyzed(result: AnalysisResult) -> Event {
    Event::Analyzed { result: Ok(result), elapsed: "0.25".to_string() }
}

/// Takes the run through the events and gives the last state, the requests
/// in their order and all the lines.
fn drive(request: RunRequest, events: Vec<Event>) -> (Pipeline, Vec<Request>, Vec<Line>) {
    let (mut pipeline, first) = Pipeline::begin(request);
    let mut requests = vec![first.request];
    let mut lines = first.output;
    for event in events {
        let (next, transition) = pipeline.step(event);
        pipeline = next;
        requests.push(transition.request);
        lines.extend(transition.output);
    }
    (pipeline, requests, lines)
}

#[test]
fn run_begins_with_the_banner_and_the_look_at_the_path() {
    let (pipeline, first) = run(
        "programs/vault".to_string(),
        None,
        None,
        false,
        None,
        None,
        false,
        false,
    );
    assert_eq!(pipeline.stage, Stage::ValidatingPath);
    assert_eq!(pipeline.request, request(None, false, false, false));
    assert!(!pipeline.is_over());
    assert_eq!(first.request, Request::CheckPath { path: "programs/vault".to_string() });
    assert_eq!(first.output.len(), 8);
    assert_eq!(first.output[0].text(), "");
    assert_eq!(first.output[1].text(), "███████╗██╗      ██████╗ ██╗███████╗███████╗██████╗ ");
    assert_eq!(first.output[1].spans[0].style, Style::Strong(Color::BrightCyan));
    assert!(first.output[6].text().starts_with("╚══════╝╚══════╝ ╚═════╝ ╚═╝╚══════╝╚══════╝╚═╝  ╚═╝"));
    assert_eq!(first.output[7].text(), "    ");
}

#[test]
fn quiet_run_begins_without_the_banner() {
    let (_, first) = Pipeline::begin(request(None, false, false, true));
    assert!(first.output.is_empty());
    assert_eq!(first.request, Request::CheckPath { path: "programs/vault".to_string() });
}

#[test]
fn missing_path_fails_before_discovery() {
    let (pipeline, _) = Pipeline::begin(request(None, false, false, false));
    let (pipeline, transition) =
        pipeline.step(Event::PathChecked { exists: false, is_directory: false });
    assert_eq!(
        pipeline.stage,
        Stage::Failed { error: RunError::PathMissing { path: "programs/vault".to_string() } }
    );
    assert!(pipeline.is_over());
    assert_eq!(transition.request, Request::Finish);
    assert_eq!(texts(&transition.output), vec!["✗ Path does not exist: programs/vault"]);
    assert_eq!(transition.output[0].channel, Channel::Stderr);
    assert_eq!(
        transition.output[0].spans,
        vec![
            Span { text: "✗".to_string(), style: Style::Strong(Color::Red) },
            Span { text: " Path does not exist: ".to_string(), style: Style::Plain },
            Span { text: "programs/vault".to_string(), style: Style::Tint(Color::Yellow) },
        ]
    );
    match pipeline.stage {
        Stage::Failed { error } => {
            assert_eq!(error.message(), "Path programs/vault does not exist")
        }
        other => panic!("unexpected stage {:?}", other),
    }
}

#[test]
fn file_in_place_of_a_directory_fails_before_discovery() {
    let (pipeline, _) = Pipeline::begin(request(None, false, false, true));
    let (pipeline, transition) =
        pipeline.step(Event::PathChecked { exists: true, is_directory: false });
    let error = RunError::NotADirectory { path: "programs/vault".to_string() };
    assert_eq!(error.message(), "Path programs/vault is not a directory");
    assert_eq!(pipeline.stage, Stage::Failed { error });
    assert_eq!(transition.request, Request::Finish);
    assert_eq!(texts(&transition.output), vec!["✗ Path is not a directory: programs/vault"]);
}

#[test]
fn directory_is_searched_next() {
    let (pipeline, _) = Pipeline::begin(request(None, false, false, false));
    let (pipeline, transition) = pipeline.step(directory());
    assert_eq!(pipeline.stage, Stage::Discovering);
    assert_eq!(transition.request, Request::Discover { path: "programs/vault".to_string() });
    assert_eq!(texts(&transition.output), vec!["", "→ Analyzing directory: programs/vault", ""]);
}

#[test]
fn directory_without_source_files_is_done_without_the_engine() {
    let (pipeline, requests, lines) =
        drive(request(None, false, false, false), vec![directory(), files(&[])]);
    assert_eq!(pipeline.stage, Stage::Done);
    assert!(pipeline.is_over());
    assert_eq!(requests.last(), Some(&Request::Finish));
    assert!(requests.iter().all(|request| !matches!(request, Request::Analyze { .. })));
    let notice: Vec<&Line> = lines.iter().filter(|line| line.channel == Channel::Stderr).collect();
    assert_eq!(notice.len(), 2);
    assert_eq!(notice[0].text(), "");
    assert_eq!(notice[1].text(), "⚠ No Rust files found in programs/vault");
}

#[test]
fn directory_without_source_files_is_noticed_in_a_quiet_run_too() {
    let (pipeline, _, lines) =
        drive(request(None, false, false, true), vec![directory(), files(&[])]);
    assert_eq!(pipeline.stage, Stage::Done);
    assert_eq!(texts(&lines), vec!["", "⚠ No Rust files found in programs/vault"]);
}

#[test]
fn run_to_the_console_shows_summary_and_findings() {
    let (pipeline, requests, lines) = drive(
        request(None, false, false, false),
        vec![
            directory(),
            files(&["src/lib.rs", "src/state.rs"]),
            Event::Proceed,
            analyzed(result()),
            Event::Proceed,
            Event::Proceed,
        ],
    );
    assert_eq!(pipeline.stage, Stage::Done);
    assert_eq!(requests.len(), 7);
    assert_eq!(requests[0], Request::CheckPath { path: "programs/vault".to_string() });
    assert_eq!(requests[1], Request::Discover { path: "programs/vault".to_string() });
    assert_eq!(requests[2], Request::Proceed);
    match &requests[3] {
        Request::Analyze { options } => {
            assert!(!options.generate_ast);
            assert_eq!(options.custom_templates_path, None);
            assert_eq!(
                options.include_rule_types,
                vec![RuleType::DomainSpecific, RuleType::FrameworkSpecific, RuleType::General]
            );
            assert!(options.ignore_severities.is_empty());
            assert!(options.ignore_rules.is_empty());
        }
        other => panic!("unexpected request {:?}", other),
    }
    assert_eq!(requests[4], Request::Proceed);
    assert_eq!(requests[5], Request::Proceed);
    assert_eq!(requests[6], Request::Finish);
    let analyses = requests.iter().filter(|r| matches!(r, Request::Analyze { .. })).count();
    assert_eq!(analyses, 1);

    let shown = texts(&lines);
    assert_eq!(
        shown[8..],
        [
            "",
            "→ Analyzing directory: programs/vault",
            "",
            "✓ Found 2 Rust file(s) to analyze",
            "",
            "🔍 Running security analysis...",
            "",
            "✓ Analysis completed in 0.25s",
            "",
            "══════════════════════════════════════════════════════════════════════",
            "",
            "📊 ANALYSIS SUMMARY",
            "",
            "  Total findings: 3",
            "",
            "  🔴 High:           2",
            "  🟢 Low:            1",
            "",
            "══════════════════════════════════════════════════════════════════════",
            "",
            "🔍 DETAILED FINDINGS",
            "",
            "🔴 High Severity",
            "",
            "  1. h1",
            "     📍 src/lib.rs:7",
            "",
            "  2. h2",
            "     📍 src/lib.rs:7",
            "",
            "🟢 Low Severity",
            "",
            "  3. l",
            "     📍 src/lib.rs:7",
            "",
            "",
            "✓ Analysis completed successfully!",
            "",
        ]
    );
    assert!(lines.iter().all(|line| line.channel == Channel::Stdout));
}

#[test]
fn run_with_a_report_asks_for_it_under_the_document_path() {
    let (pipeline, requests, lines) = drive(
        request(Some("audit"), false, false, false),
        vec![
            directory(),
            files(&["src/lib.rs"]),
            Event::Proceed,
            analyzed(result()),
            Event::Proceed,
        ],
    );
    assert_eq!(
        pipeline.stage,
        Stage::Reporting { result: result(), path: Some("audit.md".to_string()) }
    );
    assert_eq!(
        requests.last(),
        Some(&Request::SaveReport {
            path: "audit.md".to_string(),
            project: "programs/vault".to_string(),
            findings: result().findings,
        })
    );
    assert!(!texts(&lines).contains(&"🔍 DETAILED FINDINGS".to_string()));
    assert!(texts(&lines).contains(&"📊 ANALYSIS SUMMARY".to_string()));

    let (pipeline, transition) = pipeline.step(Event::ReportSaved { outcome: Ok(()) });
    assert_eq!(pipeline.stage, Stage::Done);
    assert_eq!(transition.request, Request::Finish);
    assert_eq!(
        texts(&transition.output),
        vec![
            "",
            "📄 Report saved to: audit.md",
            "",
            "",
            "✓ Analysis completed successfully!",
            "",
        ]
    );
}

#[test]
fn report_that_cannot_be_written_fails_the_run() {
    let (pipeline, _, _) = drive(
        request(Some("audit.md"), false, false, true),
        vec![
            directory(),
            files(&["src/lib.rs"]),
            Event::Proceed,
            analyzed(result()),
            Event::Proceed,
        ],
    );
    let (pipeline, transition) =
        pipeline.step(Event::ReportSaved { outcome: Err("permission denied".to_string()) });
    let error = RunError::ReportFailed { message: "permission denied".to_string() };
    assert_eq!(error.message(), "permission denied");
    assert_eq!(pipeline.stage, Stage::Failed { error });
    assert_eq!(transition.request, Request::Finish);
    assert_eq!(
        texts(&transition.output),
        vec!["", "✗ Failed to save report: permission denied", ""]
    );
    assert!(transition.output.iter().all(|line| line.channel == Channel::Stderr));
}

#[test]
fn run_without_findings_still_writes_the_report() {
    let (_, requests, lines) = drive(
        request(Some("audit.md"), false, false, false),
        vec![
            directory(),
            files(&["src/lib.rs"]),
            Event::Proceed,
            analyzed(AnalysisResult::from_findings(Vec::new())),
            Event::Proceed,
        ],
    );
    assert_eq!(
        requests.last(),
        Some(&Request::SaveReport {
            path: "audit.md".to_string(),
            project: "programs/vault".to_string(),
            findings: Vec::new(),
        })
    );
    assert!(texts(&lines).contains(&"  ✓ No vulnerabilities found!".to_string()));
}

#[test]
fn run_without_findings_and_without_report_completes() {
    let (pipeline, _, lines) = drive(
        request(None, false, false, false),
        vec![
            directory(),
            files(&["src/lib.rs"]),
            Event::Proceed,
            analyzed(AnalysisResult::from_findings(Vec::new())),
            Event::Proceed,
            Event::Proceed,
        ],
    );
    assert_eq!(pipeline.stage, Stage::Done);
    let shown = texts(&lines);
    assert_eq!(
        shown[shown.len() - 5..],
        ["  ✓ No vulnerabilities found!", "", "", "✓ Analysis completed successfully!", ""]
    );
}

#[test]
fn syntax_trees_are_written_file_by_file() {
    let (pipeline, _) = Pipeline::begin(request(None, true, false, false));
    let (pipeline, _) = pipeline.step(directory());
    let (pipeline, transition) = pipeline.step(files(&["src/lib.rs", "src/state.rs"]));
    assert_eq!(
        transition.request,
        Request::WriteAst { source: "src/lib.rs".to_string(), target: "src/lib.json".to_string() }
    );
    assert_eq!(
        texts(&transition.output),
        vec!["✓ Found 2 Rust file(s) to analyze", "", "→ Generating AST JSON files...", ""]
    );
    assert_eq!(
        pipeline.stage,
        Stage::EmittingAst {
            files: vec!["src/lib.rs".to_string(), "src/state.rs".to_string()],
            written: 0,
            target: "src/lib.json".to_string(),
        }
    );

    let (pipeline, transition) = pipeline.step(Event::AstWritten { outcome: Ok(()) });
    assert_eq!(
        transition.request,
        Request::WriteAst {
            source: "src/state.rs".to_string(),
            target: "src/state.json".to_string()
        }
    );
    assert_eq!(texts(&transition.output), vec!["  ✓ src/lib.json"]);
    assert_eq!(
        transition.output[0].spans,
        vec![
            Span { text: "  ".to_string(), style: Style::Plain },
            Span { text: "✓".to_string(), style: Style::Tint(Color::Green) },
            Span { text: " ".to_string(), style: Style::Plain },
            Span { text: "src/lib.json".to_string(), style: Style::Dimmed },
        ]
    );

    let (pipeline, transition) = pipeline.step(Event::AstWritten { outcome: Ok(()) });
    assert_eq!(pipeline.stage, Stage::BuildingOptions);
    assert_eq!(transition.request, Request::Proceed);
    assert_eq!(texts(&transition.output), vec!["  ✓ src/state.json", ""]);

    let (pipeline, transition) = pipeline.step(Event::Proceed);
    assert_eq!(pipeline.stage, Stage::Analyzing);
    match transition.request {
        Request::Analyze { options } => assert!(options.generate_ast),
        other => panic!("unexpected request {:?}", other),
    }
}

#[test]
fn syntax_tree_that_cannot_be_written_fails_the_run() {
    let (pipeline, requests, _) = drive(
        request(None, true, false, false),
        vec![
            directory(),
            files(&["src/lib.rs", "src/state.rs"]),
            Event::AstWritten { outcome: Err("disk full".to_string()) },
        ],
    );
    let error = RunError::AstWrite { message: "disk full".to_string() };
    assert_eq!(error.message(), "disk full");
    assert_eq!(pipeline.stage, Stage::Failed { error });
    assert_eq!(requests.last(), Some(&Request::Finish));
    assert!(requests.iter().all(|request| !matches!(request, Request::Analyze { .. })));
}

#[test]
fn engine_failure_ends_the_run_with_its_message() {
    let (pipeline, requests, lines) = drive(
        request(Some("audit.md"), false, false, true),
        vec![
            directory(),
            files(&["src/lib.rs"]),
            Event::Proceed,
            Event::Analyzed { result: Err("parse error in rule".to_string()), elapsed: String::new() },
        ],
    );
    let error = RunError::AnalysisFailed { message: "parse error in rule".to_string() };
    assert_eq!(error.message(), "Analysis failed: parse error in rule");
    assert_eq!(pipeline.stage, Stage::Failed { error });
    assert_eq!(requests.last(), Some(&Request::Finish));
    assert!(requests.iter().all(|request| !matches!(request, Request::SaveReport { .. })));
    assert_eq!(texts(&lines), vec!["", "✗ Analysis failed: parse error in rule"]);
    assert_eq!(lines[1].spans[2].style, Style::Tint(Color::Red));
}

#[test]
fn quiet_run_shows_errors_and_warnings_alone() {
    let mut quiet = request(None, true, true, true);
    quiet.ignore = Some("low,critical".to_string());
    let (pipeline, requests, lines) = drive(
        quiet,
        vec![
            directory(),
            files(&["src/lib.rs"]),
            Event::AstWritten { outcome: Ok(()) },
            Event::Proceed,
            analyzed(result()),
            Event::Proceed,
            Event::Proceed,
        ],
    );
    assert_eq!(pipeline.stage, Stage::Done);
    assert_eq!(requests.last(), Some(&Request::Finish));
    assert_eq!(texts(&lines), vec!["Unknown severity level: critical"]);
    assert_eq!(lines[0].channel, Channel::Warning);
    match &requests[4] {
        Request::Analyze { options } => {
            assert_eq!(options.ignore_severities, vec![Severity::Low]);
        }
        other => panic!("unexpected request {:?}", other),
    }
}

#[test]
fn unknown_severity_to_ignore_does_not_stop_the_run() {
    let mut with_ignores = request(None, false, false, false);
    with_ignores.ignore = Some(" Low , MEDIUM ,critical".to_string());
    with_ignores.ignore_rules = Some("SOL-001, SOL-002".to_string());
    with_ignores.templates = Some("my/templates".to_string());
    let (pipeline, requests, lines) =
        drive(with_ignores, vec![directory(), files(&["src/lib.rs"]), Event::Proceed]);
    assert_eq!(pipeline.stage, Stage::Analyzing);
    match requests.last() {
        Some(Request::Analyze { options }) => {
            assert_eq!(options.ignore_severities, vec![Severity::Low, Severity::Medium]);
            assert_eq!(
                options.ignore_rules,
                vec!["SOL-001".to_string(), "SOL-002".to_string()]
            );
            assert_eq!(options.custom_templates_path, Some("my/templates".to_string()));
        }
        other => panic!("unexpected request {:?}", other),
    }
    let warnings: Vec<String> = lines
        .iter()
        .filter(|line| line.channel == Channel::Warning)
        .map(|line| line.text())
        .collect();
    assert_eq!(warnings, vec!["Unknown severity level: critical".to_string()]);
}

#[test]
fn verbose_run_shows_code_and_recommendations() {
    let mut rich = finding(Severity::High, "reentrancy");
    rich.code_snippet = Some("invoke(&ix)?;".to_string());
    rich.recommendations = vec!["guard it".to_string(), "test it".to_string()];
    let (_, _, lines) = drive(
        request(None, false, true, false),
        vec![
            directory(),
            files(&["src/lib.rs"]),
            Event::Proceed,
            analyzed(AnalysisResult::from_findings(vec![rich])),
            Event::Proceed,
            Event::Proceed,
        ],
    );
    let shown = texts(&lines);
    assert!(shown.contains(&"     Code: invoke(&ix)?;".to_string()));
    assert!(shown.contains(&"     💡 guard it, test it".to_string()));
}

#[test]
fn event_that_answers_no_request_fails_the_run() {
    let (pipeline, _) = Pipeline::begin(request(None, false, false, false));
    let (pipeline, transition) = pipeline.step(Event::Proceed);
    assert_eq!(pipeline.stage, Stage::Failed { error: RunError::UnexpectedEvent });
    assert_eq!(transition, Transition { output: Vec::new(), request: Request::Finish });

    let (pipeline, _, _) =
        drive(request(None, false, false, false), vec![directory(), directory()]);
    assert_eq!(pipeline.stage, Stage::Failed { error: RunError::UnexpectedEvent });
    assert_eq!(RunError::UnexpectedEvent.message(), "unexpected event");
}

#[test]
fn run_that_is_over_stays_as_it_is() {
    let (pipeline, _, _) =
        drive(request(None, false, false, false), vec![directory(), files(&[])]);
    let (pipeline, transition) = pipeline.step(analyzed(result()));
    assert_eq!(pipeline.stage, Stage::Done);
    assert_eq!(transition, Transition { output: Vec::new(), request: Request::Finish });

    let (failed, _, _) = drive(
        request(None, false, false, false),
        vec![Event::PathChecked { exists: false, is_directory: false }],
    );
    let before = failed.clone();
    let (after, transition) = failed.step(directory());
    assert_eq!(after, before);
    assert_eq!(transition, Transition { output: Vec::new(), request: Request::Finish });
}

/// An engine for the tests: it reports one finding of each severity, and
/// leaves out what the options tell it to ignore.
fn stand_in_engine(options: &eloizer::model::AnalysisOptions) -> AnalysisResult {
    let all = vec![
        finding(Severity::Low, "low"),
        finding(Severity::High, "high"),
        finding(Severity::Informational, "informational"),
        finding(Severity::Medium, "medium"),
    ];
    AnalysisResult::from_findings(
        all.into_iter().filter(|f| !options.ignores_severity(f.severity)).collect(),
    )
}

#[test]
fn ignored_severities_reach_the_engine_and_stay_out_of_the_report() {
    let mut with_ignores = request(None, false, false, false);
    with_ignores.ignore = Some("low, Informational,low".to_string());
    let (mut pipeline, first) = Pipeline::begin(with_ignores);
    let mut transition = first;
    let mut shown = Vec::new();
    let mut analyses = 0;
    loop {
        shown.extend(texts(&transition.output));
        let event = match &transition.request {
            Request::Finish => break,
            Request::CheckPath { .. } => directory(),
            Request::Discover { .. } => files(&["src/lib.rs"]),
            Request::Proceed => Event::Proceed,
            Request::Analyze { options } => {
                analyses += 1;
                let result = stand_in_engine(options);
                assert!(eloizer::aggregate::stats_are_consistent(&result));
                analyzed(result)
            }
            other => panic!("unexpected request {:?}", other),
        };
        let (next, step) = pipeline.step(event);
        pipeline = next;
        transition = step;
    }
    assert_eq!(pipeline.stage, Stage::Done);
    assert_eq!(analyses, 1);
    assert!(shown.contains(&"  Total findings: 2".to_string()));
    assert!(shown.contains(&"  🔴 High:           1".to_string()));
    assert!(shown.contains(&"  🟡 Medium:         1".to_string()));
    assert!(shown.contains(&"  1. high".to_string()));
    assert!(shown.contains(&"  2. medium".to_string()));
    assert!(!shown.iter().any(|line| line.contains("Low")));
    assert!(!shown.iter().any(|line| line.contains("Informational")));
}

#[test]
fn report_is_asked_for_with_every_finding_in_the_order_of_the_engine() {
    let mut rich = finding(Severity::Medium, "reentrancy");
    rich.code_snippet = Some("invoke(&ix)?;".to_string());
    rich.recommendations = vec!["guard it".to_string(), "test it".to_string()];
    let findings = vec![
        finding(Severity::Low, "l"),
        rich,
        finding(Severity::High, "h"),
        finding(Severity::Low, "l"),
    ];
    let (_, requests, _) = drive(
        request(Some("audit.md"), false, false, true),
        vec![
            directory(),
            files(&["src/lib.rs"]),
            Event::Proceed,
            analyzed(AnalysisResult::from_findings(findings.clone())),
            Event::Proceed,
        ],
    );
    match requests.last() {
        Some(Request::SaveReport { findings: asked, .. }) => assert_eq!(asked, &findings),
        other => panic!("unexpected request {:?}", other),
    }
}

#[test]
fn named_rule_types_reach_the_engine() {
    let mut chosen = request(None, false, false, false);
    chosen.include_rule_types =
        vec![" General ".to_string(), "plugin".to_string(), "DOMAIN_SPECIFIC".to_string()];
    let (pipeline, requests, lines) =
        drive(chosen, vec![directory(), files(&["src/lib.rs"]), Event::Proceed]);
    assert_eq!(pipeline.stage, Stage::Analyzing);
    match requests.last() {
        Some(Request::Analyze { options }) => {
            assert_eq!(
                options.include_rule_types,
                vec![RuleType::General, RuleType::DomainSpecific]
            );
        }
        other => panic!("unexpected request {:?}", other),
    }
    let warnings: Vec<String> = lines
        .iter()
        .filter(|line| line.channel == Channel::Warning)
        .map(|line| line.text())
        .collect();
    assert_eq!(warnings, vec!["Unknown rule type: plugin".to_string()]);
}

#[test]
fn report_asked_for_under_another_extension_is_written_as_a_document() {
    let (_, requests, _) = drive(
        request(Some("out/notes.markdown"), false, false, true),
        vec![
            directory(),
            files(&["src/lib.rs"]),
            Event::Proceed,
            analyzed(AnalysisResult::from_findings(Vec::new())),
            Event::Proceed,
        ],
    );
    match requests.last() {
        Some(Request::SaveReport { path, .. }) => assert_eq!(path, "out/notes.md"),
        other => panic!("unexpected request {:?}", other),
    }
}
