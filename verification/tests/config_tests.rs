use eloizer::commands::analyze::{Request, RunRequest, Stage};
use eloizer::commands::config::{
    run, AnalysisConfig, Config, ConfigSource, DisplayConfig, OutputConfig, RawAnalysis,
    RawConfig, RawDisplay, RawOutput, RawRules, RulesConfig,
};
use eloizer::console::{Channel, Line};
use eloizer::error::RunError;

fn texts(lines: &[Line]) -> Vec<String> {
    lines.iter().map(|line| line.text()).collect()
}

fn strings(items: &[&str]) -> Vec<String> {
    items.iter().map(|item| item.to_string()).collect()
}

fn full() -> RawConfig {
    RawConfig {
        analysis: Some(RawAnalysis {
            path: Some("programs/vault".to_string()),
            generate_ast: Some(true),
        }),
        output: Some(RawOutput { report_file: Some("audit.md".to_string()) }),
        rules: Some(RawRules {
            ignore_severities: Some(strings(&["low", "informational"])),
            ignore_rules: Some(strings(&["SOL-001"])),
            include_rule_types: Some(strings(&["general"])),
        }),
        display: Some(RawDisplay { verbose: Some(true), quiet: None, no_color: Some(false) }),
    }
}

fn minimal() -> RawConfig {
    RawConfig {
        analysis: Some(RawAnalysis { path: Some(".".to_string()), generate_ast: None }),
        output: Some(RawOutput { report_file: Some("report.md".to_string()) }),
        rules: Some(RawRules {
            ignore_severities: None,
            ignore_rules: None,
            include_rule_types: None,
        }),
        display: None,
    }
}

#[test]
fn full_document_is_taken_as_it_stands() {
    assert_eq!(
        Config::from_raw(full()),
        Ok(Config {
            analysis: AnalysisConfig { path: "programs/vault".to_string(), generate_ast: true },
            output: OutputConfig { report_file: "audit.md".to_string() },
            rules: RulesConfig {
                ignore_severities: strings(&["low", "informational"]),
                ignore_rules: strings(&["SOL-001"]),
                include_rule_types: strings(&["general"]),
            },
            display: DisplayConfig { verbose: true, quiet: false, no_color: false },
        })
    );
}

#[test]
fn minimal_document_gets_the_defaults() {
    assert_eq!(
        Config::from_raw(minimal()),
        Ok(Config {
            analysis: AnalysisConfig { path: ".".to_string(), generate_ast: false },
            output: OutputConfig { report_file: "report.md".to_string() },
            rules: RulesConfig {
                ignore_severities: Vec::new(),
                ignore_rules: Vec::new(),
                include_rule_types: Vec::new(),
            },
            display: DisplayConfig { verbose: false, quiet: false, no_color: false },
        })
    );
}

#[test]
fn each_required_field_is_missed() {
    let missing = |field: &str| Err(RunError::ConfigMissingField { field: field.to_string() });

    let mut raw = minimal();
    raw.output = Some(RawOutput { report_file: None });
    assert_eq!(Config::from_raw(raw), missing("report_file"));

    let mut raw = minimal();
    raw.analysis = Some(RawAnalysis { path: None, generate_ast: Some(true) });
    assert_eq!(Config::from_raw(raw), missing("path"));

    let mut raw = minimal();
    raw.analysis = None;
    assert_eq!(Config::from_raw(raw), missing("analysis"));

    let mut raw = minimal();
    raw.output = None;
    assert_eq!(Config::from_raw(raw), missing("output"));

    let mut raw = minimal();
    raw.rules = None;
    assert_eq!(Config::from_raw(raw), missing("rules"));
}

#[test]
fn field_missing_in_a_table_is_found_before_a_missing_table() {
    let raw = RawConfig {
        analysis: None,
        output: Some(RawOutput { report_file: None }),
        rules: None,
        display: None,
    };
    assert_eq!(
        Config::from_raw(raw),
        Err(RunError::ConfigMissingField { field: "report_file".to_string() })
    );
    let raw = RawConfig {
        analysis: Some(RawAnalysis { path: None, generate_ast: None }),
        output: Some(RawOutput { report_file: None }),
        rules: None,
        display: None,
    };
    assert_eq!(
        Config::from_raw(raw),
        Err(RunError::ConfigMissingField { field: "path".to_string() })
    );
}

#[test]
fn document_without_report_file_aborts_before_discovery() {
    let mut raw = full();
    raw.output = Some(RawOutput { report_file: None });
    let failure =
        run("eloizer.toml", ConfigSource::Document { raw }, false, false).unwrap_err();
    assert_eq!(failure.error, RunError::ConfigMissingField { field: "report_file".to_string() });
    assert_eq!(failure.error.message(), "missing field `report_file`");
    assert_eq!(
        texts(&failure.output),
        vec!["✗ Failed to parse configuration file: missing field `report_file`"]
    );
    assert!(failure.output.iter().all(|line| line.channel == Channel::Stderr));
}

#[test]
fn malformed_document_aborts_with_the_message_of_the_parser() {
    let source = ConfigSource::Malformed { message: "expected `=` at line 3".to_string() };
    let failure = run("eloizer.toml", source, true, false).unwrap_err();
    assert_eq!(
        failure.error,
        RunError::ConfigMalformed { message: "expected `=` at line 3".to_string() }
    );
    assert_eq!(failure.error.message(), "expected `=` at line 3");
    assert_eq!(
        texts(&failure.output),
        vec!["✗ Failed to parse configuration file: expected `=` at line 3"]
    );
}

#[test]
fn missing_file_aborts_with_advice() {
    let failure = run("conf/eloizer.toml", ConfigSource::Missing, false, false).unwrap_err();
    assert_eq!(failure.error, RunError::ConfigNotFound);
    assert_eq!(failure.error.message(), "Configuration file not found");
    assert_eq!(
        texts(&failure.output),
        vec![
            "✗ Configuration file not found: conf/eloizer.toml",
            "",
            "Create one with: eloizer init",
            "",
        ]
    );
    assert!(failure.output.iter().all(|line| line.channel == Channel::Stderr));
}

#[test]
fn full_document_begins_the_run_it_describes() {
    let (pipeline, first) =
        run("eloizer.toml", ConfigSource::Document { raw: full() }, false, false).unwrap();
    assert_eq!(pipeline.stage, Stage::ValidatingPath);
    assert_eq!(
        pipeline.request,
        RunRequest {
            path: "programs/vault".to_string(),
            templates: None,
            output: Some("audit.md".to_string()),
            generate_ast: true,
            ignore: Some("low,informational".to_string()),
            ignore_rules: Some("SOL-001".to_string()),
            include_rule_types: strings(&["general"]),
            verbose: true,
            quiet: false,
        }
    );
    assert_eq!(first.request, Request::CheckPath { path: "programs/vault".to_string() });
    assert_eq!(texts(&first.output)[..3], ["", "⚙ Using configuration: eloizer.toml", ""]);
    assert_eq!(first.output.len(), 3 + 8);
}

#[test]
fn empty_lists_are_no_lists() {
    let config = Config::from_raw(minimal()).unwrap();
    let request = config.into_request(false, false);
    assert_eq!(request.ignore, None);
    assert_eq!(request.ignore_rules, None);
    assert_eq!(request.output, Some("report.md".to_string()));
    assert!(!request.generate_ast);
}

#[test]
fn verbose_and_quiet_hold_where_either_side_says_so() {
    for cli_verbose in [false, true] {
        for cli_quiet in [false, true] {
            for file_verbose in [false, true] {
                for file_quiet in [false, true] {
                    let mut raw = minimal();
                    raw.display = Some(RawDisplay {
                        verbose: Some(file_verbose),
                        quiet: Some(file_quiet),
                        no_color: None,
                    });
                    let request =
                        Config::from_raw(raw).unwrap().into_request(cli_verbose, cli_quiet);
                    assert_eq!(request.verbose, cli_verbose || file_verbose);
                    assert_eq!(request.quiet, cli_quiet || file_quiet);
                }
            }
        }
    }
}

#[test]
fn quiet_configuration_still_names_itself() {
    let mut raw = minimal();
    raw.display = Some(RawDisplay { verbose: None, quiet: Some(true), no_color: None });
    let (pipeline, first) =
        run("eloizer.toml", ConfigSource::Document { raw }, false, false).unwrap();
    assert!(pipeline.request.quiet);
    assert_eq!(texts(&first.output), vec!["", "⚙ Using configuration: eloizer.toml", ""]);
}

fn wrong(key: &str, expected: &str) -> ConfigSource {
    ConfigSource::Malformed { message: format!("invalid type for `{}`: expected {}", key, expected) }
}

fn text_at(table: &toml::Table, key: &str) -> Result<Option<String>, ConfigSource> {
    match table.get(key) {
        None => Ok(None),
        Some(toml::Value::String(text)) => Ok(Some(text.clone())),
        Some(_) => Err(wrong(key, "a string")),
    }
}

fn flag_at(table: &toml::Table, key: &str) -> Result<Option<bool>, ConfigSource> {
    match table.get(key) {
        None => Ok(None),
        Some(toml::Value::Boolean(flag)) => Ok(Some(*flag)),
        Some(_) => Err(wrong(key, "a boolean")),
    }
}

fn list_at(table: &toml::Table, key: &str) -> Result<Option<Vec<String>>, ConfigSource> {
    match table.get(key) {
        None => Ok(None),
        Some(toml::Value::Array(items)) => {
            let mut texts = Vec::new();
            for item in items {
                match item {
                    toml::Value::String(text) => texts.push(text.clone()),
                    _ => return Err(wrong(key, "a list of strings")),
                }
            }
            Ok(Some(texts))
        }
        Some(_) => Err(wrong(key, "a list of strings")),
    }
}

fn table_at<'a>(table: &'a toml::Table, key: &str) -> Result<Option<&'a toml::Table>, ConfigSource> {
    match table.get(key) {
        None => Ok(None),
        Some(toml::Value::Table(inner)) => Ok(Some(inner)),
        Some(_) => Err(wrong(key, "a table")),
    }
}

fn raw_of(table: &toml::Table) -> Result<RawConfig, ConfigSource> {
    Ok(RawConfig {
        analysis: match table_at(table, "analysis")? {
            Some(analysis) => Some(RawAnalysis {
                path: text_at(analysis, "path")?,
                generate_ast: flag_at(analysis, "generate_ast")?,
            }),
            None => None,
        },
        output: match table_at(table, "output")? {
            Some(output) => Some(RawOutput { report_file: text_at(output, "report_file")? }),
            None => None,
        },
        rules: match table_at(table, "rules")? {
            Some(rules) => Some(RawRules {
                ignore_severities: list_at(rules, "ignore_severities")?,
                ignore_rules: list_at(rules, "ignore_rules")?,
                include_rule_types: list_at(rules, "include_rule_types")?,
            }),
            None => None,
        },
        display: match table_at(table, "display")? {
            Some(display) => Some(RawDisplay {
                verbose: flag_at(display, "verbose")?,
                quiet: flag_at(display, "quiet")?,
                no_color: flag_at(display, "no_color")?,
            }),
            None => None,
        },
    })
}

/// Reads a document with the `toml` crate and takes from it what a
/// configuration may hold. A value of the wrong type makes the document
/// malformed, as a broken syntax does.
fn read_document(text: &str) -> ConfigSource {
    match text.parse::<toml::Table>() {
        Err(error) => ConfigSource::Malformed { message: error.to_string() },
        Ok(table) => match raw_of(&table) {
            Ok(raw) => ConfigSource::Document { raw },
            Err(malformed) => malformed,
        },
    }
}

#[test]
fn written_document_without_report_file_aborts_before_discovery() {
    let text = "[analysis]\npath = \"programs/vault\"\n\n[output]\n\n[rules]\nignore_severities = [\"low\"]\n";
    let failure = run("eloizer.toml", read_document(text), false, false).unwrap_err();
    assert_eq!(failure.error, RunError::ConfigMissingField { field: "report_file".to_string() });
    assert_eq!(
        texts(&failure.output),
        vec!["✗ Failed to parse configuration file: missing field `report_file`"]
    );
}

#[test]
fn written_document_begins_its_run() {
    let text = "[analysis]\npath = \"programs/vault\"\ngenerate_ast = true\n\n[output]\nreport_file = \"audit\"\n\n[rules]\nignore_severities = [\" Low \", \"MEDIUM\", \"critical\"]\n\n[display]\nquiet = true\n";
    let (pipeline, first) = run("eloizer.toml", read_document(text), true, false).unwrap();
    assert_eq!(
        pipeline.request,
        RunRequest {
            path: "programs/vault".to_string(),
            templates: None,
            output: Some("audit".to_string()),
            generate_ast: true,
            ignore: Some(" Low ,MEDIUM,critical".to_string()),
            ignore_rules: None,
            include_rule_types: Vec::new(),
            verbose: true,
            quiet: true,
        }
    );
    assert_eq!(first.request, Request::CheckPath { path: "programs/vault".to_string() });
}

#[test]
fn written_document_with_broken_syntax_is_malformed() {
    let source = read_document("[analysis\npath = ");
    assert!(matches!(source, ConfigSource::Malformed { .. }));
    let failure = run("eloizer.toml", source, false, false).unwrap_err();
    assert!(matches!(failure.error, RunError::ConfigMalformed { .. }));
    assert_eq!(failure.output.len(), 1);
    assert!(failure.output[0].text().starts_with("✗ Failed to parse configuration file: "));
}

#[test]
fn written_document_with_a_value_of_the_wrong_type_is_malformed() {
    let source = read_document("[analysis]\npath = 5\n\n[output]\nreport_file = \"r.md\"\n\n[rules]\n");
    assert!(matches!(source, ConfigSource::Malformed { .. }));
    let failure = run("eloizer.toml", source, false, false).unwrap_err();
    assert!(matches!(failure.error, RunError::ConfigMalformed { .. }));
}

#[test]
fn written_rule_types_reach_the_run() {
    let text = "[analysis]\npath = \".\"\n\n[output]\nreport_file = \"r.md\"\n\n[rules]\ninclude_rule_types = [\"general\", \"Framework_Specific\"]\n";
    let (pipeline, _) = run("eloizer.toml", read_document(text), false, false).unwrap();
    assert_eq!(
        pipeline.request.include_rule_types,
        vec!["general".to_string(), "Framework_Specific".to_string()]
    );
}
