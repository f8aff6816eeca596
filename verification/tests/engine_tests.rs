//! The engine adapter's guarantees, exercised end to end: idempotence, the
//! changed bit, per-file processing, and the check-mode aggregation.

use elmfmt::FmtError;
use elmfmt::FormatOutcome;
use elmfmt::FormatterConfig;
use elmfmt::batch::batch_exit_failure;
use elmfmt::batch::changed_files;
use elmfmt::batch::needs_rewrite;
use elmfmt::batch::process_file;
use elmfmt::engine;
use elmfmt::format_elm;

/// Formatting its own output reproduces it: the fixed-point guarantee, with
/// the engine's idempotence check enabled throughout.
#[test]
fn formatting_is_a_fixed_point() {
    let config = FormatterConfig::new();
    let input = "  module A exposing (a)\na = 1";
    let once = format_elm(input, &config).unwrap();
    let twice = format_elm(&once, &config).unwrap();
    assert_eq!(once, twice);
}

#[test]
fn formatting_normalizes_the_edges_of_the_file() {
    let config = FormatterConfig::new();
    let out = format_elm("module A exposing (a)\na = 1\n\n\n", &config).unwrap();
    assert_eq!(out, "module A exposing (a)\na = 1\n");
}

#[test]
fn format_result_reports_success_as_plain_fields() {
    let config = FormatterConfig::new();
    let r = engine::format("module A exposing (a)\na = 1\n", &config);
    assert!(r.success);
    assert!(!r.output.is_empty());
    assert!(r.error.is_empty());

    let bad = engine::format("module A exposing (", &config);
    assert!(!bad.success);
    assert!(bad.output.is_empty());
    assert!(!bad.error.is_empty());
}

#[test]
fn process_file_reports_an_unchanged_file() {
    let docs: Vec<Option<String>> = vec![None];
    let outcome = process_file("module A exposing (a)\na = 1\n", &docs, false);
    match outcome {
        FormatOutcome::Done { changed, .. } => assert!(!changed),
        FormatOutcome::Failed(e) => panic!("unexpected failure: {:?}", e),
    }
}

#[test]
fn process_file_reports_a_changed_file() {
    let docs: Vec<Option<String>> = vec![None];
    let outcome = process_file("  module A exposing (a)\na = 1", &docs, false);
    assert!(needs_rewrite(&outcome));
}

#[test]
fn process_file_uses_the_nearest_configuration() {
    let docs: Vec<Option<String>> = vec![None, Some("indentation: 8\n".to_string())];
    let outcome = process_file("module A exposing (a)\na = 1\n", &docs, false);
    match outcome {
        FormatOutcome::Done { config, .. } => assert_eq!(config.indentation, 8),
        FormatOutcome::Failed(e) => panic!("unexpected failure: {:?}", e),
    }
}

#[test]
fn process_file_fails_on_a_bad_configuration() {
    let docs: Vec<Option<String>> = vec![Some("if-style: sideways\n".to_string())];
    let outcome = process_file("module A exposing (a)\na = 1\n", &docs, false);
    assert!(matches!(outcome, FormatOutcome::Failed(FmtError::Config(_))));
}

#[test]
fn process_file_fails_on_unparseable_source() {
    let docs: Vec<Option<String>> = vec![None];
    let outcome = process_file("module A exposing (", &docs, false);
    assert!(matches!(outcome, FormatOutcome::Failed(FmtError::SourceParse)));
}

#[test]
fn process_file_honours_skip_idempotence() {
    let docs: Vec<Option<String>> = vec![None];
    let outcome = process_file("module A exposing (a)\na = 1\n", &docs, true);
    assert!(matches!(outcome, FormatOutcome::Done { .. }));
}

/// A batch of three files where exactly one differs from its formatted form
/// exits with failure and reports exactly that one file.
#[test]
fn check_run_flags_exactly_the_changed_file() {
    let docs: Vec<Option<String>> = vec![None];
    let contents = [
        ("a.elm", "module A exposing (a)\na = 1\n"),
        ("b.elm", "module B exposing (b)\nb = 2"),
        ("c.elm", "module C exposing (c)\nc = 3\n"),
    ];
    let mut entries: Vec<(String, FormatOutcome)> = Vec::new();
    for (name, content) in contents {
        entries.push((name.to_string(), process_file(content, &docs, false)));
    }
    let names = changed_files(&entries);
    assert_eq!(names, vec!["b.elm".to_string()]);
    let outcomes: Vec<FormatOutcome> = entries.into_iter().map(|e| e.1).collect();
    assert!(batch_exit_failure(true, &outcomes));
}

/// A batch where nothing differs exits with success.
#[test]
fn check_run_passes_when_nothing_differs() {
    let docs: Vec<Option<String>> = vec![None];
    let contents = ["module A exposing (a)\na = 1\n", "module B exposing (b)\nb = 2\n"];
    let mut outcomes: Vec<FormatOutcome> = Vec::new();
    for content in contents {
        outcomes.push(process_file(content, &docs, false));
    }
    assert!(!batch_exit_failure(true, &outcomes));
    for o in &outcomes {
        assert!(!needs_rewrite(o));
    }
}
