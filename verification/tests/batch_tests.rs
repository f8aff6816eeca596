use elmfmt::FmtError;
use elmfmt::FormatOutcome;
use elmfmt::FormatterConfig;
use elmfmt::InvocationError;
use elmfmt::OutputMode;
use elmfmt::WalkedEntry;
use elmfmt::batch::batch_exit_failure;
use elmfmt::batch::changed_files;
use elmfmt::batch::make_batch_job;
use elmfmt::batch::output_mode;
use elmfmt::batch::select_elm_files;
use elmfmt::batch::validate_invocation;
use elmfmt::text::normalize_paths;

/// Two file inputs with an explicit output file fail validation before any
/// formatting happens.
#[test]
fn output_with_two_inputs_fails_validation() {
    let r = validate_invocation(2, false, false, true, false, false);
    assert_eq!(r, Err(InvocationError::OutputWithMultipleTargets));
}

/// A directory input without check or in-place fails validation the same
/// way.
#[test]
fn directory_without_mode_fails_validation() {
    let r = validate_invocation(1, true, false, false, false, false);
    assert_eq!(r, Err(InvocationError::MultiTargetNeedsMode));
}

#[test]
fn single_file_to_stdout_is_single_target() {
    assert_eq!(validate_invocation(1, false, false, false, false, false), Ok(false));
    assert_eq!(validate_invocation(0, false, false, false, false, false), Ok(false));
}

#[test]
fn directory_in_check_mode_is_multi_target() {
    assert_eq!(validate_invocation(1, true, false, false, false, true), Ok(true));
    assert_eq!(validate_invocation(3, false, false, false, true, false), Ok(true));
}

#[test]
fn forced_stdin_is_never_multi_target() {
    assert_eq!(validate_invocation(2, true, true, false, false, false), Ok(false));
}

#[test]
fn mode_precedence_is_check_then_in_place_then_output() {
    assert!(matches!(output_mode(true, true, Some("x".to_string())), OutputMode::CheckOnly));
    assert!(matches!(output_mode(false, true, Some("x".to_string())), OutputMode::InPlace));
    assert!(matches!(output_mode(false, false, Some("x".to_string())), OutputMode::ToFile(_)));
    assert!(matches!(output_mode(false, false, None), OutputMode::Stdout));
}

#[test]
fn job_invariant_is_enforced() {
    let two = vec!["a.elm".to_string(), "b.elm".to_string()];
    let r = make_batch_job(two, OutputMode::ToFile("out.elm".to_string()), false);
    assert!(r.is_err());
    let two = vec!["a.elm".to_string(), "b.elm".to_string()];
    let r2 = make_batch_job(two, OutputMode::Stdout, false);
    assert!(r2.is_err());
    let two = vec!["a.elm".to_string(), "b.elm".to_string()];
    let r3 = make_batch_job(two, OutputMode::CheckOnly, false);
    assert!(r3.is_ok());
    let one = vec!["a.elm".to_string()];
    let r4 = make_batch_job(one, OutputMode::ToFile("out.elm".to_string()), true);
    let job = r4.unwrap();
    assert!(job.skip_idempotence);
    assert_eq!(job.inputs, vec!["a.elm".to_string()]);
}

/// Directory expansion is deterministic: lexicographic order, duplicates
/// processed once.
#[test]
fn expansion_is_sorted_and_deduplicated() {
    let found = vec![
        "root/b.elm".to_string(),
        "root/a.elm".to_string(),
        "root/a/c.elm".to_string(),
        "root/a.elm".to_string(),
    ];
    let out = normalize_paths(&found);
    assert_eq!(
        out,
        vec!["root/a.elm".to_string(), "root/a/c.elm".to_string(), "root/b.elm".to_string()]
    );
}

#[test]
fn expansion_is_stable_across_runs() {
    let once = normalize_paths(&vec!["z".to_string(), "y".to_string(), "x".to_string()]);
    let twice = normalize_paths(&once);
    assert_eq!(once, twice);
}

#[test]
fn only_elm_files_are_selected() {
    let entries = vec![
        WalkedEntry { path: "d/Main.elm".to_string(), name: "Main.elm".to_string(), is_file: true },
        WalkedEntry { path: "d/notes.txt".to_string(), name: "notes.txt".to_string(), is_file: true },
        WalkedEntry { path: "d/sub.elm".to_string(), name: "sub.elm".to_string(), is_file: false },
        WalkedEntry { path: "d/.elm".to_string(), name: ".elm".to_string(), is_file: true },
        WalkedEntry { path: "d/a.tar.elm".to_string(), name: "a.tar.elm".to_string(), is_file: true },
    ];
    let out = select_elm_files(&entries);
    assert_eq!(out, vec!["d/Main.elm".to_string(), "d/a.tar.elm".to_string()]);
}

fn done(changed: bool) -> FormatOutcome {
    FormatOutcome::Done {
        config: FormatterConfig::new(),
        formatted: "x\n".to_string(),
        changed,
    }
}

/// A check batch with exactly one changed file fails, and exactly that file
/// is reported.
#[test]
fn check_batch_with_one_changed_file_fails() {
    let entries = vec![
        ("a.elm".to_string(), done(false)),
        ("b.elm".to_string(), done(true)),
        ("c.elm".to_string(), done(false)),
    ];
    let names = changed_files(&entries);
    assert_eq!(names, vec!["b.elm".to_string()]);
    let outcomes: Vec<FormatOutcome> = entries.into_iter().map(|e| e.1).collect();
    assert!(batch_exit_failure(true, &outcomes));
}

/// A check batch where nothing differs succeeds.
#[test]
fn check_batch_with_no_changed_file_succeeds() {
    let outcomes = vec![done(false), done(false), done(false)];
    assert!(!batch_exit_failure(true, &outcomes));
}

#[test]
fn in_place_batch_ignores_changes_but_not_failures() {
    let outcomes = vec![done(true), done(false)];
    assert!(!batch_exit_failure(false, &outcomes));
    let outcomes2 = vec![done(false), FormatOutcome::Failed(FmtError::SourceParse)];
    assert!(batch_exit_failure(false, &outcomes2));
    let outcomes3 = vec![done(false), FormatOutcome::Failed(FmtError::SourceParse)];
    assert!(batch_exit_failure(true, &outcomes3));
}

#[test]
fn empty_batch_succeeds() {
    let outcomes: Vec<FormatOutcome> = Vec::new();
    assert!(!batch_exit_failure(true, &outcomes));
    assert!(!batch_exit_failure(false, &outcomes));
}
