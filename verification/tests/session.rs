//! Tests of the run-level decisions: mode selection, theme-name default,
//! per-source error reporting, outcome aggregation and exit status.

use rcat::session::{
    exit_code, run_outcome, select_mode, source_error_line, stdin_advisory_line,
    stdin_error_line, theme_to_use, RunMode,
};

#[test]
fn stdin_advisory_names_the_end_of_input_key() {
    assert_eq!(
        stdin_advisory_line(),
        "(Membaca dari standard input. Tekan Ctrl+D untuk selesai)"
    );
}

#[test]
fn listing_themes_bypasses_everything_else() {
    assert_eq!(select_mode(true, 0), RunMode::ListThemes);
    assert_eq!(select_mode(true, 3), RunMode::ListThemes);
}

#[test]
fn empty_file_list_means_standard_input() {
    assert_eq!(select_mode(false, 0), RunMode::UseStdin);
    assert_eq!(select_mode(false, 1), RunMode::UseFiles);
    assert_eq!(select_mode(false, 7), RunMode::UseFiles);
}

#[test]
fn theme_name_defaults_when_none_requested() {
    assert_eq!(theme_to_use(&None), "base16-ocean.dark");
    assert_eq!(
        theme_to_use(&Some("Solarized (dark)".to_string())),
        "Solarized (dark)"
    );
}

#[test]
fn source_error_lines_name_the_source() {
    assert_eq!(
        source_error_line("missing.txt", "No such file or directory (os error 2)"),
        "rcat: missing.txt: No such file or directory (os error 2)"
    );
    assert_eq!(
        stdin_error_line("broken pipe"),
        "rcat: Gagal membaca standard input: broken pipe"
    );
}

#[test]
fn one_failing_source_fails_the_run_but_not_the_others() {
    // Three sources, the middle one missing: both good sources are still
    // processed, one diagnostic is emitted, and the run exits non-zero.
    let sources = ["a.txt", "missing.txt", "b.txt"];
    let mut failures: Vec<bool> = Vec::new();
    let mut diagnostics: Vec<String> = Vec::new();
    let mut processed: Vec<&str> = Vec::new();
    for s in sources.iter() {
        if *s == "missing.txt" {
            diagnostics.push(source_error_line(s, "No such file or directory"));
            failures.push(true);
        } else {
            processed.push(s);
            failures.push(false);
        }
    }
    assert_eq!(processed, ["a.txt", "b.txt"]);
    assert_eq!(diagnostics.len(), 1);
    assert!(run_outcome(&failures));
    assert_eq!(exit_code(run_outcome(&failures)), 1);
}

#[test]
fn clean_runs_exit_zero() {
    assert!(!run_outcome(&Vec::new()));
    assert!(!run_outcome(&vec![false, false]));
    assert_eq!(exit_code(false), 0);
    assert!(run_outcome(&vec![false, true]));
    assert_eq!(exit_code(true), 1);
}
