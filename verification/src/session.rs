//! Decisions of one run: which mode to enter, which theme name to use,
//! how per-source failures are reported and aggregated, and the exit code.
//!
//! The surrounding program performs the reading and printing; every
//! decision and every output format it needs is stated and verified here.

use vstd::prelude::*;

verus! {

/// What one invocation does: list the themes and stop, read standard
/// input, or process the named files in order.
#[derive(Clone, Copy, PartialEq, Eq, Structural, Debug)]
pub enum RunMode {
    ListThemes,
    UseStdin,
    UseFiles,
}

/// Selects the mode of a run: listing themes bypasses everything else,
/// and an empty file list means standard input.
pub fn select_mode(list_themes: bool, file_count: usize) -> (r: RunMode)
    ensures
        r == (if list_themes {
            RunMode::ListThemes
        } else if file_count == 0 {
            RunMode::UseStdin
        } else {
            RunMode::UseFiles
        }),
{
    if list_themes {
        RunMode::ListThemes
    } else if file_count == 0 {
        RunMode::UseStdin
    } else {
        RunMode::UseFiles
    }
}

/// The theme name a run uses: the requested one, or the fixed default
/// when none was requested.
pub fn theme_to_use<'a>(requested: &'a Option<String>) -> (r: &'a str)
    ensures
        r@ == match requested {
            Some(s) => s@,
            None => "base16-ocean.dark"@,
        },
{
    match requested {
        Some(s) => s.as_str(),
        None => "base16-ocean.dark",
    }
}

/// The diagnostic line for one failed file source.
pub open spec fn source_error(source: Seq<char>, detail: Seq<char>) -> Seq<char> {
    "rcat: "@ + source + ": "@ + detail
}

/// Formats the diagnostic line for one failed file source.
pub fn source_error_line(source: &str, detail: &str) -> (r: String)
    ensures
        r@ == source_error(source@, detail@),
{
    let mut out = String::new();
    out.append("rcat: ");
    out.append(source);
    out.append(": ");
    out.append(detail);
    proof {
        assert(out@ =~= source_error(source@, detail@));
    }
    out
}

/// The advisory written to the diagnostic stream before standard input is
/// read, telling an interactive user that input is awaited and how to
/// signal end-of-input.
pub open spec fn stdin_advisory() -> Seq<char> {
    "(Membaca dari standard input. Tekan Ctrl+D untuk selesai)"@
}

/// Formats the standard-input advisory line.
pub fn stdin_advisory_line() -> (r: String)
    ensures
        r@ == stdin_advisory(),
{
    "(Membaca dari standard input. Tekan Ctrl+D untuk selesai)".to_owned()
}

/// The diagnostic line for a failure of the standard-input source.
pub open spec fn stdin_error(detail: Seq<char>) -> Seq<char> {
    "rcat: Gagal membaca standard input: "@ + detail
}

/// Formats the diagnostic line for a standard-input failure.
pub fn stdin_error_line(detail: &str) -> (r: String)
    ensures
        r@ == stdin_error(detail@),
{
    let mut out = String::new();
    out.append("rcat: Gagal membaca standard input: ");
    out.append(detail);
    proof {
        assert(out@ =~= stdin_error(detail@));
    }
    out
}

/// The run outcome: whether any source failed.
pub fn run_outcome(failures: &Vec<bool>) -> (r: bool)
    ensures
        r == (exists|k: int| 0 <= k < failures@.len() && failures@[k]),
{
    let mut i: usize = 0;
    let mut any = false;
    while i < failures.len()
        invariant
            i <= failures@.len(),
            any == (exists|k: int| 0 <= k < i && failures@[k]),
        decreases failures@.len() - i,
    {
        if failures[i] {
            any = true;
        }
        proof {
            if failures@[i as int] {
                assert(0 <= i < i + 1 && failures@[i as int]);
            }
        }
        i = i + 1;
    }
    any
}

/// The process exit status: 1 when any source failed, 0 otherwise.
pub fn exit_code(any_error: bool) -> (r: i32)
    ensures
        any_error ==> r == 1,
        !any_error ==> r == 0,
{
    if any_error {
        1
    } else {
        0
    }
}

} // verus!
