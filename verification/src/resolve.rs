//! Resolving a grammar from a file name and a theme from a requested name.
//!
//! The extension of a path is computed here and verified exactly; the
//! catalogue lookups behind it are trusted declarations in `catalog`.
//! Theme resolution never fails: an unknown name falls back to the default
//! theme (or, were even that absent, to the first theme of the catalogue)
//! and reports the single warning to emit for the run.

use vstd::prelude::*;
use syntect::highlighting::Theme;
use syntect::highlighting::ThemeSet;
use syntect::parsing::SyntaxReference;
use syntect::parsing::SyntaxSet;
use crate::catalog::first_theme;
use crate::catalog::has_plain_text;
use crate::catalog::has_syntax_for;
use crate::catalog::plain_text_of;
use crate::catalog::plain_text_syntax;
use crate::catalog::syntax_for;
use crate::catalog::syntax_for_extension;
use crate::catalog::theme_lookup;
use crate::catalog::theme_names;
use crate::catalog::theme_of;

verus! {

/// The suffix of `s` strictly after the last occurrence of `c`; `s` itself
/// when `c` does not occur in it.
pub open spec fn after_last(s: Seq<char>, c: char) -> Seq<char>
    decreases s.len(),
{
    if s.len() == 0 {
        s
    } else if s.last() == c {
        Seq::empty()
    } else {
        after_last(s.drop_last(), c).push(s.last())
    }
}

/// The file-name part of a path: what follows the last path separator.
pub open spec fn file_name_of(path: Seq<char>) -> Seq<char> {
    after_last(path, '/')
}

/// Whether a file name carries an extension: a dot strictly after its
/// first character (a lone leading dot names a hidden file, not an
/// extension).
pub open spec fn name_has_extension(f: Seq<char>) -> bool {
    exists|i: int| 1 <= i < f.len() && f[i] == '.'
}

/// The extension of a path: what follows the last dot of its file name,
/// when that dot stands after the name's first character.
pub open spec fn extension_of(path: Seq<char>) -> Option<Seq<char>> {
    if name_has_extension(file_name_of(path)) {
        Some(after_last(file_name_of(path), '.'))
    } else {
        None
    }
}

/// The start of the suffix of `s[lo..hi]` that follows the last `c` in it
/// (`lo` itself when `c` does not occur there).
fn suffix_after(s: &str, c: char, lo: usize, hi: usize) -> (r: usize)
    requires
        lo <= hi <= s@.len(),
    ensures
        lo <= r <= hi,
        after_last(s@.subrange(lo as int, hi as int), c) == s@.subrange(r as int, hi as int),
        r > lo ==> s@[r - 1] == c,
        forall|k: int| r <= k < hi ==> s@[k] != c,
    decreases hi - lo,
{
    if hi == lo {
        proof {
            assert(after_last(s@.subrange(lo as int, hi as int), c) =~= s@.subrange(
                lo as int,
                hi as int,
            ));
        }
        lo
    } else {
        let ch = s.get_char(hi - 1);
        let ghost sub = s@.subrange(lo as int, hi as int);
        if ch == c {
            proof {
                assert(sub.last() == c);
                assert(after_last(sub, c) =~= s@.subrange(hi as int, hi as int));
            }
            hi
        } else {
            let r = suffix_after(s, c, lo, hi - 1);
            proof {
                assert(sub.last() == s@[hi - 1]);
                assert(sub.drop_last() =~= s@.subrange(lo as int, hi - 1));
                assert(after_last(sub, c) =~= s@.subrange(r as int, hi as int));
            }
            r
        }
    }
}

/// Computes the extension of a path, exactly as `extension_of` states it.
pub fn extension_of_path(path: &str) -> (r: Option<String>)
    ensures
        r is Some <==> extension_of(path@) is Some,
        r matches Some(e) ==> extension_of(path@) == Some(e@),
{
    let n = path.unicode_len();
    let fstart = suffix_after(path, '/', 0, n);
    let dstart = suffix_after(path, '.', fstart, n);
    proof {
        assert(path@.subrange(0, n as int) =~= path@);
        assert(file_name_of(path@) == path@.subrange(fstart as int, n as int));
    }
    let ghost f = file_name_of(path@);
    if dstart - fstart >= 2 {
        proof {
            assert(f[dstart - 1 - fstart] == path@[dstart - 1]);
            assert(1 <= dstart - 1 - fstart < f.len() && f[dstart - 1 - fstart] == '.');
            assert(name_has_extension(f));
        }
        let e = path.substring_char(dstart, n);
        let es = e.to_owned();
        Some(es)
    } else {
        proof {
            assert forall|i: int| 1 <= i < f.len() implies f[i] != '.' by {
                assert(f[i] == path@[fstart + i]);
                assert(fstart + i >= dstart);
            }
            assert(!name_has_extension(f));
        }
        None
    }
}

/// The extension a source path offers to the grammar catalogue: the path's
/// extension, or the empty string when it has none.
pub open spec fn lookup_ext(path: Seq<char>) -> Seq<char> {
    match extension_of(path) {
        Some(e) => e,
        None => Seq::empty(),
    }
}

/// Resolves the grammar for one source.  A path's extension is looked up
/// in the catalogue; a miss, a path without an extension, and standard
/// input (no path) all silently fall back to the plain-text grammar.  The
/// returned flag says whether an extension match decided the grammar.
pub fn resolve_syntax<'a>(ss: &'a SyntaxSet, path: Option<&str>) -> (r: (
    &'a SyntaxReference,
    bool,
))
    requires
        has_plain_text(*ss),
    ensures
        match path {
            Some(p) => {
                &&& r.1 == has_syntax_for(*ss, lookup_ext(p@))
                &&& (has_syntax_for(*ss, lookup_ext(p@)) ==> *r.0 == syntax_for(
                    *ss,
                    lookup_ext(p@),
                ))
                &&& (!has_syntax_for(*ss, lookup_ext(p@)) ==> *r.0 == plain_text_of(*ss))
            },
            None => r.1 == false && *r.0 == plain_text_of(*ss),
        },
{
    match path {
        Some(p) => {
            let ext_opt = extension_of_path(p);
            let ext: String = match ext_opt {
                Some(e) => e,
                None => String::new(),
            };
            proof {
                assert(ext@ =~= lookup_ext(p@));
            }
            match syntax_for_extension(ss, ext.as_str()) {
                Some(s) => (s, true),
                None => (plain_text_syntax(ss), false),
            }
        },
        None => (plain_text_syntax(ss), false),
    }
}

/// The single warning line emitted when the requested theme is unknown,
/// naming the missing theme and the fallback used.
pub open spec fn theme_warning(name: Seq<char>) -> Seq<char> {
    "rcat: Peringatan: Tema '"@ + name
        + "' tidak ditemukan. Menggunakan default 'base16-ocean.dark'."@
}

/// Formats the unknown-theme warning for one requested name.
pub fn theme_warning_line(name: &str) -> (r: String)
    ensures
        r@ == theme_warning(name@),
{
    let mut w = String::new();
    w.append("rcat: Peringatan: Tema '");
    w.append(name);
    w.append("' tidak ditemukan. Menggunakan default 'base16-ocean.dark'.");
    proof {
        assert(w@ =~= theme_warning(name@));
    }
    w
}

/// Resolves the theme for the whole run.  A known name is used as it is
/// and no warning is due; an unknown name falls back to the default theme
/// (or to the catalogue's first theme were the default itself absent) and
/// the one warning line to emit is returned beside it.
pub fn resolve_theme<'a>(ts: &'a ThemeSet, requested: &str) -> (r: (&'a Theme, Option<String>))
    requires
        theme_names(*ts).len() > 0,
    ensures
        r.1 is Some <==> !theme_names(*ts).contains(requested@),
        r.1 matches Some(w) ==> w@ == theme_warning(requested@),
        theme_names(*ts).contains(requested@) ==> *r.0 == theme_of(*ts, requested@),
        !theme_names(*ts).contains(requested@) ==> *r.0 == (if theme_names(*ts).contains(
            "base16-ocean.dark"@,
        ) {
            theme_of(*ts, "base16-ocean.dark"@)
        } else {
            theme_of(*ts, theme_names(*ts)[0])
        }),
{
    match theme_lookup(ts, requested) {
        Some(t) => (t, None),
        None => {
            let w = theme_warning_line(requested);
            match theme_lookup(ts, "base16-ocean.dark") {
                Some(t) => (t, Some(w)),
                None => match first_theme(ts) {
                    Some(t) => (t, Some(w)),
                    None => unreached(),
                },
            }
        },
    }
}

/// The lines of the theme-list output after the header: one `- name` line
/// per theme, for the first `n` names in catalogue order.
pub open spec fn theme_list_entries(names: Seq<Seq<char>>, n: int) -> Seq<char>
    decreases n,
{
    if n <= 0 {
        Seq::empty()
    } else {
        theme_list_entries(names, n - 1) + "- "@ + names[n - 1] + "\n"@
    }
}

/// The full theme-list output: a header line, then one `- name` line per
/// theme in catalogue order.
pub open spec fn theme_list_output(names: Seq<Seq<char>>) -> Seq<char> {
    "Tema yang tersedia:\n"@ + theme_list_entries(names, names.len() as int)
}

/// Formats the `--list-themes` output for the given theme names.
pub fn format_theme_list(names: &Vec<String>) -> (r: String)
    ensures
        r@ == theme_list_output(names@.map_values(|s: String| s@)),
{
    let mut out = String::new();
    out.append("Tema yang tersedia:\n");
    let mut i: usize = 0;
    while i < names.len()
        invariant
            i <= names@.len(),
            out@ == "Tema yang tersedia:\n"@ + theme_list_entries(
                names@.map_values(|s: String| s@),
                i as int,
            ),
        decreases names@.len() - i,
    {
        out.append("- ");
        out.append(names[i].as_str());
        out.append("\n");
        i = i + 1;
        proof {
            assert(out@ =~= "Tema yang tersedia:\n"@ + theme_list_entries(
                names@.map_values(|s: String| s@),
                i as int,
            ));
        }
    }
    out
}

} // verus!
