//! The trusted boundary around the `syntect` highlighting engine.
//!
//! The syntax catalogue, the theme catalogue, and the per-line tokenizer are
//! consumed as opaque outside values.  Each declaration below is believed,
//! not verified: its contract states only what the `syntect` source and
//! documentation plainly show.  Everything that decides or formats on top of
//! these calls lives in the verified modules.

use vstd::prelude::*;
use syntect::easy::HighlightLines;
use syntect::highlighting::Theme;
use syntect::highlighting::ThemeSet;
use syntect::parsing::SyntaxReference;
use syntect::parsing::SyntaxSet;
use crate::segment::Color;
use crate::segment::Segment;
use crate::segment::seg_model;
use crate::segment::seg_texts;

verus! {

#[verifier::external_type_specification]
#[verifier::external_body]
pub struct ExSyntaxSet(SyntaxSet);

#[verifier::external_type_specification]
#[verifier::external_body]
pub struct ExSyntaxReference(SyntaxReference);

#[verifier::external_type_specification]
#[verifier::external_body]
pub struct ExTheme(Theme);

#[verifier::external_type_specification]
#[verifier::external_body]
pub struct ExThemeSet(ThemeSet);

#[verifier::external_type_specification]
#[verifier::external_body]
pub struct ExHighlightLines<'a>(HighlightLines<'a>);

/// The names of the themes a theme catalogue holds, in its iteration order
/// (the catalogue is an ordered map keyed by name).
pub uninterp spec fn theme_names(ts: ThemeSet) -> Seq<Seq<char>>;

/// Whether a syntax catalogue holds a plain-text grammar.
pub uninterp spec fn has_plain_text(ss: SyntaxSet) -> bool;

/// Whether a syntax catalogue holds a grammar registered for the given
/// file extension.
pub uninterp spec fn has_syntax_for(ss: SyntaxSet, ext: Seq<char>) -> bool;

/// The theme a catalogue stores under the given name (meaningful when the
/// name is one of its keys).
pub uninterp spec fn theme_of(ts: ThemeSet, name: Seq<char>) -> Theme;

/// The plain-text grammar of a syntax catalogue.
pub uninterp spec fn plain_text_of(ss: SyntaxSet) -> SyntaxReference;

/// The grammar a syntax catalogue resolves for the given file extension
/// (meaningful when some grammar of the catalogue registers the extension).
pub uninterp spec fn syntax_for(ss: SyntaxSet, ext: Seq<char>) -> SyntaxReference;

/// The display name of a grammar.
pub uninterp spec fn syntax_name_of(s: SyntaxReference) -> Seq<char>;

/// Whether the tokenizer accepts `line` from the given highlighter state
/// and syntax catalogue.  The verdict is a function of these values alone:
/// the engine is regex matching over the compiled grammar, with no other
/// input.
pub uninterp spec fn tokenize_ok(hl: HighlightLines<'_>, line: Seq<char>, ss: SyntaxSet) -> bool;

/// The styled segments the tokenizer yields for `line` from the given
/// highlighter state and syntax catalogue, as plain values: the foreground
/// channels, the background channels, and the text of each segment.
pub uninterp spec fn tokenize_segs(hl: HighlightLines<'_>, line: Seq<char>, ss: SyntaxSet) -> Seq<
    ((u8, u8, u8, u8), (u8, u8, u8, u8), Seq<char>),
>;

/// The highlighter state left behind when the tokenizer accepts `line`
/// from the given state and syntax catalogue.
pub uninterp spec fn tokenize_next(hl: HighlightLines<'_>, line: Seq<char>, ss: SyntaxSet) -> HighlightLines<'_>;

/// The fresh highlighter state for one grammar and one theme.
pub uninterp spec fn fresh_highlighter(syntax: SyntaxReference, theme: &Theme) -> HighlightLines<'_>;

/// Relies on `syntect::highlighting::ThemeSet::load_defaults`: it loads the
/// compiled-in theme catalogue, whose documented keys include
/// `base16-ocean.dark`.
#[verifier::external_body]
fn load_theme_set() -> (r: ThemeSet)
    ensures
        theme_names(r).contains("base16-ocean.dark"@),
{
    ThemeSet::load_defaults()
}

/// Relies on `syntect::parsing::SyntaxSet::load_defaults_newlines`: it loads
/// the compiled-in syntax catalogue, which includes a plain-text grammar and
/// registers the `py` extension (its own examples look `py` up in this set
/// and unwrap the result).
#[verifier::external_body]
fn load_syntax_set() -> (r: SyntaxSet)
    ensures
        has_plain_text(r),
        has_syntax_for(r, "py"@),
{
    SyntaxSet::load_defaults_newlines()
}

/// Relies on `std::collections::BTreeMap::keys` over the theme catalogue's
/// map: the keys, cloned, in the map's iteration order.
#[verifier::external_body]
fn theme_name_vec(ts: &ThemeSet) -> (r: Vec<String>)
    ensures
        r@.len() == theme_names(*ts).len(),
        forall|i: int| 0 <= i < r@.len() ==> r@[i]@ == theme_names(*ts)[i],
{
    ts.themes.keys().cloned().collect()
}

/// Relies on `std::collections::BTreeMap::get` over the theme catalogue's
/// map: the lookup succeeds exactly when the name is one of its keys, and
/// then returns the theme stored under that name.
#[verifier::external_body]
pub(crate) fn theme_lookup<'a>(ts: &'a ThemeSet, name: &str) -> (r: Option<&'a Theme>)
    ensures
        r is Some <==> theme_names(*ts).contains(name@),
        r matches Some(t) ==> *t == theme_of(*ts, name@),
{
    ts.themes.get(name)
}

/// Relies on `std::collections::BTreeMap::values` over the theme catalogue's
/// map: a first value exists exactly when the map is not empty, and it is
/// the theme stored under the first key in iteration order.
#[verifier::external_body]
pub(crate) fn first_theme<'a>(ts: &'a ThemeSet) -> (r: Option<&'a Theme>)
    ensures
        r is Some <==> theme_names(*ts).len() > 0,
        r matches Some(t) ==> *t == theme_of(*ts, theme_names(*ts)[0]),
{
    ts.themes.values().next()
}

/// Relies on `syntect::parsing::SyntaxSet::find_syntax_by_extension`: the
/// lookup succeeds exactly when some grammar of the catalogue is registered
/// for the extension, and which grammar it returns is a function of the
/// catalogue and the extension (a deterministic search over the set).
#[verifier::external_body]
pub(crate) fn syntax_for_extension<'a>(ss: &'a SyntaxSet, ext: &str) -> (r: Option<
    &'a SyntaxReference,
>)
    ensures
        r is Some <==> has_syntax_for(*ss, ext@),
        r matches Some(s) ==> *s == syntax_for(*ss, ext@),
{
    ss.find_syntax_by_extension(ext)
}

/// Relies on `syntect::parsing::SyntaxSet::find_syntax_plain_text`: it
/// returns the catalogue's plain-text grammar, and panics only when the
/// catalogue holds none.
#[verifier::external_body]
pub(crate) fn plain_text_syntax<'a>(ss: &'a SyntaxSet) -> (r: &'a SyntaxReference)
    requires
        has_plain_text(*ss),
    ensures
        *r == plain_text_of(*ss),
{
    ss.find_syntax_plain_text()
}

/// Relies on the public `name` field of
/// `syntect::parsing::SyntaxReference`: the grammar's display name, a
/// function of the grammar value.
#[verifier::external_body]
fn syntax_name(s: &SyntaxReference) -> (r: String)
    ensures
        r@ == syntax_name_of(*s),
{
    s.name.clone()
}

/// Relies on `syntect::easy::HighlightLines::new`: a fresh per-source
/// highlighter for one grammar and one theme, built from those two values
/// alone.
#[verifier::external_body]
pub(crate) fn new_highlighter<'a>(syntax: &SyntaxReference, theme: &'a Theme) -> (r:
    HighlightLines<'a>)
    ensures
        r == fresh_highlighter(*syntax, theme),
{
    HighlightLines::new(syntax, theme)
}

/// Relies on `syntect::easy::HighlightLines::highlight_line`: its verdict,
/// its segments and the state it leaves are functions of the highlighter
/// state, the line and the syntax catalogue alone (pure regex matching,
/// no other input); on success it returns styled substrings of the line
/// whose concatenation, in order, is the original line exactly (documented
/// on `HighlightIterator::next`).
#[verifier::external_body]
pub(crate) fn highlight_line_segments<'a>(
    hl: &mut HighlightLines<'a>,
    line: &str,
    ss: &SyntaxSet,
) -> (r: Result<Vec<Segment>, String>)
    ensures
        r is Ok <==> tokenize_ok(*old(hl), line@, *ss),
        r matches Ok(segs) ==> seg_texts(segs@) == line@,
        r matches Ok(segs) ==> segs@.map_values(|s: Segment| seg_model(s)) == tokenize_segs(
            *old(hl),
            line@,
            *ss,
        ),
        r is Ok ==> *final(hl) == tokenize_next(*old(hl), line@, *ss),
{
    match hl.highlight_line(line, ss) {
        Ok(v) => Ok(v.into_iter().map(|(st, t)| Segment {
            fg: Color { r: st.foreground.r, g: st.foreground.g, b: st.foreground.b, a: st.foreground.a },
            bg: Color { r: st.background.r, g: st.background.g, b: st.background.b, a: st.background.a },
            text: t.to_string(),
        }).collect()),
        Err(e) => Err(format!("{}", e)),
    }
}

/// Loads the compiled-in syntax catalogue.
pub fn load_syntaxes() -> (r: SyntaxSet)
    ensures
        has_plain_text(r),
{
    load_syntax_set()
}

/// Loads the compiled-in theme catalogue; it holds the default theme.
pub fn load_themes() -> (r: ThemeSet)
    ensures
        theme_names(r).contains("base16-ocean.dark"@),
{
    load_theme_set()
}

/// The names of every theme the catalogue holds, in catalogue order.
pub fn theme_name_list(ts: &ThemeSet) -> (r: Vec<String>)
    ensures
        r@.len() == theme_names(*ts).len(),
        forall|i: int| 0 <= i < r@.len() ==> r@[i]@ == theme_names(*ts)[i],
{
    theme_name_vec(ts)
}

/// The display name of a grammar.
pub fn grammar_name(s: &SyntaxReference) -> (r: String)
    ensures
        r@ == syntax_name_of(*s),
{
    syntax_name(s)
}

} // verus!
