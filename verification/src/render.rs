//! The per-source line renderer.
//!
//! One `SourceRenderer` exists per input source.  It threads the
//! highlighter's per-source state through successive lines, keeps the
//! 1-based line counter, and turns each raw line into one output line:
//! an optional right-aligned number prefix, the line's styled segments as
//! colour escape sequences, and exactly one line terminator.

use vstd::prelude::*;
use syntect::easy::HighlightLines;
use syntect::highlighting::Theme;
use syntect::parsing::SyntaxReference;
use syntect::parsing::SyntaxSet;
use crate::catalog::fresh_highlighter;
use crate::catalog::highlight_line_segments;
use crate::catalog::new_highlighter;
use crate::catalog::tokenize_next;
use crate::catalog::tokenize_ok;
use crate::catalog::tokenize_segs;
use crate::numfmt::num_prefix;
use crate::segment::Segment;
use crate::segment::escaped_segments;
use crate::segment::seg_model;
use crate::segment::seg_texts;

verus! {

/// The rendering of one line: the number prefix when a line number is
/// given, then the escaped segments, then exactly one newline.
pub open spec fn rendered_line(segs: Seq<Segment>, num: Option<int>) -> Seq<char> {
    (match num {
        Some(n) => num_prefix(n),
        None => Seq::empty(),
    }) + escaped_segments(segs) + seq!['\n']
}

/// One rendered output line, together with the styled segments it was
/// rendered from.
pub struct RenderedLine {
    pub output: String,
    pub segments: Vec<Segment>,
}

/// The per-source rendering state: the highlighter with its carry-over
/// context, the numbering flag, and the 1-based line counter.
pub struct SourceRenderer<'a> {
    pub hl: HighlightLines<'a>,
    pub number: bool,
    pub line_num: u64,
    pub emitted: Ghost<Seq<u64>>,
}

impl<'a> SourceRenderer<'a> {
    /// The renderer's invariant: the counter is one past the lines already
    /// rendered, and the numbers used so far were 1, 2, 3, ... in order.
    pub open spec fn wf(self) -> bool {
        &&& self.line_num == self.emitted@.len() + 1
        &&& forall|i: int| 0 <= i < self.emitted@.len() ==> self.emitted@[i] == i + 1
    }

    /// A fresh renderer for one source: counter at 1, nothing rendered yet,
    /// the highlighter in the fresh state for the grammar and theme.
    pub fn new(syntax: &SyntaxReference, theme: &'a Theme, number: bool) -> (r: SourceRenderer<'a>)
        ensures
            r.wf(),
            r.number == number,
            r.line_num == 1,
            r.emitted@ == Seq::<u64>::empty(),
            r.hl == fresh_highlighter(*syntax, theme),
    {
        SourceRenderer {
            hl: new_highlighter(syntax, theme),
            number,
            line_num: 1,
            emitted: Ghost(Seq::empty()),
        }
    }

    /// Renders one raw line (without its terminator).  The call succeeds
    /// exactly when the tokenizer accepts the line from the current
    /// highlighter state.  On success the output is the number prefix
    /// (when numbering is on) followed by the escape rendering of segments
    /// whose texts concatenate to the line exactly, followed by one
    /// newline; the segments carry the tokenizer's model for this state
    /// and line, the state advances deterministically, and the counter
    /// advances by one.  On a tokenizer failure nothing is emitted and the
    /// counter stands.
    pub fn render_next(&mut self, ss: &SyntaxSet, line: &str) -> (r: Result<RenderedLine, String>)
        requires
            old(self).wf(),
            old(self).line_num < u64::MAX,
        ensures
            final(self).wf(),
            final(self).number == old(self).number,
            r is Ok <==> tokenize_ok(old(self).hl, line@, *ss),
            r is Ok ==> final(self).hl == tokenize_next(old(self).hl, line@, *ss),
            r matches Ok(out) ==> out.segments@.map_values(|s: Segment| seg_model(s))
                == tokenize_segs(old(self).hl, line@, *ss),
            r matches Ok(out) ==> {
                &&& final(self).line_num == old(self).line_num + 1
                &&& final(self).emitted@ == old(self).emitted@.push(old(self).line_num)
                &&& seg_texts(out.segments@) == line@
                &&& out.output@ == rendered_line(
                    out.segments@,
                    if old(self).number {
                        Some(old(self).line_num as int)
                    } else {
                        None
                    },
                )
            },
            r is Err ==> final(self).line_num == old(self).line_num && final(self).emitted@ == old(
                self,
            ).emitted@,
    {
        let segs = match highlight_line_segments(&mut self.hl, line, ss) {
            Ok(s) => s,
            Err(e) => { return Err(e); },
        };
        let mut out: String;
        if self.number {
            out = crate::numfmt::format_line_number(self.line_num);
        } else {
            out = String::new();
        }
        crate::segment::append_escaped(&mut out, &segs);
        out.append("\n");
        proof {
            reveal_strlit("\n");
            if old(self).number {
                assert(out@ =~= rendered_line(segs@, Some(old(self).line_num as int)));
            } else {
                assert(out@ =~= rendered_line(segs@, None));
            }
        }
        proof {
            self.emitted@ = self.emitted@.push(self.line_num);
        }
        self.line_num = self.line_num + 1;
        Ok(RenderedLine { output: out, segments: segs })
    }
}

/// The line number a stream gives its `i`-th line (0-based `i`), when
/// numbering is on.
pub open spec fn stream_number(number_lines: bool, i: int) -> Option<int> {
    if number_lines {
        Some(i + 1)
    } else {
        None
    }
}

/// Whether `out` is a rendering of `line` under the given numbering: some
/// segmentation of exactly `line` exists whose escape rendering, with that
/// number prefix, is `out`.
pub open spec fn is_rendering_of(out: Seq<char>, line: Seq<char>, num: Option<int>) -> bool {
    exists|segs: Seq<Segment>|
        seg_texts(segs) == line && out == rendered_line(segs, num)
}

/// The views of a vector of lines.
pub open spec fn line_views(lines: Seq<String>) -> Seq<Seq<char>> {
    lines.map_values(|l: String| l@)
}

/// The highlighter state a source reaches after its first `n` lines,
/// starting from the fresh state for its grammar and theme.
pub open spec fn source_state<'a>(
    syntax: SyntaxReference,
    theme: &'a Theme,
    lines: Seq<Seq<char>>,
    n: int,
    ss: SyntaxSet,
) -> HighlightLines<'a>
    decreases n,
{
    if n <= 0 {
        fresh_highlighter(syntax, theme)
    } else {
        tokenize_next(source_state(syntax, theme, lines, n - 1, ss), lines[n - 1], ss)
    }
}

/// Whether the tokenizer accepts every line of a source in order, each
/// from the state its predecessors left.
pub open spec fn source_ok<'a>(
    syntax: SyntaxReference,
    theme: &'a Theme,
    lines: Seq<Seq<char>>,
    ss: SyntaxSet,
) -> bool {
    forall|i: int|
        0 <= i < lines.len() ==> #[trigger] tokenize_ok(
            source_state(syntax, theme, lines, i, ss),
            lines[i],
            ss,
        )
}

/// Whether `out` is the rendering, under the given numbering, of segments
/// carrying exactly the given model.
pub open spec fn rendering_matches(
    out: Seq<char>,
    model: Seq<((u8, u8, u8, u8), (u8, u8, u8, u8), Seq<char>)>,
    num: Option<int>,
) -> bool {
    exists|segs: Seq<Segment>|
        segs.map_values(|s: Segment| seg_model(s)) == model && out == rendered_line(segs, num)
}

/// Renders one whole source: a fresh highlighter and a fresh counter, then
/// every line in order.  The call succeeds exactly when the tokenizer
/// accepts every line, each from the state its predecessors left behind
/// the fresh state for this grammar and theme.  On success the `i`-th
/// output is a rendering of the `i`-th input line numbered `i + 1` (or
/// unnumbered) (so the number prefixes of a source are exactly 1, 2, 3,
/// ... from its first line) and it renders exactly the segment model the
/// tokenizer yields at that point.  A tokenizer failure aborts the
/// remaining lines of the source.
pub fn render_stream<'a>(
    syntax: &SyntaxReference,
    theme: &'a Theme,
    ss: &SyntaxSet,
    lines: &Vec<String>,
    number_lines: bool,
) -> (r: Result<Vec<String>, String>)
    requires
        lines@.len() < u64::MAX,
    ensures
        r is Ok <==> source_ok(*syntax, theme, line_views(lines@), *ss),
        r matches Ok(outs) ==> {
            &&& outs@.len() == lines@.len()
            &&& forall|i: int|
                0 <= i < lines@.len() ==> #[trigger] is_rendering_of(
                    outs@[i]@,
                    lines@[i]@,
                    stream_number(number_lines, i),
                )
            &&& forall|i: int|
                0 <= i < lines@.len() ==> #[trigger] rendering_matches(
                    outs@[i]@,
                    tokenize_segs(
                        source_state(*syntax, theme, line_views(lines@), i, *ss),
                        line_views(lines@)[i],
                        *ss,
                    ),
                    stream_number(number_lines, i),
                )
        },
{
    let mut renderer = SourceRenderer::new(syntax, theme, number_lines);
    let mut outs: Vec<String> = Vec::new();
    let mut k: usize = 0;
    let ghost lv = line_views(lines@);
    while k < lines.len()
        invariant
            k <= lines@.len(),
            lines@.len() < u64::MAX,
            lv == line_views(lines@),
            renderer.wf(),
            renderer.number == number_lines,
            renderer.line_num == k + 1,
            renderer.hl == source_state(*syntax, theme, lv, k as int, *ss),
            outs@.len() == k,
            forall|i: int|
                0 <= i < k ==> #[trigger] tokenize_ok(
                    source_state(*syntax, theme, lv, i, *ss),
                    lv[i],
                    *ss,
                ),
            forall|i: int|
                0 <= i < k ==> #[trigger] is_rendering_of(
                    outs@[i]@,
                    lines@[i]@,
                    stream_number(number_lines, i),
                ),
            forall|i: int|
                0 <= i < k ==> #[trigger] rendering_matches(
                    outs@[i]@,
                    tokenize_segs(source_state(*syntax, theme, lv, i, *ss), lv[i], *ss),
                    stream_number(number_lines, i),
                ),
        decreases lines@.len() - k,
    {
        let ghost pre = renderer;
        let rl = match renderer.render_next(ss, lines[k].as_str()) {
            Ok(rl) => rl,
            Err(e) => {
                proof {
                    assert(lv[k as int] == lines@[k as int]@);
                    assert(!tokenize_ok(
                        source_state(*syntax, theme, lv, k as int, *ss),
                        lv[k as int],
                        *ss,
                    ));
                    assert(!source_ok(*syntax, theme, lv, *ss));
                }
                return Err(e);
            },
        };
        proof {
            assert(lv[k as int] == lines@[k as int]@);
            assert(tokenize_ok(source_state(*syntax, theme, lv, k as int, *ss), lv[k as int], *ss));
            assert(seg_texts(rl.segments@) == lines@[k as int]@);
            assert(rl.output@ == rendered_line(rl.segments@, stream_number(number_lines, k as int)));
            assert(is_rendering_of(rl.output@, lines@[k as int]@, stream_number(
                number_lines,
                k as int,
            )));
            assert(rl.segments@.map_values(|s: Segment| seg_model(s)) == tokenize_segs(
                source_state(*syntax, theme, lv, k as int, *ss),
                lv[k as int],
                *ss,
            ));
            assert(rendering_matches(
                rl.output@,
                tokenize_segs(source_state(*syntax, theme, lv, k as int, *ss), lv[k as int], *ss),
                stream_number(number_lines, k as int),
            ));
            assert(renderer.hl == source_state(*syntax, theme, lv, k as int + 1, *ss));
        }
        outs.push(rl.output);
        k = k + 1;
    }
    proof {
        assert(source_ok(*syntax, theme, lv, *ss));
    }
    Ok(outs)
}

/// Law: rendering is deterministic.  The tokenizer's verdict, segments and
/// state transitions are functions of the highlighter state, the line and
/// the catalogue alone, and any two output lines that render one segment
/// model under one numbering are byte-identical; so two runs over the
/// same grammar, theme and lines agree line by line.
pub proof fn lemma_rendering_deterministic(
    out1: Seq<char>,
    out2: Seq<char>,
    model: Seq<((u8, u8, u8, u8), (u8, u8, u8, u8), Seq<char>)>,
    num: Option<int>,
)
    requires
        rendering_matches(out1, model, num),
        rendering_matches(out2, model, num),
    ensures
        out1 == out2,
{
    let segs1 = choose|segs: Seq<Segment>|
        segs.map_values(|s: Segment| seg_model(s)) == model && out1 == rendered_line(segs, num);
    let segs2 = choose|segs: Seq<Segment>|
        segs.map_values(|s: Segment| seg_model(s)) == model && out2 == rendered_line(segs, num);
    crate::segment::lemma_model_determines_rendering(segs1, segs2);
    assert(rendered_line(segs1, num) == rendered_line(segs2, num));
}

/// Law: the line numbers a well-formed renderer has used are a strictly
/// increasing sequence, and the first of them is 1.
pub proof fn lemma_line_numbers_increase<'a>(r: SourceRenderer<'a>)
    requires
        r.wf(),
    ensures
        forall|i: int, j: int| 0 <= i < j < r.emitted@.len() ==> r.emitted@[i] < r.emitted@[j],
        r.emitted@.len() > 0 ==> r.emitted@[0] == 1,
{
}

/// Law: a line rendered without a number carries no prefix at all: it is
/// exactly the escaped segments followed by one newline; and the numbered
/// rendering of the same segments is exactly the number prefix put before
/// that unnumbered rendering.
pub proof fn lemma_prefix_structure(segs: Seq<Segment>, n: int)
    ensures
        rendered_line(segs, None) == escaped_segments(segs) + seq!['\n'],
        rendered_line(segs, Some(n)) == num_prefix(n) + rendered_line(segs, None),
{
    assert(rendered_line(segs, None) =~= escaped_segments(segs) + seq!['\n']);
    assert(rendered_line(segs, Some(n)) =~= num_prefix(n) + rendered_line(segs, None));
}

} // verus!
