//! Styled segments of a line, and their rendering as 24-bit terminal
//! colour escape sequences.
//!
//! A line of text decomposes into an ordered sequence of segments, each a
//! contiguous substring tagged with a foreground and a background colour.
//! Rendering a segment emits a background escape, a foreground escape for
//! the foreground colour alpha-blended over the background, and the text.

use vstd::prelude::*;
use crate::numfmt::dec_digits;

verus! {

/// An RGBA colour, one byte per channel.
#[derive(Clone, Copy, PartialEq, Eq, Structural, Debug)]
pub struct Color {
    pub r: u8,
    pub g: u8,
    pub b: u8,
    pub a: u8,
}

/// A contiguous run of a line sharing one styling: the text of the run and
/// the colours to draw it with.
#[derive(Debug)]
pub struct Segment {
    pub fg: Color,
    pub bg: Color,
    pub text: String,
}

/// One channel of a foreground colour blended over a background channel
/// with alpha `a` (0 transparent, 255 opaque).
pub open spec fn blend_channel(f: int, b: int, a: int) -> int {
    (f * a + b * (255 - a)) / 255
}

/// The effective foreground colour of a segment: an opaque foreground is
/// kept as it is, a translucent one is alpha-blended over the background.
pub open spec fn blended_fg(fg: Color, bg: Color) -> Color {
    if fg.a == 255 {
        fg
    } else {
        Color {
            r: blend_channel(fg.r as int, bg.r as int, fg.a as int) as u8,
            g: blend_channel(fg.g as int, bg.g as int, fg.a as int) as u8,
            b: blend_channel(fg.b as int, bg.b as int, fg.a as int) as u8,
            a: 255,
        }
    }
}

/// The `R;G;B` decimal triple of a colour.
pub open spec fn color_triple(c: Color) -> Seq<char> {
    dec_digits(c.r as int) + ";"@ + dec_digits(c.g as int) + ";"@ + dec_digits(c.b as int)
}

/// The escape sequence selecting a 24-bit background colour.
pub open spec fn bg_escape(c: Color) -> Seq<char> {
    "\u{1b}[48;2;"@ + color_triple(c) + "m"@
}

/// The escape sequence selecting a 24-bit foreground colour.
pub open spec fn fg_escape(c: Color) -> Seq<char> {
    "\u{1b}[38;2;"@ + color_triple(c) + "m"@
}

/// The full rendering of one segment: background escape, blended foreground
/// escape, then the segment's text unchanged.
pub open spec fn escape_seg(s: Segment) -> Seq<char> {
    bg_escape(s.bg) + fg_escape(blended_fg(s.fg, s.bg)) + s.text@
}

/// The renderings of the first `n` segments, concatenated in order.
pub open spec fn escaped_upto(segs: Seq<Segment>, n: int) -> Seq<char>
    decreases n,
{
    if n <= 0 {
        Seq::empty()
    } else {
        escaped_upto(segs, n - 1) + escape_seg(segs[n - 1])
    }
}

/// The rendering of a whole sequence of segments, concatenated in order
/// with no separator.
pub open spec fn escaped_segments(segs: Seq<Segment>) -> Seq<char> {
    escaped_upto(segs, segs.len() as int)
}

/// The text parts of the first `n` segments, concatenated in order.
pub open spec fn texts_upto(segs: Seq<Segment>, n: int) -> Seq<char>
    decreases n,
{
    if n <= 0 {
        Seq::empty()
    } else {
        texts_upto(segs, n - 1) + segs[n - 1].text@
    }
}

/// The text carried by a sequence of segments: the concatenation of the
/// text parts in order, with nothing added or dropped.
pub open spec fn seg_texts(segs: Seq<Segment>) -> Seq<char> {
    texts_upto(segs, segs.len() as int)
}

/// A segment as plain values: the foreground channels, the background
/// channels, and the text.  The rendering of a segment depends on nothing
/// else.
pub open spec fn seg_model(s: Segment) -> ((u8, u8, u8, u8), (u8, u8, u8, u8), Seq<char>) {
    ((s.fg.r, s.fg.g, s.fg.b, s.fg.a), (s.bg.r, s.bg.g, s.bg.b, s.bg.a), s.text@)
}

proof fn lemma_model_upto(a: Seq<Segment>, b: Seq<Segment>, n: int)
    requires
        a.map_values(|s: Segment| seg_model(s)) == b.map_values(|s: Segment| seg_model(s)),
        n <= a.len(),
    ensures
        escaped_upto(a, n) == escaped_upto(b, n),
        texts_upto(a, n) == texts_upto(b, n),
    decreases n,
{
    assert(a.map_values(|s: Segment| seg_model(s)).len() == a.len());
    assert(b.map_values(|s: Segment| seg_model(s)).len() == b.len());
    assert(b.len() == a.len());
    if n > 0 {
        lemma_model_upto(a, b, n - 1);
        let x = a[n - 1];
        let y = b[n - 1];
        assert(a.map_values(|s: Segment| seg_model(s))[n - 1] == seg_model(x));
        assert(b.map_values(|s: Segment| seg_model(s))[n - 1] == seg_model(y));
        assert(x.fg.r == y.fg.r && x.fg.g == y.fg.g && x.fg.b == y.fg.b && x.fg.a == y.fg.a);
        assert(x.bg.r == y.bg.r && x.bg.g == y.bg.g && x.bg.b == y.bg.b && x.bg.a == y.bg.a);
        assert(x.fg == y.fg);
        assert(x.bg == y.bg);
        assert(x.text@ == y.text@);
        assert(escape_seg(x) == escape_seg(y));
    }
}

/// Law: the rendering of segments depends only on their model.  Two
/// segment sequences with equal models have equal escape renderings and
/// carry equal texts.
pub proof fn lemma_model_determines_rendering(a: Seq<Segment>, b: Seq<Segment>)
    requires
        a.map_values(|s: Segment| seg_model(s)) == b.map_values(|s: Segment| seg_model(s)),
    ensures
        escaped_segments(a) == escaped_segments(b),
        seg_texts(a) == seg_texts(b),
{
    assert(a.map_values(|s: Segment| seg_model(s)).len() == a.len());
    assert(b.map_values(|s: Segment| seg_model(s)).len() == b.len());
    lemma_model_upto(a, b, a.len() as int);
}

/// Computes the effective foreground colour of a segment.
pub fn blend_fg(fg: Color, bg: Color) -> (r: Color)
    ensures
        r == blended_fg(fg, bg),
{
    if fg.a == 255 {
        fg
    } else {
        let ratio: u32 = fg.a as u32;
        proof {
            assert(fg.r as u32 * ratio + bg.r as u32 * (255 - ratio) <= 255 * 255)
                by (nonlinear_arith)
                requires
                    fg.r <= 255,
                    bg.r <= 255,
                    ratio <= 255,
            ;
            assert(fg.g as u32 * ratio + bg.g as u32 * (255 - ratio) <= 255 * 255)
                by (nonlinear_arith)
                requires
                    fg.g <= 255,
                    bg.g <= 255,
                    ratio <= 255,
            ;
            assert(fg.b as u32 * ratio + bg.b as u32 * (255 - ratio) <= 255 * 255)
                by (nonlinear_arith)
                requires
                    fg.b <= 255,
                    bg.b <= 255,
                    ratio <= 255,
            ;
        }
        let r: u32 = (fg.r as u32 * ratio + bg.r as u32 * (255 - ratio)) / 255;
        let g: u32 = (fg.g as u32 * ratio + bg.g as u32 * (255 - ratio)) / 255;
        let b: u32 = (fg.b as u32 * ratio + bg.b as u32 * (255 - ratio)) / 255;
        Color { r: r as u8, g: g as u8, b: b as u8, a: 255 }
    }
}

/// Appends the `R;G;B` decimal triple of `c` to `out`.
fn append_color_triple(out: &mut String, c: Color)
    ensures
        final(out)@ == old(out)@ + color_triple(c),
{
    crate::numfmt::push_decimal(out, c.r as u64);
    out.append(";");
    crate::numfmt::push_decimal(out, c.g as u64);
    out.append(";");
    crate::numfmt::push_decimal(out, c.b as u64);
    proof {
        assert(out@ =~= old(out)@ + color_triple(c));
    }
}

/// Appends the rendering of one segment to `out`.
fn append_escape_seg(out: &mut String, seg: &Segment)
    ensures
        final(out)@ == old(out)@ + escape_seg(*seg),
{
    out.append("\u{1b}[48;2;");
    append_color_triple(out, seg.bg);
    out.append("m");
    out.append("\u{1b}[38;2;");
    let f = blend_fg(seg.fg, seg.bg);
    append_color_triple(out, f);
    out.append("m");
    out.append(seg.text.as_str());
    proof {
        assert(out@ =~= old(out)@ + escape_seg(*seg));
    }
}

/// Appends the rendering of every segment, in order, to `out`.
pub fn append_escaped(out: &mut String, segs: &Vec<Segment>)
    ensures
        final(out)@ == old(out)@ + escaped_segments(segs@),
{
    let ghost start: Seq<char> = out@;
    let mut i: usize = 0;
    while i < segs.len()
        invariant
            i <= segs@.len(),
            out@ == start + escaped_upto(segs@, i as int),
        decreases segs@.len() - i,
    {
        append_escape_seg(out, &segs[i]);
        i = i + 1;
    }
    proof {
        assert(out@ =~= old(out)@ + escaped_segments(segs@));
    }
}

} // verus!
