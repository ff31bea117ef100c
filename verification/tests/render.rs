//! Tests of the per-line renderer: content preservation, numbering,
//! unnumbered output, and run-to-run stability.

use rcat::catalog::{grammar_name, load_syntaxes, load_themes};
use rcat::numfmt::format_line_number;
use rcat::render::SourceRenderer;
use rcat::resolve::{resolve_syntax, resolve_theme};
use syntect::highlighting::{Color, FontStyle, Style};
use syntect::util::as_24_bit_terminal_escaped;

#[test]
fn line_number_prefix_is_right_aligned_width_six() {
    assert_eq!(format_line_number(3), "     3\t");
    assert_eq!(format_line_number(42), "    42\t");
    assert_eq!(format_line_number(999999), "999999\t");
    assert_eq!(format_line_number(1234567), "1234567\t");
}

#[test]
fn segments_reconstruct_the_line_exactly() {
    let ss = load_syntaxes();
    let ts = load_themes();
    let (theme, warning) = resolve_theme(&ts, "base16-ocean.dark");
    assert!(warning.is_none());
    let (syntax, matched) = resolve_syntax(&ss, Some("a.py"));
    assert!(matched);
    let mut r = SourceRenderer::new(syntax, theme, false);
    let line = "def f(x):  # greet the world";
    let rendered = r.render_next(&ss, line).expect("tokenizer failed");
    let joined: String = rendered
        .segments
        .iter()
        .map(|s| s.text.as_str())
        .collect::<Vec<&str>>()
        .concat();
    assert_eq!(joined, line);
}

#[test]
fn numbered_lines_count_up_from_one() {
    let ss = load_syntaxes();
    let ts = load_themes();
    let (theme, _) = resolve_theme(&ts, "base16-ocean.dark");
    let (syntax, _) = resolve_syntax(&ss, None);
    let mut r = SourceRenderer::new(syntax, theme, true);
    let out1 = r.render_next(&ss, "alpha").unwrap().output;
    let out2 = r.render_next(&ss, "beta").unwrap().output;
    let out3 = r.render_next(&ss, "gamma").unwrap().output;
    assert!(out1.starts_with("     1\t"));
    assert!(out2.starts_with("     2\t"));
    assert!(out3.starts_with("     3\t"));
    assert_eq!(r.line_num, 4);
}

#[test]
fn counter_restarts_for_a_new_source() {
    let ss = load_syntaxes();
    let ts = load_themes();
    let (theme, _) = resolve_theme(&ts, "base16-ocean.dark");
    let (syntax, _) = resolve_syntax(&ss, None);
    let mut first = SourceRenderer::new(syntax, theme, true);
    first.render_next(&ss, "one").unwrap();
    first.render_next(&ss, "two").unwrap();
    let mut second = SourceRenderer::new(syntax, theme, true);
    let out = second.render_next(&ss, "fresh").unwrap().output;
    assert!(out.starts_with("     1\t"));
}

#[test]
fn unnumbered_output_has_no_prefix_and_no_tab() {
    let ss = load_syntaxes();
    let ts = load_themes();
    let (theme, _) = resolve_theme(&ts, "base16-ocean.dark");
    let (syntax, _) = resolve_syntax(&ss, None);
    let mut r = SourceRenderer::new(syntax, theme, false);
    let out = r.render_next(&ss, "hello").unwrap().output;
    assert!(!out.contains('\t'));
    assert!(out.starts_with('\u{1b}'));
    assert!(out.ends_with("hello\n"));
}

#[test]
fn stdin_style_plain_line_renders_once_with_terminator() {
    let ss = load_syntaxes();
    let ts = load_themes();
    let (theme, _) = resolve_theme(&ts, "base16-ocean.dark");
    let (syntax, matched) = resolve_syntax(&ss, None);
    assert!(!matched);
    assert_eq!(grammar_name(syntax), "Plain Text");
    let mut r = SourceRenderer::new(syntax, theme, false);
    let out = r.render_next(&ss, "hello").unwrap().output;
    assert!(out.ends_with("hello\n"));
    assert_eq!(out.matches('\n').count(), 1);
}

#[test]
fn two_runs_over_the_same_lines_are_byte_identical() {
    let ss = load_syntaxes();
    let ts = load_themes();
    let (theme, _) = resolve_theme(&ts, "base16-ocean.dark");
    let lines = ["use std::io;", "", "fn main() {", "    let x = 1;", "}"];
    let mut outputs: Vec<String> = Vec::new();
    for _ in 0..2 {
        let (syntax, matched) = resolve_syntax(&ss, Some("main.rs"));
        assert!(matched);
        let mut r = SourceRenderer::new(syntax, theme, true);
        let mut whole = String::new();
        for line in lines.iter() {
            whole.push_str(&r.render_next(&ss, line).unwrap().output);
        }
        outputs.push(whole);
    }
    assert_eq!(outputs[0], outputs[1]);
}

#[test]
fn multi_line_construct_carries_state_across_lines() {
    let ss = load_syntaxes();
    let ts = load_themes();
    let (theme, _) = resolve_theme(&ts, "base16-ocean.dark");
    let (syntax, _) = resolve_syntax(&ss, Some("a.rs"));
    let mut r = SourceRenderer::new(syntax, theme, false);
    let first = r.render_next(&ss, "/* open comment").unwrap();
    let second = r.render_next(&ss, "still inside */ let x = 1;").unwrap();
    let join = |segs: &[rcat::segment::Segment]| -> String {
        segs.iter().map(|s| s.text.as_str()).collect::<Vec<&str>>().concat()
    };
    assert_eq!(join(&first.segments), "/* open comment");
    assert_eq!(join(&second.segments), "still inside */ let x = 1;");
}

#[test]
fn zero_and_boundary_line_numbers_format_exactly() {
    assert_eq!(format_line_number(0), "     0\t");
    assert_eq!(format_line_number(100000), "100000\t");
    assert_eq!(format_line_number(u64::MAX), "18446744073709551615\t");
}

#[test]
fn escape_encoding_matches_the_terminal_escape_reference() {
    let ss = load_syntaxes();
    let ts = load_themes();
    let (theme, _) = resolve_theme(&ts, "base16-ocean.dark");
    let (syntax, _) = resolve_syntax(&ss, Some("a.py"));
    let mut r = SourceRenderer::new(syntax, theme, false);
    let line = "x = 1  # a comment";
    let rendered = r.render_next(&ss, line).unwrap();
    let styled: Vec<(Style, &str)> = rendered
        .segments
        .iter()
        .map(|s| {
            (
                Style {
                    foreground: Color { r: s.fg.r, g: s.fg.g, b: s.fg.b, a: s.fg.a },
                    background: Color { r: s.bg.r, g: s.bg.g, b: s.bg.b, a: s.bg.a },
                    font_style: FontStyle::empty(),
                },
                s.text.as_str(),
            )
        })
        .collect();
    let reference = as_24_bit_terminal_escaped(&styled[..], true);
    assert_eq!(rendered.output, format!("{}\n", reference));
}

#[test]
fn whole_source_stream_renders_every_line_in_order() {
    let ss = load_syntaxes();
    let ts = load_themes();
    let (theme, _) = resolve_theme(&ts, "base16-ocean.dark");
    let (syntax, _) = resolve_syntax(&ss, None);
    let lines: Vec<String> = vec!["one".to_string(), "two".to_string(), "three".to_string()];
    let outs = rcat::render::render_stream(syntax, theme, &ss, &lines, true).unwrap();
    assert_eq!(outs.len(), 3);
    assert!(outs[0].starts_with("     1\t"));
    assert!(outs[1].starts_with("     2\t"));
    assert!(outs[2].starts_with("     3\t"));
    assert!(outs[2].ends_with("three\n"));
    let plain = rcat::render::render_stream(syntax, theme, &ss, &lines, false).unwrap();
    assert!(plain.iter().all(|o| !o.contains('\t')));
}
