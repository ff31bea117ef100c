//! Tests of extension computation, grammar resolution and theme resolution.

use rcat::catalog::{grammar_name, load_syntaxes, load_themes, theme_name_list};
use rcat::resolve::{extension_of_path, format_theme_list, resolve_syntax, resolve_theme, theme_warning_line};

#[test]
fn extension_of_simple_names() {
    assert_eq!(extension_of_path("a.py"), Some("py".to_string()));
    assert_eq!(extension_of_path("foo.tar.gz"), Some("gz".to_string()));
    assert_eq!(extension_of_path("noext"), None);
    assert_eq!(extension_of_path(""), None);
}

#[test]
fn extension_of_hidden_and_trailing_dot_names() {
    assert_eq!(extension_of_path(".gitignore"), None);
    assert_eq!(extension_of_path("foo."), Some("".to_string()));
    assert_eq!(extension_of_path("..a"), Some("a".to_string()));
}

#[test]
fn extension_looks_only_at_the_file_name() {
    assert_eq!(extension_of_path("dir.d/plain"), None);
    assert_eq!(extension_of_path("/x/y/z.rs"), Some("rs".to_string()));
    assert_eq!(extension_of_path("a.b/c"), None);
}

#[test]
fn python_file_resolves_to_a_python_grammar() {
    let ss = load_syntaxes();
    let (syntax, matched) = resolve_syntax(&ss, Some("script.py"));
    assert!(matched);
    assert_eq!(grammar_name(syntax), "Python");
}

#[test]
fn unknown_extension_falls_back_to_plain_text_silently() {
    let ss = load_syntaxes();
    let (syntax, matched) = resolve_syntax(&ss, Some("data.unknownext"));
    assert!(!matched);
    assert_eq!(grammar_name(syntax), "Plain Text");
}

#[test]
fn stdin_always_gets_the_plain_text_grammar() {
    let ss = load_syntaxes();
    let (syntax, matched) = resolve_syntax(&ss, None);
    assert!(!matched);
    assert_eq!(grammar_name(syntax), "Plain Text");
}

#[test]
fn known_theme_resolves_without_warning() {
    let ts = load_themes();
    let (_, warning) = resolve_theme(&ts, "base16-ocean.dark");
    assert!(warning.is_none());
    let (_, warning) = resolve_theme(&ts, "InspiredGitHub");
    assert!(warning.is_none());
}

#[test]
fn unknown_theme_warns_once_and_proceeds() {
    let ts = load_themes();
    let (_, warning) = resolve_theme(&ts, "no-such-theme");
    assert_eq!(
        warning.as_deref(),
        Some(
            "rcat: Peringatan: Tema 'no-such-theme' tidak ditemukan. \
             Menggunakan default 'base16-ocean.dark'."
        )
    );
    assert_eq!(
        theme_warning_line("zzz"),
        "rcat: Peringatan: Tema 'zzz' tidak ditemukan. Menggunakan default 'base16-ocean.dark'."
    );
}

#[test]
fn theme_catalogue_lists_the_default() {
    let ts = load_themes();
    let names = theme_name_list(&ts);
    assert!(names.iter().any(|n| n == "base16-ocean.dark"));
}

#[test]
fn theme_list_output_has_header_and_one_line_per_theme() {
    let names = vec!["alpha".to_string(), "beta".to_string()];
    assert_eq!(
        format_theme_list(&names),
        "Tema yang tersedia:\n- alpha\n- beta\n"
    );
    let ts = load_themes();
    let real = theme_name_list(&ts);
    let out = format_theme_list(&real);
    assert!(out.starts_with("Tema yang tersedia:\n"));
    assert_eq!(out.matches('\n').count(), real.len() + 1);
    assert!(out.contains("- base16-ocean.dark\n"));
}
