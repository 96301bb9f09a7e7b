use meep::params::{Extension, PasteId};
use meep::render::{
    check_first_line_patterns, classify_fetch, compose_output, format_background, resolve,
    resolve_record, view, view_highlighted, view_highlighted_themed, wrap_verbatim, FetchOutcome,
    RenderedOutput, ResolveError, Rgb,
};
use meep::store::MemStore;
use meep::theme::ThemeChoice;
use syntect::highlighting::ThemeSet;
use syntect::parsing::SyntaxSet;

fn catalogs() -> (SyntaxSet, ThemeSet) {
    (SyntaxSet::load_defaults_newlines(), ThemeSet::load_defaults())
}

fn store_with(id: &str, data: &str) -> MemStore {
    let mut store = MemStore::new();
    assert!(store.insert_if_absent(String::from(id), String::from(data)));
    store
}

#[test]
fn solarized_dark_background_string() {
    // The catalog maps "dark" to "Solarized (dark)", whose background is
    // RGB (0, 43, 54).
    let (ss, ts) = catalogs();
    let store = store_with("aaaa", "plain words");
    let id = PasteId::from_param("aaaa").unwrap();
    let out = resolve(
        &store,
        &id,
        None,
        Some(ThemeChoice::SolarizedDark),
        "InspiredGitHub",
        &ss,
        &ts,
    )
    .unwrap();
    assert_eq!(out.background, "#002b36");
}

#[test]
fn format_background_formats_channels_as_lowercase_hex() {
    assert_eq!(format_background(&Some(Rgb { r: 0, g: 43, b: 54 })), "#002b36");
    assert_eq!(format_background(&Some(Rgb { r: 255, g: 0, b: 16 })), "#ff0010");
}

#[test]
fn missing_background_defaults_to_white() {
    assert_eq!(format_background(&None), "#ffffff");
}

#[test]
fn wrap_verbatim_keeps_the_text() {
    assert_eq!(wrap_verbatim("hello"), "<pre>hello</pre>");
    assert_eq!(wrap_verbatim(""), "<pre></pre>");
}

#[test]
fn compose_output_prefers_markup_and_wraps_otherwise() {
    let data = String::from("body");
    let with_markup = compose_output(Some(String::from("<b>x</b>")), &data, &None);
    assert_eq!(with_markup.content, "<b>x</b>");
    let without = compose_output(None, &data, &None);
    assert_eq!(without.content, "<pre>body</pre>");
    assert_eq!(without.background, "#ffffff");
}

#[test]
fn no_hint_and_no_marker_renders_verbatim() {
    let (ss, ts) = catalogs();
    let data = String::from("just some plain words\nwith a second line");
    let out = resolve_record(&data, None, None, "InspiredGitHub", &ss, &ts).unwrap();
    assert_eq!(
        out.content,
        "<pre>just some plain words\nwith a second line</pre>"
    );
}

#[test]
fn first_line_marker_selects_a_grammar() {
    let (ss, ts) = catalogs();
    let data = String::from("#!/bin/bash\necho hello\n");
    let out = resolve_record(&data, None, None, "InspiredGitHub", &ss, &ts).unwrap();
    // Highlighted markup, not the verbatim wrapping.
    assert_ne!(out.content, format!("<pre>{}</pre>", data));
    assert!(out.content.contains("<span"));
    assert!(out.content.contains("echo"));
}

#[test]
fn extension_hint_selects_a_grammar() {
    let (ss, ts) = catalogs();
    let data = String::from("fn main() { println!(\"hi\"); }\n");
    let ext = Extension::from_param("rs").unwrap();
    let out = resolve_record(&data, Some(&ext), None, "InspiredGitHub", &ss, &ts).unwrap();
    assert!(out.content.contains("<span"));
}

#[test]
fn unknown_extension_falls_back_to_first_line() {
    let (ss, ts) = catalogs();
    let data = String::from("#!/bin/bash\necho hello\n");
    let ext = Extension::from_param("nosuchext").unwrap();
    let out = resolve_record(&data, Some(&ext), None, "InspiredGitHub", &ss, &ts).unwrap();
    assert!(out.content.contains("<span"));
}

#[test]
fn missing_record_is_not_found_not_a_fault() {
    let (ss, ts) = catalogs();
    let store = MemStore::new();
    let id = PasteId::from_param("zzzz").unwrap();
    let r = resolve(&store, &id, None, None, "InspiredGitHub", &ss, &ts);
    assert_eq!(r.err(), Some(ResolveError::NotFound));
}

#[test]
fn missing_theme_is_a_misconfiguration() {
    let (ss, ts) = catalogs();
    let data = String::from("words");
    let r = resolve_record(&data, None, None, "no-such-theme", &ss, &ts);
    assert_eq!(r.err(), Some(ResolveError::Misconfiguration));
}

#[test]
fn default_catalog_first_line_patterns_are_sound() {
    let ss = SyntaxSet::load_defaults_newlines();
    assert!(check_first_line_patterns(&ss));
    assert!(check_first_line_patterns(&SyntaxSet::load_defaults_nonewlines()));
}

#[test]
fn malformed_first_line_pattern_is_rejected() {
    let yaml = "\
name: Broken
file_extensions: [brk]
scope: source.broken
first_line_match: '['
contexts:
  main:
    - match: 'x'
      scope: source.broken
";
    let def = syntect::parsing::SyntaxDefinition::load_from_str(yaml, true, None).unwrap();
    let mut builder = syntect::parsing::SyntaxSetBuilder::new();
    builder.add(def);
    let ss = builder.build();
    assert!(!check_first_line_patterns(&ss));
}

#[test]
fn fetch_classification_keeps_absence_and_failure_apart() {
    assert_eq!(
        classify_fetch(FetchOutcome::Found(String::from("body"))),
        Ok(String::from("body"))
    );
    assert_eq!(
        classify_fetch(FetchOutcome::Missing),
        Err(ResolveError::NotFound)
    );
    assert_eq!(
        classify_fetch(FetchOutcome::Failed),
        Err(ResolveError::StoreFailure)
    );
}

#[test]
fn repeated_resolution_is_byte_identical() {
    let (ss, ts) = catalogs();
    let store = store_with("abcd", "#!/bin/bash\necho twice\n");
    let id = PasteId::from_param("abcd").unwrap();
    let run = || -> RenderedOutput {
        resolve(
            &store,
            &id,
            None,
            Some(ThemeChoice::SolarizedLight),
            "InspiredGitHub",
            &ss,
            &ts,
        )
        .unwrap()
    };
    let a = run();
    let b = run();
    assert_eq!(a.content, b.content);
    assert_eq!(a.background, b.background);
}

#[test]
fn highlighted_route_uses_the_configured_default_theme() {
    let (ss, ts) = catalogs();
    let store = store_with("abcd", "fn main() {}\n");
    let id = PasteId::from_param("abcd").unwrap();
    let ext = Extension::from_param("rs").unwrap();
    let out = view_highlighted(&store, &id, &ext, "Solarized (dark)", &ss, &ts).unwrap();
    assert_eq!(out.background, "#002b36");
    assert!(out.content.contains("<span"));
}

#[test]
fn themed_route_overrides_the_default_theme() {
    let (ss, ts) = catalogs();
    let store = store_with("abcd", "fn main() {}\n");
    let id = PasteId::from_param("abcd").unwrap();
    let ext = Extension::from_param("rs").unwrap();
    let out = view_highlighted_themed(
        &store,
        &id,
        &ext,
        ThemeChoice::SolarizedDark,
        "InspiredGitHub",
        &ss,
        &ts,
    )
    .unwrap();
    assert_eq!(out.background, "#002b36");
}

#[test]
fn view_returns_the_stored_text_or_nothing() {
    let store = store_with("iVse", "the body");
    let present = PasteId::from_param("iVse").unwrap();
    let absent = PasteId::from_param("none").unwrap();
    assert_eq!(view(&store, &present).cloned(), Some(String::from("the body")));
    assert!(view(&store, &absent).is_none());
}

#[test]
fn background_string_shape_holds_for_every_theme() {
    let (ss, ts) = catalogs();
    let store = store_with("aaaa", "words");
    let id = PasteId::from_param("aaaa").unwrap();
    for hint in [
        None,
        Some(ThemeChoice::InspiredGitHub),
        Some(ThemeChoice::SolarizedLight),
        Some(ThemeChoice::SolarizedDark),
    ] {
        let out = resolve(&store, &id, None, hint, "base16-ocean.dark", &ss, &ts).unwrap();
        let bg = out.background.as_bytes();
        assert_eq!(bg.len(), 7);
        assert_eq!(bg[0], b'#');
        assert!(bg[1..]
            .iter()
            .all(|c| c.is_ascii_digit() || (b'a'..=b'f').contains(c)));
    }
}
