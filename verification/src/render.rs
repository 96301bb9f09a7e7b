//! The rendering resolver: fetches a record, selects a colour theme and a
//! syntax grammar (extension hint first, then first-line detection), and
//! produces highlighted markup plus a `#rrggbb` background string.
//!
//! The grammar and theme catalogs are syntect's. What a lookup or the
//! highlighter returns is a function of the catalog value and the request
//! alone, but takes pages to state, so each result is given a name
//! (`extension_grammar`, `theme_at`, `highlight_result`, ...) and the
//! resolver's contract is exact over those names: `render_outcome` says
//! which error comes when, in what order the grammar stages are consulted,
//! and what the output is for every answer the catalogs can give.

use vstd::prelude::*;
use vstd::string::*;

use crate::params::Extension;
use crate::params::PasteId;
use crate::store::MemStore;
use crate::strutil::push_char;
use crate::theme::ThemeChoice;
use crate::theme::resolved_theme_name;
use crate::theme::theme_name_for;

verus! {

#[verifier::external_type_specification]
#[verifier::external_body]
pub struct ExSyntaxSet(syntect::parsing::SyntaxSet);

#[verifier::external_type_specification]
#[verifier::external_body]
pub struct ExSyntaxReference(syntect::parsing::SyntaxReference);

#[verifier::external_type_specification]
#[verifier::external_body]
pub struct ExThemeSet(syntect::highlighting::ThemeSet);

#[verifier::external_type_specification]
#[verifier::external_body]
pub struct ExTheme(syntect::highlighting::Theme);

#[verifier::external_type_specification]
#[verifier::external_body]
pub struct ExSyntectError(syntect::Error);

/// A background colour: three 8-bit channels.
#[derive(Clone, Copy, PartialEq, Eq, Structural, Debug)]
pub struct Rgb {
    pub r: u8,
    pub g: u8,
    pub b: u8,
}

/// The grammar the catalog holds for a file extension, if any.
pub uninterp spec fn extension_grammar(
    ss: syntect::parsing::SyntaxSet,
    ext: Seq<char>,
) -> Option<syntect::parsing::SyntaxReference>;

/// The grammar the catalog detects from the content's first line, if any.
pub uninterp spec fn first_line_grammar(
    ss: syntect::parsing::SyntaxSet,
    data: Seq<char>,
) -> Option<syntect::parsing::SyntaxReference>;

/// The theme the catalog stores under exactly this name, if any.
pub uninterp spec fn theme_at(
    ts: syntect::highlighting::ThemeSet,
    name: Seq<char>,
) -> Option<syntect::highlighting::Theme>;

/// The theme's configured background colour, if it specifies one.
pub uninterp spec fn background_of(t: syntect::highlighting::Theme) -> Option<Rgb>;

/// The highlighter's markup for the content under a grammar and theme;
/// `None` when the backend reports an error instead.
pub uninterp spec fn highlight_result(
    data: Seq<char>,
    ss: syntect::parsing::SyntaxSet,
    syntax: syntect::parsing::SyntaxReference,
    theme: syntect::highlighting::Theme,
) -> Option<Seq<char>>;

/// The grammar list a syntax catalog holds, in the catalog's order.
pub uninterp spec fn syntaxes_of(ss: syntect::parsing::SyntaxSet) -> Seq<
    syntect::parsing::SyntaxReference,
>;

/// Whether a grammar's first-line pattern, if it declares one, compiles
/// under the built-in regex engine.
pub uninterp spec fn first_line_pattern_sound(sr: syntect::parsing::SyntaxReference) -> bool;

/// Every grammar's first-line pattern in the catalog compiles, so the
/// first-line stage can never hit a malformed pattern. Grammar folders
/// named in the deployment's configuration may carry untested patterns;
/// `check_first_line_patterns` decides this predicate for any catalog.
pub open spec fn first_line_patterns_sound(ss: syntect::parsing::SyntaxSet) -> bool {
    forall|i: int|
        0 <= i < syntaxes_of(ss).len() ==> #[trigger] first_line_pattern_sound(
            syntaxes_of(ss)[i],
        )
}

/// Relies on `SyntaxSet::syntaxes`: the catalog's grammar list.
#[verifier::external_body]
fn syntax_list(syntaxes: &syntect::parsing::SyntaxSet) -> (r: &[
    syntect::parsing::SyntaxReference])
    ensures
        r@ == syntaxes_of(*syntaxes),
{
    syntaxes.syntaxes()
}

/// Relies on `Regex::try_compile`: whether the grammar's raw first-line
/// pattern — exactly the string the first-line stage compiles lazily — is
/// a valid pattern. A grammar that declares none passes.
#[verifier::external_body]
fn first_line_pattern_ok(syntax: &syntect::parsing::SyntaxReference) -> (r: bool)
    ensures
        r == first_line_pattern_sound(*syntax),
{
    match &syntax.first_line_match {
        Some(pattern) => syntect::parsing::Regex::try_compile(pattern).is_none(),
        None => true,
    }
}

/// Validates a catalog for the first-line stage: true exactly when every
/// grammar's first-line pattern compiles. A catalog loaded from a
/// deployment-supplied grammar folder must pass this check before it
/// reaches the resolver; the bundled default catalogs do.
pub fn check_first_line_patterns(syntaxes: &syntect::parsing::SyntaxSet) -> (r: bool)
    ensures
        r == first_line_patterns_sound(*syntaxes),
{
    let list = syntax_list(syntaxes);
    let n = list.len();
    let mut i: usize = 0;
    while i < n
        invariant
            n == list@.len(),
            list@ == syntaxes_of(*syntaxes),
            i <= n,
            forall|j: int|
                0 <= j < i ==> #[trigger] first_line_pattern_sound(syntaxes_of(*syntaxes)[j]),
        decreases n - i,
    {
        let sr = vstd::slice::slice_index_get(list, i);
        if !first_line_pattern_ok(sr) {
            return false;
        }
        i += 1;
    }
    true
}

/// Relies on `SyntaxSet::find_syntax_by_extension`: the catalog's grammar
/// for a file extension, a pure lookup in the set's grammars.
#[verifier::external_body]
fn find_syntax_by_extension<'a>(
    syntaxes: &'a syntect::parsing::SyntaxSet,
    ext: &str,
) -> (r: Option<&'a syntect::parsing::SyntaxReference>)
    ensures
        r is Some <==> extension_grammar(*syntaxes, ext@) is Some,
        r matches Some(sr) ==> extension_grammar(*syntaxes, ext@) == Some(*sr),
{
    syntaxes.find_syntax_by_extension(ext)
}

/// Relies on `SyntaxSet::find_syntax_by_first_line`: a grammar detected
/// from the content's first line (shebang or marker conventions), if any.
/// The set's first-line patterns are compiled lazily on first use and the
/// backend panics on a malformed one, so catalogs holding one are excluded
/// here: `check_first_line_patterns` decides the precondition.
#[verifier::external_body]
fn find_syntax_by_first_line<'a>(
    syntaxes: &'a syntect::parsing::SyntaxSet,
    data: &str,
) -> (r: Option<&'a syntect::parsing::SyntaxReference>)
    requires
        first_line_patterns_sound(*syntaxes),
    ensures
        r is Some <==> first_line_grammar(*syntaxes, data@) is Some,
        r matches Some(sr) ==> first_line_grammar(*syntaxes, data@) == Some(*sr),
{
    syntaxes.find_syntax_by_first_line(data)
}

/// Relies on `BTreeMap::get` over the theme set's `themes` map: the theme
/// stored under exactly this name, if any.
#[verifier::external_body]
fn theme_get<'a>(
    themes: &'a syntect::highlighting::ThemeSet,
    name: &str,
) -> (r: Option<&'a syntect::highlighting::Theme>)
    ensures
        r is Some <==> theme_at(*themes, name@) is Some,
        r matches Some(t) ==> theme_at(*themes, name@) == Some(*t),
{
    themes.themes.get(name)
}

/// Relies on the theme's `settings.background` field: the theme's
/// configured background colour, if it specifies one (the alpha channel is
/// not displayed and is dropped).
#[verifier::external_body]
fn theme_background(theme: &syntect::highlighting::Theme) -> (r: Option<Rgb>)
    ensures
        r == background_of(*theme),
{
    match theme.settings.background {
        Some(c) => Some(Rgb { r: c.r, g: c.g, b: c.b }),
        None => None,
    }
}

/// Relies on `syntect::html::highlighted_html_for_string`: highlighted
/// HTML markup for the full content under the given grammar and theme, a
/// pure function of its arguments.
#[verifier::external_body]
fn highlight_html(
    data: &String,
    syntaxes: &syntect::parsing::SyntaxSet,
    syntax: &syntect::parsing::SyntaxReference,
    theme: &syntect::highlighting::Theme,
) -> (r: Result<String, syntect::Error>)
    ensures
        r matches Ok(m) ==> highlight_result(data@, *syntaxes, *syntax, *theme) == Some(m@),
        r is Err ==> highlight_result(data@, *syntaxes, *syntax, *theme) is None,
{
    syntect::html::highlighted_html_for_string(data.as_str(), syntaxes, syntax, theme)
}

/// The lowercase hexadecimal digit for a value below 16.
pub open spec fn hex_digit(n: int) -> char {
    if n == 0 {
        '0'
    } else if n == 1 {
        '1'
    } else if n == 2 {
        '2'
    } else if n == 3 {
        '3'
    } else if n == 4 {
        '4'
    } else if n == 5 {
        '5'
    } else if n == 6 {
        '6'
    } else if n == 7 {
        '7'
    } else if n == 8 {
        '8'
    } else if n == 9 {
        '9'
    } else if n == 10 {
        'a'
    } else if n == 11 {
        'b'
    } else if n == 12 {
        'c'
    } else if n == 13 {
        'd'
    } else if n == 14 {
        'e'
    } else {
        'f'
    }
}

/// True of a lowercase hexadecimal digit.
pub open spec fn is_hex_char(c: char) -> bool {
    ('0' <= c && c <= '9') || ('a' <= c && c <= 'f')
}

/// A byte as two lowercase hexadecimal digits.
pub open spec fn byte_hex(b: u8) -> Seq<char> {
    seq![hex_digit(b as int / 16), hex_digit(b as int % 16)]
}

/// The display background string for a theme's configured background:
/// `#rrggbb` in lowercase hex, white when the theme specifies none.
pub open spec fn background_hex(bg: Option<Rgb>) -> Seq<char> {
    let c = match bg {
        Some(c) => c,
        None => Rgb { r: 255, g: 255, b: 255 },
    };
    seq!['#'] + byte_hex(c.r) + byte_hex(c.g) + byte_hex(c.b)
}

/// The shape of every background string: `#` and six hex digits.
pub open spec fn is_background_string(s: Seq<char>) -> bool {
    &&& s.len() == 7
    &&& s[0] == '#'
    &&& forall|i: int| 1 <= i < 7 ==> is_hex_char(s[i])
}

pub proof fn lemma_background_hex_wf(bg: Option<Rgb>)
    ensures
        is_background_string(background_hex(bg)),
{
}

fn push_hex_digit(s: &mut String, n: u8)
    requires
        n < 16,
    ensures
        final(s)@ == old(s)@.push(hex_digit(n as int)),
{
    let c: char = if n < 10 {
        (48 + n) as char
    } else {
        (87 + n) as char
    };
    push_char(s, c);
}

fn push_hex_byte(s: &mut String, b: u8)
    ensures
        final(s)@ == old(s)@ + byte_hex(b),
{
    push_hex_digit(s, b / 16);
    push_hex_digit(s, b % 16);
    proof {
        assert(final(s)@ =~= old(s)@ + byte_hex(b));
    }
}

/// Formats the display background: `#rrggbb` from the theme's configured
/// background colour, white when it specifies none.
pub fn format_background(bg: &Option<Rgb>) -> (r: String)
    ensures
        r@ == background_hex(*bg),
{
    let c: Rgb = match bg {
        Some(c) => *c,
        None => Rgb { r: 255, g: 255, b: 255 },
    };
    let mut out = String::new();
    push_char(&mut out, '#');
    push_hex_byte(&mut out, c.r);
    push_hex_byte(&mut out, c.g);
    push_hex_byte(&mut out, c.b);
    proof {
        assert(out@ =~= background_hex(*bg));
    }
    out
}

/// Content with no grammar, wrapped as verbatim preformatted text.
pub open spec fn verbatim_wrapped(data: Seq<char>) -> Seq<char> {
    "<pre>"@ + data + "</pre>"@
}

/// Wraps raw content in a minimal preformatted container, leaving the
/// text itself unchanged.
pub fn wrap_verbatim(data: &str) -> (r: String)
    ensures
        r@ == verbatim_wrapped(data@),
{
    let mut out = String::from_str("<pre>");
    out.append(data);
    out.append("</pre>");
    out
}

/// The rendered display content: the backend's markup when a grammar was
/// found, the verbatim-wrapped content otherwise.
pub open spec fn composed_content(markup: Option<Seq<char>>, data: Seq<char>) -> Seq<char> {
    match markup {
        Some(m) => m,
        None => verbatim_wrapped(data),
    }
}

/// What a read request yields: display content and a background colour
/// string for the page.
pub struct RenderedOutput {
    pub content: String,
    pub background: String,
}

/// Why a read request yields no rendered output.
#[derive(PartialEq, Eq, Structural, Clone, Copy, Debug)]
pub enum ResolveError {
    /// No record for the identifier: visible absence, not a fault.
    NotFound,
    /// The requested theme name is missing from the catalog: a deployment
    /// fault, not a user error.
    Misconfiguration,
    /// The highlighting backend reported an error on the content.
    RenderFailed,
    /// The record store failed for a reason other than a missing record:
    /// fatal, propagated, never retried.
    StoreFailure,
}

/// How a record store outside the library answered one lookup: the
/// record's content, no record under the identifier, or a failure.
pub enum FetchOutcome {
    Found(String),
    Missing,
    Failed,
}

/// The read path's classification of a store answer, for drivers of a
/// persistent store: a missing record is visible absence (`NotFound`),
/// and any other store failure is a fatal `StoreFailure` — the two are
/// never conflated.
pub fn classify_fetch(outcome: FetchOutcome) -> (r: Result<String, ResolveError>)
    ensures
        outcome matches FetchOutcome::Found(d) ==> r matches Ok(x) && x == d,
        outcome is Missing ==> r == Err::<String, ResolveError>(ResolveError::NotFound),
        outcome is Failed ==> r == Err::<String, ResolveError>(ResolveError::StoreFailure),
{
    match outcome {
        FetchOutcome::Found(d) => Ok(d),
        FetchOutcome::Missing => Err(ResolveError::NotFound),
        FetchOutcome::Failed => Err(ResolveError::StoreFailure),
    }
}

/// Combines the grammar stage's markup (if a grammar was found) and the
/// theme's background into the final output: the content is the markup or
/// the verbatim-wrapped text, and the background is the `#rrggbb` string.
pub fn compose_output(markup: Option<String>, data: &String, bg: &Option<Rgb>) -> (r:
    RenderedOutput)
    ensures
        r.content@ == composed_content(markup.deep_view(), data@),
        r.background@ == background_hex(*bg),
{
    let content = match markup {
        Some(m) => m,
        None => wrap_verbatim(data.as_str()),
    };
    let background = format_background(bg);
    RenderedOutput { content, background }
}

/// The two-stage grammar fallback, in order: the extension stage's grammar
/// when a hint was given and the catalog matches it; only when that stage
/// yields nothing, whatever the first-line stage detects.
pub open spec fn selected_grammar(
    ss: syntect::parsing::SyntaxSet,
    ext: Option<Seq<char>>,
    data: Seq<char>,
) -> Option<syntect::parsing::SyntaxReference> {
    match ext {
        Some(e) => if extension_grammar(ss, e) is Some {
            extension_grammar(ss, e)
        } else {
            first_line_grammar(ss, data)
        },
        None => first_line_grammar(ss, data),
    }
}

/// The extension hint's text, when a hint was given.
pub open spec fn ext_view(ext: Option<&Extension>) -> Option<Seq<char>> {
    match ext {
        Some(e) => Some(e@),
        None => None,
    }
}

/// The whole rendering pipeline as a function of the catalogs, the
/// content, and the hints: `Misconfiguration` exactly when the resolved
/// theme name is absent from the catalog; `RenderFailed` exactly when a
/// grammar was selected and the backend errors on it; otherwise the
/// markup — or the verbatim wrapping when no grammar matched — paired with
/// the theme's `#rrggbb` background string.
pub open spec fn render_outcome(
    ss: syntect::parsing::SyntaxSet,
    ts: syntect::highlighting::ThemeSet,
    data: Seq<char>,
    ext: Option<Seq<char>>,
    hint: Option<ThemeChoice>,
    default_theme: Seq<char>,
) -> Result<(Seq<char>, Seq<char>), ResolveError> {
    match theme_at(ts, resolved_theme_name(hint, default_theme)) {
        None => Err(ResolveError::Misconfiguration),
        Some(th) => match selected_grammar(ss, ext, data) {
            Some(g) => match highlight_result(data, ss, g, th) {
                Some(m) => Ok((m, background_hex(background_of(th)))),
                None => Err(ResolveError::RenderFailed),
            },
            None => Ok((verbatim_wrapped(data), background_hex(background_of(th)))),
        },
    }
}

/// Renders a record: looks the theme up by the resolved name (the hint's
/// catalog key, or the configured default), selects a grammar by the
/// extension hint and then by the content's first line, and produces
/// highlighted markup, or the verbatim-wrapped content when neither stage
/// finds a grammar. The result is exactly `render_outcome` of the inputs:
/// a missing theme is a `Misconfiguration`, a backend error on a selected
/// grammar is `RenderFailed`, and success is owed in every other case.
pub fn resolve_record(
    data: &String,
    ext: Option<&Extension>,
    theme: Option<ThemeChoice>,
    default_theme: &str,
    syntaxes: &syntect::parsing::SyntaxSet,
    themes: &syntect::highlighting::ThemeSet,
) -> (r: Result<RenderedOutput, ResolveError>)
    requires
        first_line_patterns_sound(*syntaxes),
    ensures
        ({
            let outcome = render_outcome(
                *syntaxes,
                *themes,
                data@,
                ext_view(ext),
                theme,
                default_theme@,
            );
            match r {
                Ok(out) => outcome == Ok::<(Seq<char>, Seq<char>), ResolveError>(
                    (out.content@, out.background@),
                ),
                Err(e) => outcome == Err::<(Seq<char>, Seq<char>), ResolveError>(e),
            }
        }),
        r matches Err(e) ==> e == ResolveError::Misconfiguration || e
            == ResolveError::RenderFailed,
        r matches Ok(out) ==> is_background_string(out.background@),
{
    let name = theme_name_for(&theme, default_theme);
    let theme_obj = match theme_get(themes, name) {
        Some(t) => t,
        None => {
            return Err(ResolveError::Misconfiguration);
        },
    };
    let by_extension = match ext {
        Some(e) => find_syntax_by_extension(syntaxes, e.as_str()),
        None => None,
    };
    let syntax = match by_extension {
        Some(s) => Some(s),
        None => find_syntax_by_first_line(syntaxes, data.as_str()),
    };
    let markup: Option<String> = match syntax {
        Some(sr) => {
            match highlight_html(data, syntaxes, sr, theme_obj) {
                Ok(html) => Some(html),
                Err(_) => {
                    return Err(ResolveError::RenderFailed);
                },
            }
        },
        None => None,
    };
    let bg = theme_background(theme_obj);
    let out = compose_output(markup, data, &bg);
    proof {
        lemma_background_hex_wf(bg);
    }
    Ok(out)
}

/// The raw read path: the stored content for an identifier, or `None`
/// when the store has no record for it.
pub fn view<'a>(store: &'a MemStore, id: &PasteId) -> (r: Option<&'a String>)
    requires
        store.inv(),
    ensures
        match r {
            Some(d) => store@.dom().contains(id@) && d@ == store@[id@],
            None => !store@.dom().contains(id@),
        },
{
    store.find_by_id(id.as_str())
}

/// The highlighted read path: fetches the record for the identifier and
/// renders it. An identifier with no record yields `NotFound`, and
/// `NotFound` arises in no other way; when the record exists, the result
/// is exactly `render_outcome` of its content, the hints, and the
/// catalogs.
pub fn resolve(
    store: &MemStore,
    id: &PasteId,
    ext: Option<&Extension>,
    theme: Option<ThemeChoice>,
    default_theme: &str,
    syntaxes: &syntect::parsing::SyntaxSet,
    themes: &syntect::highlighting::ThemeSet,
) -> (r: Result<RenderedOutput, ResolveError>)
    requires
        store.inv(),
        first_line_patterns_sound(*syntaxes),
    ensures
        (r matches Err(e) && e == ResolveError::NotFound) <==> !store@.dom().contains(id@),
        store@.dom().contains(id@) ==> ({
            let outcome = render_outcome(
                *syntaxes,
                *themes,
                store@[id@],
                ext_view(ext),
                theme,
                default_theme@,
            );
            match r {
                Ok(out) => outcome == Ok::<(Seq<char>, Seq<char>), ResolveError>(
                    (out.content@, out.background@),
                ),
                Err(e) => outcome == Err::<(Seq<char>, Seq<char>), ResolveError>(e),
            }
        }),
        r matches Ok(out) ==> store@.dom().contains(id@) && is_background_string(
            out.background@,
        ),
{
    let data = match store.find_by_id(id.as_str()) {
        Some(d) => d,
        None => {
            return Err(ResolveError::NotFound);
        },
    };
    resolve_record(data, ext, theme, default_theme, syntaxes, themes)
}

/// The highlighted read route without a theme segment: the configured
/// default theme is used.
pub fn view_highlighted(
    store: &MemStore,
    id: &PasteId,
    ext: &Extension,
    default_theme: &str,
    syntaxes: &syntect::parsing::SyntaxSet,
    themes: &syntect::highlighting::ThemeSet,
) -> (r: Result<RenderedOutput, ResolveError>)
    requires
        store.inv(),
        first_line_patterns_sound(*syntaxes),
    ensures
        (r matches Err(e) && e == ResolveError::NotFound) <==> !store@.dom().contains(id@),
        store@.dom().contains(id@) ==> ({
            let outcome = render_outcome(
                *syntaxes,
                *themes,
                store@[id@],
                Some(ext@),
                None::<ThemeChoice>,
                default_theme@,
            );
            match r {
                Ok(out) => outcome == Ok::<(Seq<char>, Seq<char>), ResolveError>(
                    (out.content@, out.background@),
                ),
                Err(e) => outcome == Err::<(Seq<char>, Seq<char>), ResolveError>(e),
            }
        }),
        r matches Ok(out) ==> store@.dom().contains(id@) && is_background_string(
            out.background@,
        ),
{
    resolve(store, id, Some(ext), None, default_theme, syntaxes, themes)
}

/// The highlighted read route with a theme segment.
pub fn view_highlighted_themed(
    store: &MemStore,
    id: &PasteId,
    ext: &Extension,
    theme: ThemeChoice,
    default_theme: &str,
    syntaxes: &syntect::parsing::SyntaxSet,
    themes: &syntect::highlighting::ThemeSet,
) -> (r: Result<RenderedOutput, ResolveError>)
    requires
        store.inv(),
        first_line_patterns_sound(*syntaxes),
    ensures
        (r matches Err(e) && e == ResolveError::NotFound) <==> !store@.dom().contains(id@),
        store@.dom().contains(id@) ==> ({
            let outcome = render_outcome(
                *syntaxes,
                *themes,
                store@[id@],
                Some(ext@),
                Some(theme),
                default_theme@,
            );
            match r {
                Ok(out) => outcome == Ok::<(Seq<char>, Seq<char>), ResolveError>(
                    (out.content@, out.background@),
                ),
                Err(e) => outcome == Err::<(Seq<char>, Seq<char>), ResolveError>(e),
            }
        }),
        r matches Ok(out) ==> store@.dom().contains(id@) && is_background_string(
            out.background@,
        ),
{
    resolve(store, id, Some(ext), Some(theme), default_theme, syntaxes, themes)
}

/// Idempotence of rendering: the outcome is a function of the catalogs,
/// the content, and the hints alone — reads mutate nothing — so repeated
/// resolutions of the same record with the same hints are byte-identical.
pub proof fn lemma_render_idempotent(
    ss: syntect::parsing::SyntaxSet,
    ts: syntect::highlighting::ThemeSet,
    data: Seq<char>,
    ext: Option<Seq<char>>,
    hint: Option<ThemeChoice>,
    default_theme: Seq<char>,
    r1: Result<(Seq<char>, Seq<char>), ResolveError>,
    r2: Result<(Seq<char>, Seq<char>), ResolveError>,
)
    requires
        r1 == render_outcome(ss, ts, data, ext, hint, default_theme),
        r2 == render_outcome(ss, ts, data, ext, hint, default_theme),
    ensures
        r1 == r2,
{
}

} // verus!
