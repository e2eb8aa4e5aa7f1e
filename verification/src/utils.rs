//! Rendering stored JSON for display.
use syntect::highlighting::{Color, Theme, ThemeSet};
use syntect::html::highlighted_html_for_string;
use syntect::parsing::{SyntaxReference, SyntaxSet};
use vstd::prelude::*;

verus! {

#[verifier::external_type_specification]
#[verifier::external_body]
pub struct ExSyntaxSet(SyntaxSet);

#[verifier::external_type_specification]
#[verifier::external_body]
pub struct ExSyntaxReference(SyntaxReference);

#[verifier::external_type_specification]
#[verifier::external_body]
pub struct ExThemeSet(ThemeSet);

#[verifier::external_type_specification]
#[verifier::external_body]
pub struct ExTheme(Theme);

/// The theme JSON is highlighted with.
pub const THEME_NAME: &'static str = "base16-eighties.dark";

/// The extension under which the JSON syntax is found.
pub const JSON_EXTENSION: &'static str = "json";

/// The background the theme is given, as red, green, blue and alpha.
pub const BACKGROUND: (u8, u8, u8, u8) = (16, 24, 39, 0xFF);

/// What `jsonxf::pretty_print` gives for a text: the pretty-printed JSON, or
/// none where the text is not JSON.
pub uninterp spec fn json_pretty(text: Seq<char>) -> Option<Seq<char>>;

/// Trusted: `jsonxf::pretty_print`, with its error message dropped. The
/// result is the named `json_pretty` of the text.
#[verifier::external_body]
fn jsonxf_pretty_print(text: &str) -> (r: Option<String>)
    ensures
        r.deep_view() == json_pretty(text@),
{
    jsonxf::pretty_print(text).ok()
}

/// The file extensions of the syntaxes in a set.
pub uninterp spec fn syntax_extensions(syntaxes: SyntaxSet) -> Set<Seq<char>>;

/// The syntax that `SyntaxSet::find_syntax_by_extension` finds in a set.
pub uninterp spec fn syntax_for_extension(syntaxes: SyntaxSet, extension: Seq<char>) -> SyntaxReference;

/// The names of the themes in a set (the keys of `ThemeSet::themes`).
pub uninterp spec fn theme_names(themes: ThemeSet) -> Set<Seq<char>>;

/// The theme stored under a name in a set.
pub uninterp spec fn theme_named(themes: ThemeSet, name: Seq<char>) -> Theme;

/// A theme with its background colour set.
pub uninterp spec fn theme_with_background(theme: Theme, r: u8, g: u8, b: u8, a: u8) -> Theme;

/// What `highlighted_html_for_string` gives: the HTML, or none where
/// highlighting fails.
pub uninterp spec fn html_highlight(
    text: Seq<char>,
    syntaxes: SyntaxSet,
    syntax: SyntaxReference,
    theme: Theme,
) -> Option<Seq<char>>;

/// Trusted: `SyntaxSet::load_defaults_newlines`, the syntaxes that `syntect`
/// ships. The shipped set (`assets/default_newlines.packdump`) holds the JSON
/// syntax, with the extension `json`.
#[verifier::external_body]
fn default_syntaxes() -> (r: SyntaxSet)
    ensures
        syntax_extensions(r).contains("json"@),
{
    SyntaxSet::load_defaults_newlines()
}

/// Trusted: `ThemeSet::load_defaults`, the themes that `syntect` ships; its
/// documentation lists their names.
#[verifier::external_body]
fn default_themes() -> (r: ThemeSet)
    ensures
        theme_names(r).contains("base16-ocean.dark"@),
        theme_names(r).contains("base16-eighties.dark"@),
        theme_names(r).contains("base16-mocha.dark"@),
        theme_names(r).contains("base16-ocean.light"@),
        theme_names(r).contains("InspiredGitHub"@),
        theme_names(r).contains("Solarized (dark)"@),
        theme_names(r).contains("Solarized (light)"@),
{
    ThemeSet::load_defaults()
}

/// Trusted: `SyntaxSet::find_syntax_by_extension`, which finds a syntax
/// wherever one of the set's syntaxes has the extension; the syntax found is
/// the named `syntax_for_extension`.
#[verifier::external_body]
fn syntax_by_extension<'a>(syntaxes: &'a SyntaxSet, extension: &str) -> (r: Option<
    &'a SyntaxReference,
>)
    ensures
        syntax_extensions(*syntaxes).contains(extension@) ==> r is Some,
        r matches Some(syntax) ==> *syntax == syntax_for_extension(*syntaxes, extension@),
{
    syntaxes.find_syntax_by_extension(extension)
}

/// Trusted: a copy of the theme of the given name in `ThemeSet::themes`; it
/// exists exactly where the map holds the name, and is the named
/// `theme_named`.
#[verifier::external_body]
fn theme_by_name(themes: &ThemeSet, name: &str) -> (r: Option<Theme>)
    ensures
        r is Some == theme_names(*themes).contains(name@),
        r matches Some(theme) ==> theme == theme_named(*themes, name@),
{
    themes.themes.get(name).cloned()
}

/// Trusted: sets the background colour in a theme's settings; the theme
/// becomes the named `theme_with_background`.
#[verifier::external_body]
fn set_theme_background(theme: &mut Theme, r: u8, g: u8, b: u8, a: u8)
    ensures
        *final(theme) == theme_with_background(*old(theme), r, g, b, a),
{
    theme.settings.background = Some(Color { r, g, b, a });
}

/// Trusted: `syntect::html::highlighted_html_for_string`, with its error
/// dropped. The result is the named `html_highlight` of its arguments.
#[verifier::external_body]
fn highlighted_html(
    text: &str,
    syntaxes: &SyntaxSet,
    syntax: &SyntaxReference,
    theme: &Theme,
) -> (r: Option<String>)
    ensures
        r.deep_view() == html_highlight(text@, *syntaxes, *syntax, *theme),
{
    highlighted_html_for_string(text, syntaxes, syntax, theme).ok()
}

/// The HTML for pretty-printed JSON `pretty`, highlighted with the JSON syntax
/// of `syntaxes` and the theme [`THEME_NAME`] of `themes` on the background
/// [`BACKGROUND`].
pub open spec fn json_html(pretty: Seq<char>, syntaxes: SyntaxSet, themes: ThemeSet) -> Option<
    Seq<char>,
> {
    html_highlight(
        pretty,
        syntaxes,
        syntax_for_extension(syntaxes, "json"@),
        theme_with_background(theme_named(themes, THEME_NAME@), 16, 24, 39, 0xFF),
    )
}

/// `json` pretty-printed by `jsonxf`; `None` where it is not JSON.
pub fn pretty_json(json: &str) -> (r: Option<String>)
    ensures
        r.deep_view() == json_pretty(json@),
{
    jsonxf_pretty_print(json)
}

/// `json` pretty-printed and highlighted as HTML with `syntect`'s JSON
/// syntax and its theme [`THEME_NAME`] on the background [`BACKGROUND`].
/// `None` where `jsonxf` does not take the text as JSON, or where `syntect`
/// fails to highlight it.
pub fn render_pretty_json(json: &str) -> (r: Option<String>)
    ensures
        json_pretty(json@) is None ==> r is None,
        json_pretty(json@) is Some ==> exists|syntaxes: SyntaxSet, themes: ThemeSet|
            syntax_extensions(syntaxes).contains("json"@) && theme_names(themes).contains(
                THEME_NAME@,
            ) && r.deep_view() == #[trigger] json_html(
                json_pretty(json@).unwrap(),
                syntaxes,
                themes,
            ),
{
    let syntaxes = default_syntaxes();
    let themes = default_themes();
    let syntax = match syntax_by_extension(&syntaxes, JSON_EXTENSION) {
        Some(syntax) => syntax,
        None => return None,
    };
    let mut theme = match theme_by_name(&themes, THEME_NAME) {
        Some(theme) => theme,
        None => return None,
    };
    let (red, green, blue, alpha) = BACKGROUND;
    set_theme_background(&mut theme, red, green, blue, alpha);
    let pretty = match pretty_json(json) {
        Some(pretty) => pretty,
        None => return None,
    };
    let html = highlighted_html(pretty.as_str(), &syntaxes, syntax, &theme);
    assert(html.deep_view() == json_html(pretty@, syntaxes, themes));
    assert(exists|ss: SyntaxSet, ts: ThemeSet|
        syntax_extensions(ss).contains("json"@) && theme_names(ts).contains(THEME_NAME@)
            && html.deep_view() == #[trigger] json_html(json_pretty(json@).unwrap(), ss, ts));
    html
}

} // verus!
