//! The syntaxes and the theme bundled with `syntect`, the lookups of a syntax, and the
//! highlighter that colours code line by line in a syntax. The syntect values are opaque;
//! what the library needs of them (the name of a syntax found, the lines a highlighter has
//! been fed) is kept beside them in fields of this module that only its functions set.
use vstd::prelude::*;
use crate::action_discovery::views;
use crate::glyphs::TermColor;
use crate::render::{tokens_view, CodeToken};

verus! {

#[verifier::external_type_specification]
#[verifier::external_body]
pub struct ExSyntaxSet(syntect::parsing::SyntaxSet);

#[verifier::external_type_specification]
#[verifier::external_body]
pub struct ExSyntaxReference(syntect::parsing::SyntaxReference);

#[verifier::external_type_specification]
#[verifier::external_body]
pub struct ExSyntectTheme(syntect::highlighting::Theme);

#[verifier::external_type_specification]
#[verifier::external_body]
pub struct ExThemeSet(syntect::highlighting::ThemeSet);

#[verifier::external_type_specification]
#[verifier::external_body]
pub struct ExHighlightLines<'a>(syntect::easy::HighlightLines<'a>);

/// The names of the syntaxes a syntax set holds.
pub uninterp spec fn syntax_names(set: syntect::parsing::SyntaxSet) -> Set<Seq<char>>;

/// The name of the syntax `SyntaxSet::find_syntax_by_token` finds in a set for a token,
/// if any.
pub uninterp spec fn token_syntax(set: syntect::parsing::SyntaxSet, token: Seq<char>) -> Option<Seq<char>>;

/// The name of the syntax `SyntaxSet::find_syntax_by_extension` finds in a set for an
/// extension, if any.
pub uninterp spec fn extension_syntax(set: syntect::parsing::SyntaxSet, extension: Seq<char>) -> Option<Seq<char>>;

/// `syntect::parsing::SyntaxSet::load_defaults_newlines`: the syntaxes bundled with the
/// crate. The contract claims that they hold the plain-text syntax, named "Plain Text",
/// which the crate's bundled dump holds and its `find_syntax_plain_text` documents as
/// always present; nothing else is claimed of them.
#[verifier::external_body]
fn load_default_syntaxes() -> (r: syntect::parsing::SyntaxSet)
    ensures
        syntax_names(r).contains("Plain Text"@),
{
    syntect::parsing::SyntaxSet::load_defaults_newlines()
}

/// The names a theme set holds its themes under (the keys of its `themes` map).
pub uninterp spec fn theme_names(themes: syntect::highlighting::ThemeSet) -> Set<Seq<char>>;

/// `syntect::highlighting::ThemeSet::load_defaults`: the themes bundled with the crate.
/// The contract claims the names the crate documents as the keys of the bundled set;
/// nothing is claimed of the themes themselves.
#[verifier::external_body]
fn load_default_themes() -> (r: syntect::highlighting::ThemeSet)
    ensures
        theme_names(r).contains("base16-ocean.dark"@),
        theme_names(r).contains("base16-eighties.dark"@),
        theme_names(r).contains("base16-mocha.dark"@),
        theme_names(r).contains("base16-ocean.light"@),
        theme_names(r).contains("InspiredGitHub"@),
        theme_names(r).contains("Solarized (dark)"@),
        theme_names(r).contains("Solarized (light)"@),
{
    syntect::highlighting::ThemeSet::load_defaults()
}

/// `BTreeMap::get` on the themes of a theme set, the theme copied out: the theme of that
/// name, found exactly when the set holds a theme under that name. Nothing is claimed of
/// the theme itself.
#[verifier::external_body]
fn theme_named(themes: &syntect::highlighting::ThemeSet, name: &str) -> (r: Option<syntect::highlighting::Theme>)
    ensures
        r is Some <==> theme_names(*themes).contains(name@),
{
    themes.themes.get(name).cloned()
}

/// The syntaxes and the colour theme code is highlighted with: the bundled ones, which
/// hold the plain-text syntax.
pub struct HighlightAssets {
    syntax_set: syntect::parsing::SyntaxSet,
    theme: syntect::highlighting::Theme,
}

impl HighlightAssets {
    /// The syntaxes hold the plain-text syntax.
    #[verifier::type_invariant]
    spec fn has_plain_text(self) -> bool {
        syntax_names(self.syntax_set).contains("Plain Text"@)
    }

    /// The syntaxes of the assets.
    pub closed spec fn syntaxes(self) -> syntect::parsing::SyntaxSet {
        self.syntax_set
    }

    /// The bundled syntaxes and the bundled `base16-ocean.dark` theme, which the bundled
    /// themes always hold: the assets are always loaded.
    pub fn load() -> (r: Option<HighlightAssets>)
        ensures
            r is Some,
    {
        let syntax_set = load_default_syntaxes();
        let themes = load_default_themes();
        match theme_named(&themes, "base16-ocean.dark") {
            Some(theme) => Some(HighlightAssets { syntax_set, theme }),
            None => None,
        }
    }
}

/// A syntax of the assets, with its name.
pub struct NamedSyntax<'a> {
    syntax: &'a syntect::parsing::SyntaxReference,
    name: String,
}

impl<'a> View for NamedSyntax<'a> {
    type V = Seq<char>;

    /// The syntax's name.
    closed spec fn view(&self) -> Seq<char> {
        self.name@
    }
}

/// The name of a syntax found, if one is.
pub open spec fn found_name(r: Option<NamedSyntax>) -> Option<Seq<char>> {
    match r {
        Some(s) => Some(s@),
        None => None,
    }
}

/// `SyntaxSet::find_syntax_by_token` on the assets' syntaxes, with the name of the syntax
/// found: the syntax a fence's language names, by file extension or by name. The contract
/// names which one; nothing is claimed of which tokens the set knows.
#[verifier::external_body]
pub fn syntax_by_token<'a>(assets: &'a HighlightAssets, token: &str) -> (r: Option<NamedSyntax<'a>>)
    ensures
        found_name(r) == token_syntax(assets.syntaxes(), token@),
{
    assets.syntax_set.find_syntax_by_token(token).map(|s| NamedSyntax { syntax: s, name: s.name.clone() })
}

/// `SyntaxSet::find_syntax_by_extension` on the assets' syntaxes, with the name of the
/// syntax found: the syntax of files with the given extension. The contract names which
/// one; nothing is claimed of which extensions the set knows.
#[verifier::external_body]
pub fn syntax_by_extension<'a>(assets: &'a HighlightAssets, extension: &str) -> (r: Option<NamedSyntax<'a>>)
    ensures
        found_name(r) == extension_syntax(assets.syntaxes(), extension@),
{
    assets.syntax_set.find_syntax_by_extension(extension).map(|s| NamedSyntax { syntax: s, name: s.name.clone() })
}

/// `SyntaxSet::find_syntax_by_name` on the assets' syntaxes, with the name of the syntax
/// found: the syntax whose name is exactly `name`, found exactly when the set holds one.
#[verifier::external_body]
fn syntax_by_name<'a>(assets: &'a HighlightAssets, name: &str) -> (r: Option<NamedSyntax<'a>>)
    ensures
        r is Some <==> syntax_names(assets.syntaxes()).contains(name@),
        r matches Some(s) ==> s@ == name@,
{
    assets.syntax_set.find_syntax_by_name(name).map(|s| NamedSyntax { syntax: s, name: s.name.clone() })
}

/// The assets' plain-text syntax, which they always hold.
pub fn plain_text_syntax<'a>(assets: &'a HighlightAssets) -> (r: NamedSyntax<'a>)
    ensures
        r@ == "Plain Text"@,
{
    proof {
        use_type_invariant(assets);
        reveal_strlit("Plain Text");
    }
    syntax_by_name(assets, "Plain Text").unwrap()
}

/// The text of a line's tokens, one after another.
pub open spec fn spelled(tokens: Seq<(Seq<char>, TermColor)>) -> Seq<char>
    decreases tokens.len(),
{
    if tokens.len() == 0 {
        seq![]
    } else {
        spelled(tokens.drop_last()) + tokens.last().0
    }
}

/// syntect's tokens for `line` as the next line of a piece of code whose earlier lines are
/// `previous`, highlighted in the bundled syntax named `syntax` with the bundled
/// `base16-ocean.dark` theme, each token's foreground taken as an RGB colour; no tokens
/// where syntect reports an error.
pub uninterp spec fn syntect_line_tokens(syntax: Seq<char>, previous: Seq<Seq<char>>, line: Seq<char>) -> Seq<(Seq<char>, TermColor)>;

/// A highlighter for one piece of code: the syntect highlighter, the name of the syntax it
/// highlights in, and the lines it has been fed so far.
pub struct CodeHighlighter<'a> {
    inner: syntect::easy::HighlightLines<'a>,
    syntax: String,
    fed: Vec<String>,
}

impl<'a> View for CodeHighlighter<'a> {
    type V = (Seq<char>, Seq<Seq<char>>);

    /// The name of the syntax, and the lines fed so far.
    closed spec fn view(&self) -> (Seq<char>, Seq<Seq<char>>) {
        (self.syntax@, views(self.fed@))
    }
}

/// `syntect::easy::HighlightLines::new` in the given syntax and the assets' theme, with
/// the syntax's name kept beside it: a highlighter fed nothing yet.
#[verifier::external_body]
pub fn new_highlighter<'a>(assets: &'a HighlightAssets, syntax: &NamedSyntax) -> (r: CodeHighlighter<'a>)
    ensures
        r@ == (syntax@, Seq::<Seq<char>>::empty()),
{
    CodeHighlighter {
        inner: syntect::easy::HighlightLines::new(syntax.syntax, &assets.theme),
        syntax: syntax.name.clone(),
        fed: Vec::new(),
    }
}

/// `HighlightLines::highlight_line` with the assets' syntaxes, each token's foreground
/// colour taken as an RGB colour, and the line recorded among those fed. A highlighter is
/// only ever made by [`new_highlighter`] from the bundled assets (its fields are private
/// to this module), so its tokens are a function of its syntax, the lines fed before and
/// the line: the contract names them, and claims what the crate documents of them: they
/// spell out the line, or, where highlighting fails, there are none.
#[verifier::external_body]
pub fn highlight_line(h: &mut CodeHighlighter, line: &str, assets: &HighlightAssets) -> (r: Vec<CodeToken>)
    ensures
        final(h)@ == (old(h)@.0, old(h)@.1.push(line@)),
        tokens_view(r@) == syntect_line_tokens(old(h)@.0, old(h)@.1, line@),
        r@.len() == 0 || spelled(tokens_view(r@)) == line@,
{
    let tokens = h.inner.highlight_line(line, &assets.syntax_set).unwrap_or_default().into_iter().map(
        |(style, text)| CodeToken {
            text: text.to_string(),
            fg: TermColor::Rgb(style.foreground.r, style.foreground.g, style.foreground.b),
        },
    ).collect();
    h.fed.push(line.to_owned());
    tokens
}

} // verus!
