//! The binding to the syntax highlighting engine. The engine's types are
//! opaque here; what is known of them is what the trusted functions of this
//! file state, and Verus takes their contracts as given.

use vstd::prelude::*;

verus! {

/// A set of grammars, as the engine holds it.
#[verifier::external_type_specification]
#[verifier::external_body]
pub struct ExSyntaxSet(syntect::parsing::SyntaxSet);

/// A color theme, as the engine holds it.
#[verifier::external_type_specification]
#[verifier::external_body]
pub struct ExTheme(syntect::highlighting::Theme);

/// One grammar of a set, as the engine holds it.
#[verifier::external_type_specification]
#[verifier::external_body]
pub struct ExSyntaxReference(syntect::parsing::SyntaxReference);

/// The error of the engine.
#[verifier::external_type_specification]
#[verifier::external_body]
pub struct ExHighlightError(syntect::Error);

/// Whether a set of grammars is one that the engine ships.
pub uninterp spec fn shipped(syntaxes: syntect::parsing::SyntaxSet) -> bool;

/// The grammar that a set holds under `name`, if it holds one.
pub uninterp spec fn syntax_named(
    syntaxes: syntect::parsing::SyntaxSet,
    name: Seq<char>,
) -> Option<syntect::parsing::SyntaxReference>;

/// The theme that the engine ships under `name`, if it ships one.
pub uninterp spec fn default_theme(name: Seq<char>) -> Option<syntect::highlighting::Theme>;

/// `line`, highlighted as the first line of a text in the grammar `syntax`
/// of the set `syntaxes`, and written with 24-bit terminal escapes,
/// background included; or `None` where the engine fails on the line.
pub uninterp spec fn highlighted(
    syntaxes: syntect::parsing::SyntaxSet,
    syntax: syntect::parsing::SyntaxReference,
    theme: syntect::highlighting::Theme,
    line: Seq<char>,
) -> Option<Seq<char>>;

/// Whether `syntax` is one of the grammars of `syntaxes`.
pub open spec fn is_syntax_of(
    syntax: syntect::parsing::SyntaxReference,
    syntaxes: syntect::parsing::SyntaxSet,
) -> bool {
    exists|name: Seq<char>| #[trigger] syntax_named(syntaxes, name) == Some(syntax)
}

/// The name of the theme that is used where none is chosen. The engine ships
/// a theme of this name.
pub open spec fn default_theme_name() -> Seq<char> {
    "base16-ocean.dark"@
}

/// `SyntaxSet::load_defaults_newlines`: the grammars that the engine ships,
/// for lines that end in a line feed. The contract claims nothing of what
/// the set holds, only that it is the engine's own.
#[verifier::external_body]
pub(crate) fn load_default_syntaxes() -> (syntaxes: syntect::parsing::SyntaxSet)
    ensures
        shipped(syntaxes),
{
    syntect::parsing::SyntaxSet::load_defaults_newlines()
}

/// `ThemeSet::load_defaults`, and the entry of its `themes` under `name`. The
/// contract names the outcome, which depends on `name` alone, and claims that
/// `base16-ocean.dark` is among the themes, as the documentation of
/// `load_defaults` lists.
#[verifier::external_body]
pub(crate) fn load_default_theme(name: &str) -> (theme: Option<syntect::highlighting::Theme>)
    ensures
        theme == default_theme(name@),
        name@ == default_theme_name() ==> theme is Some,
{
    syntect::highlighting::ThemeSet::load_defaults().themes.get(name).cloned()
}

/// `SyntaxSet::find_syntax_by_name`: the grammar of the set that is called
/// `name`. The contract names the outcome, which depends on the set and the
/// name alone.
#[verifier::external_body]
pub(crate) fn find_syntax<'a>(syntaxes: &'a syntect::parsing::SyntaxSet, name: &str) -> (found:
    Option<&'a syntect::parsing::SyntaxReference>)
    ensures
        match found {
            Some(syntax) => syntax_named(*syntaxes, name@) == Some(*syntax),
            None => syntax_named(*syntaxes, name@) is None,
        },
{
    syntaxes.find_syntax_by_name(name)
}

/// `HighlightLines::new`, then `HighlightLines::highlight_line` on `line`,
/// then `as_24_bit_terminal_escaped` with the background on. The highlighter
/// is made anew for each call, so the contract claims that the outcome
/// depends on the arguments alone, and names it. The grammar has to come
/// from the set, since the engine says that it is of use with no other; and
/// the set has to be one that the engine ships, since the engine relies on
/// what its own loader puts into every grammar.
#[verifier::external_body]
pub(crate) fn highlight_line(
    syntaxes: &syntect::parsing::SyntaxSet,
    syntax: &syntect::parsing::SyntaxReference,
    theme: &syntect::highlighting::Theme,
    line: &str,
) -> (escaped: Result<String, syntect::Error>)
    requires
        shipped(*syntaxes),
        is_syntax_of(*syntax, *syntaxes),
    ensures
        match escaped {
            Ok(text) => highlighted(*syntaxes, *syntax, *theme, line@) == Some(text@),
            Err(_) => highlighted(*syntaxes, *syntax, *theme, line@) is None,
        },
{
    let mut highlighter = syntect::easy::HighlightLines::new(syntax, theme);
    let ranges = highlighter.highlight_line(line, syntaxes)?;
    Ok(syntect::util::as_24_bit_terminal_escaped(&ranges[..], true))
}

} // verus!
