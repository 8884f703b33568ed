use markterm::context::Context;
use markterm::error::RenderError;
use markterm::style::code_block::DEFAULT_CODE_WIDTH;
use markterm::style::rule::DEFAULT_RULE_WIDTH;
use markterm::style::{
    Attribute, Attributes, BlockQuoteStyle, CodeBlockStyle, CodeStyle, Color, Content,
    ContentStyle, DefaultStyle, HeadingStyle, OrderedListStyle, ParagraphStyle, RuleStyle,
    SoftBreak, StyleSetBuilder, StyledContent, UnorderedListStyle,
};
use syntect::easy::HighlightLines;
use syntect::highlighting::ThemeSet;
use syntect::parsing::SyntaxSet;
use syntect::util::as_24_bit_terminal_escaped;

fn styled(style: ContentStyle, text: &str) -> Content {
    Content::Styled(StyledContent { style, content: text.to_string() })
}

fn plain(text: &str) -> Content {
    Content::Plain(text.to_string())
}

fn white() -> ContentStyle {
    ContentStyle::new().with(Color::White)
}

fn context(indentation: usize, start_of_line: bool) -> Context {
    let mut context = Context::new();
    context.set_indentation(indentation);
    context.set_start_of_line(start_of_line);
    context
}

fn highlighted(theme: &str, syntax: &str, line: &str) -> String {
    let syntaxes = SyntaxSet::load_defaults_newlines();
    let themes = ThemeSet::load_defaults();
    let syntax = syntaxes.find_syntax_by_name(syntax).unwrap();
    let mut highlighter = HighlightLines::new(syntax, &themes.themes[theme]);
    let ranges = highlighter.highlight_line(line, &syntaxes).unwrap();
    as_24_bit_terminal_escaped(&ranges[..], true)
}

#[test]
fn attributes_are_a_set() {
    let mut attributes = Attributes::new();
    assert!(attributes.is_empty());
    attributes.set(Attribute::Italic);
    attributes.set(Attribute::Italic);
    attributes.set(Attribute::Reverse);
    assert!(attributes.has(Attribute::Italic));
    assert!(attributes.has(Attribute::Reverse));
    assert!(!attributes.has(Attribute::Bold));
    assert!(!attributes.is_empty());
    attributes.unset(Attribute::Italic);
    attributes.unset(Attribute::Dim);
    assert!(!attributes.has(Attribute::Italic));
    attributes.unset(Attribute::Reverse);
    assert_eq!(attributes, Attributes::new());
}

#[test]
fn attributes_merge_as_a_union() {
    let mut first = Attributes::new();
    first.set(Attribute::Bold);
    first.set(Attribute::CrossedOut);
    let mut second = Attributes::new();
    second.set(Attribute::Bold);
    second.set(Attribute::Dim);
    let both = first.merged(&second);
    for attribute in [Attribute::Bold, Attribute::CrossedOut, Attribute::Dim] {
        assert!(both.has(attribute));
    }
    for attribute in [Attribute::Italic, Attribute::Underlined, Attribute::Reverse] {
        assert!(!both.has(attribute));
    }
    assert_eq!(first.merged(&Attributes::new()), first);
}

#[test]
fn content_style_builders() {
    let style = ContentStyle::new();
    assert_eq!(style.foreground_color, None);
    assert_eq!(style.background_color, None);
    assert!(style.attributes.is_empty());
    let style = style.with(Color::Red).on(Color::Rgb { r: 1, g: 2, b: 3 });
    assert_eq!(style.foreground_color, Some(Color::Red));
    assert_eq!(style.background_color, Some(Color::Rgb { r: 1, g: 2, b: 3 }));
    let style = style.attribute(Attribute::Dim).with(Color::AnsiValue(7));
    assert_eq!(style.foreground_color, Some(Color::AnsiValue(7)));
    assert!(style.attributes.has(Attribute::Dim));
    let mut modifiers = Attributes::new();
    modifiers.set(Attribute::Bold);
    let layered = style.layer(&modifiers);
    assert_eq!(layered.foreground_color, style.foreground_color);
    assert_eq!(layered.background_color, style.background_color);
    assert!(layered.attributes.has(Attribute::Dim));
    assert!(layered.attributes.has(Attribute::Bold));
    assert_eq!(style.layer(&Attributes::new()), style);
}

#[test]
fn apply_and_plain_make_fragments() {
    let style = white();
    assert_eq!(style.apply("x".to_string()), styled(style, "x"));
    assert_eq!(Content::plain("y".to_string()), plain("y"));
    assert_eq!(styled(style, "x").clone(), styled(style, "x"));
    assert_ne!(styled(style, "x"), plain("x"));
}

#[test]
fn block_rules_share_one_shape() {
    let style = ContentStyle::new().with(Color::Cyan);
    let mut at_start = context(2, true);
    at_start.add_modifier(Attribute::Bold);
    let inside = context(2, false);
    let bold = style.attribute(Attribute::Bold);
    assert_eq!(
        ParagraphStyle::new(style).get_styled_content("t", &at_start),
        vec![styled(bold, "    t")]
    );
    assert_eq!(
        HeadingStyle::new(style).get_styled_content("t", &at_start),
        vec![styled(bold, "    t")]
    );
    assert_eq!(
        DefaultStyle::new(style).get_styled_content("t", &at_start),
        vec![styled(bold, "    t")]
    );
    assert_eq!(CodeStyle::new(style).get_styled_content("t", &at_start), vec![styled(bold, "    t")]);
    assert_eq!(ParagraphStyle::new(style).get_styled_content("t", &inside), vec![styled(style, "t")]);
    assert_eq!(HeadingStyle::new(style).get_styled_content("t", &inside), vec![styled(style, "t")]);
    assert_eq!(DefaultStyle::new(style).get_styled_content("t", &inside), vec![styled(style, "t")]);
    assert_eq!(CodeStyle::new(style).get_styled_content("", &inside), vec![styled(style, "")]);
}

#[test]
fn block_quote_rule() {
    let rule = BlockQuoteStyle::new(white(), ">");
    let mut at_start = context(1, true);
    at_start.add_modifier(Attribute::Underlined);
    assert_eq!(
        rule.get_styled_content("q", &at_start),
        vec![styled(white().attribute(Attribute::Underlined), "  > q")]
    );
    assert_eq!(rule.get_styled_content("q", &context(1, false)), vec![styled(white(), "q")]);
    assert_eq!(rule.get_styled_content("q", &context(0, true)), vec![styled(white(), "> q")]);
}

#[test]
fn unordered_list_rule() {
    let rule = UnorderedListStyle::new(white(), "*");
    let mut at_start = context(2, true);
    at_start.add_modifier(Attribute::Bold);
    assert_eq!(
        rule.get_styled_content("item", &at_start),
        vec![styled(white(), "\n    * "), styled(white().attribute(Attribute::Bold), "item")]
    );
    assert_eq!(rule.get_styled_content("item", &context(2, false)), vec![styled(white(), "item")]);
    assert_eq!(
        rule.get_styled_content("item", &context(0, true)),
        vec![styled(white(), "\n* "), styled(white(), "item")]
    );
}

#[test]
fn ordered_list_rule() {
    let rule = OrderedListStyle::new(white(), ")");
    let mut at_start = context(1, true);
    at_start.add_modifier(Attribute::Underlined);
    assert_eq!(
        rule.get_styled_content("item", &at_start, 12),
        vec![
            styled(white(), "\n  12) "),
            styled(white().attribute(Attribute::Underlined), "item"),
        ]
    );
    assert_eq!(
        rule.get_styled_content("item", &context(1, false), 12),
        vec![styled(white(), "item")]
    );
    assert_eq!(
        rule.get_styled_content("", &context(0, true), u64::MAX),
        vec![styled(white(), "\n18446744073709551615) "), styled(white(), "")]
    );
}

#[test]
fn rule_rule() {
    let rule = RuleStyle::new(white(), "====\n");
    assert_eq!(rule.get_styled_content(), vec![styled(white(), "====\n")]);
}

#[test]
fn soft_break_rule() {
    let rule = DefaultStyle::new(white());
    assert_eq!(rule.soft_break, SoftBreak::Space);
    assert_eq!(rule.get_soft_break(), vec![styled(white(), " ")]);
    let rule = rule.with_soft_break(SoftBreak::Newline);
    assert_eq!(rule.style, white());
    assert_eq!(rule.get_soft_break(), vec![styled(white(), "\n")]);
}

#[test]
fn default_rules() {
    assert_eq!(ParagraphStyle::default().style, white());
    assert_eq!(
        HeadingStyle::default().style,
        ContentStyle::new().with(Color::Yellow).attribute(Attribute::Bold)
    );
    assert_eq!(DefaultStyle::default().style, ContentStyle::new());
    assert_eq!(DefaultStyle::default().soft_break, SoftBreak::Space);
    assert_eq!(CodeStyle::default().style, ContentStyle::new().on(Color::DarkBlue));
    assert_eq!(BlockQuoteStyle::default().style, white());
    assert_eq!(BlockQuoteStyle::default().character, "\u{2503}");
    assert_eq!(UnorderedListStyle::default().style, white());
    assert_eq!(UnorderedListStyle::default().character, "\u{2727}");
    assert_eq!(OrderedListStyle::default().style, white());
    assert_eq!(OrderedListStyle::default().character, ".");
    assert_eq!(RuleStyle::default().style, ContentStyle::new().with(Color::DarkGrey));
    assert_eq!(RuleStyle::default().rule, format!("  {}\n", "\u{2500}".repeat(80)));
    assert_eq!(DEFAULT_RULE_WIDTH, 80);
    assert_eq!(CodeBlockStyle::default().width(), 80);
    assert_eq!(DEFAULT_CODE_WIDTH, 80);
}

#[test]
fn code_block_rule_knows_the_themes_of_the_highlighter() {
    assert!(CodeBlockStyle::new(10, "base16-ocean.dark").is_some());
    assert!(CodeBlockStyle::new(10, "InspiredGitHub").is_some());
    assert!(CodeBlockStyle::new(10, "no such theme").is_none());
    assert!(CodeBlockStyle::new(10, "").is_none());
    assert_eq!(CodeBlockStyle::new(10, "base16-ocean.dark").unwrap().width(), 10);
}

#[test]
fn code_block_rule_highlights_line_by_line() {
    let rule = CodeBlockStyle::new(12, "InspiredGitHub").unwrap();
    let mut context = context(2, false);
    context.set_code_block_syntax("Rust");
    context.add_modifier(Attribute::Bold);
    let contents = rule.get_styled_content("let a = 1;\nlet bb = 22222;", &context).unwrap();
    let first = format!("    {}", highlighted("InspiredGitHub", "Rust", "let a = 1;  \n"));
    let second = format!("    {}", highlighted("InspiredGitHub", "Rust", "let bb = 22222;\n"));
    assert_eq!(contents, vec![plain(&first), plain(&second)]);
    assert_ne!(first, "    let a = 1;  \n");
    assert_eq!(rule.get_styled_content("", &context), Ok(vec![]));
}

#[test]
fn code_block_rule_differs_by_grammar_and_theme() {
    let ocean = CodeBlockStyle::default();
    let github = CodeBlockStyle::new(80, "InspiredGitHub").unwrap();
    let mut rust = context(0, true);
    rust.set_code_block_syntax("Rust");
    let mut text = context(0, true);
    text.set_code_block_syntax("Plain Text");
    let in_rust = ocean.get_styled_content("fn main() {}", &rust).unwrap();
    let in_text = ocean.get_styled_content("fn main() {}", &text).unwrap();
    let in_github = github.get_styled_content("fn main() {}", &rust).unwrap();
    assert_ne!(in_rust, in_text);
    assert_ne!(in_rust, in_github);
}

#[test]
fn code_block_rule_fails_on_an_unknown_grammar() {
    let rule = CodeBlockStyle::default();
    let mut context = context(0, true);
    context.set_code_block_syntax("Nosuchgrammar");
    assert_eq!(
        rule.get_styled_content("x", &context),
        Err(RenderError::UnknownSyntax("Nosuchgrammar".to_string()))
    );
    assert_eq!(
        rule.get_styled_content("", &context),
        Err(RenderError::UnknownSyntax("Nosuchgrammar".to_string()))
    );
    context.set_code_block_syntax("python");
    assert_eq!(
        rule.get_styled_content("x", &context),
        Err(RenderError::UnknownSyntax("python".to_string()))
    );
}

#[test]
fn style_set_clamps_the_heading_index() {
    let first = ContentStyle::new().with(Color::Red);
    let second = ContentStyle::new().with(Color::Green);
    let third = ContentStyle::new().with(Color::Blue);
    let styles = StyleSetBuilder::new()
        .heading(vec![HeadingStyle::new(first), HeadingStyle::new(second), HeadingStyle::new(third)])
        .build();
    assert_eq!(styles.heading(0).style, first);
    assert_eq!(styles.heading(1).style, second);
    assert_eq!(styles.heading(2).style, third);
    assert_eq!(styles.heading(3).style, third);
    assert_eq!(styles.heading(usize::MAX).style, third);
    assert_eq!(styles.heading_levels(), 3);
}

#[test]
fn builder_takes_what_is_chosen_and_the_default_of_the_rest() {
    let red = ContentStyle::new().with(Color::Red);
    let styles = StyleSetBuilder::new()
        .paragraph(ParagraphStyle::new(red))
        .unordered_list(UnorderedListStyle::new(red, "-"))
        .ordered_list(OrderedListStyle::new(red, ")"))
        .block_quote(BlockQuoteStyle::new(red, "|"))
        .code(CodeStyle::new(red))
        .code_block(CodeBlockStyle::new(40, "InspiredGitHub").unwrap())
        .rule(RuleStyle::new(red, "--\n"))
        .default(DefaultStyle::new(red))
        .build();
    assert_eq!(styles.paragraph().style, red);
    assert_eq!(styles.unordered_list().character, "-");
    assert_eq!(styles.ordered_list().character, ")");
    assert_eq!(styles.block_quote().character, "|");
    assert_eq!(styles.code().style, red);
    assert_eq!(styles.code_block().width(), 40);
    assert_eq!(styles.rule().rule, "--\n");
    assert_eq!(styles.default().style, red);
    assert_eq!(styles.heading_levels(), 1);
    assert_eq!(styles.heading(0).style, HeadingStyle::default().style);

    let defaults = StyleSetBuilder::new().build();
    assert_eq!(defaults.paragraph().style, white());
    assert_eq!(defaults.unordered_list().character, "\u{2727}");
    assert_eq!(defaults.ordered_list().character, ".");
    assert_eq!(defaults.block_quote().character, "\u{2503}");
    assert_eq!(defaults.code().style, ContentStyle::new().on(Color::DarkBlue));
    assert_eq!(defaults.code_block().width(), 80);
    assert_eq!(defaults.rule().rule, RuleStyle::default().rule);
    assert_eq!(defaults.default().style, ContentStyle::new());
    assert_eq!(defaults.heading_levels(), 1);
}

#[test]
fn builder_takes_an_empty_heading_table_as_none() {
    let styles = StyleSetBuilder::new().heading(vec![]).build();
    assert_eq!(styles.heading_levels(), 1);
    assert_eq!(styles.heading(5).style, HeadingStyle::default().style);
}
