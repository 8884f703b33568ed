use markterm::error::RenderError;
use markterm::event::{CodeBlockKind, DocumentEvent, StructuralKind};
use markterm::parse::parse_markdown;
use markterm::render::render_markdown;
use markterm::style::{
    Attribute, Color, Content, ContentStyle, HeadingStyle, StyleSet, StyleSetBuilder,
    StyledContent,
};
use syntect::easy::HighlightLines;
use syntect::highlighting::ThemeSet;
use syntect::parsing::SyntaxSet;
use syntect::util::as_24_bit_terminal_escaped;

fn styled(style: ContentStyle, text: &str) -> Content {
    Content::Styled(StyledContent { style, content: text.to_string() })
}

fn plain(text: &str) -> Content {
    Content::Plain(text.to_string())
}

fn white() -> ContentStyle {
    ContentStyle::new().with(Color::White)
}

fn defaults() -> StyleSet {
    StyleSetBuilder::new().build()
}

fn highlighted(syntax: &str, line: &str) -> String {
    let syntaxes = SyntaxSet::load_defaults_newlines();
    let themes = ThemeSet::load_defaults();
    let syntax = syntaxes.find_syntax_by_name(syntax).unwrap();
    let mut highlighter = HighlightLines::new(syntax, &themes.themes["base16-ocean.dark"]);
    let ranges = highlighter.highlight_line(line, &syntaxes).unwrap();
    as_24_bit_terminal_escaped(&ranges[..], true)
}

#[test]
fn parse_heading_and_paragraph() {
    let events = parse_markdown("# Title\n\nHello *world*.");
    assert_eq!(
        events,
        vec![
            DocumentEvent::Start(StructuralKind::Heading(1)),
            DocumentEvent::Text("Title".to_string()),
            DocumentEvent::End(StructuralKind::Heading(1)),
            DocumentEvent::Start(StructuralKind::Paragraph),
            DocumentEvent::Text("Hello ".to_string()),
            DocumentEvent::Start(StructuralKind::Emphasis),
            DocumentEvent::Text("world".to_string()),
            DocumentEvent::End(StructuralKind::Emphasis),
            DocumentEvent::Text(".".to_string()),
            DocumentEvent::End(StructuralKind::Paragraph),
        ]
    );
}

#[test]
fn parse_heading_levels() {
    let events = parse_markdown("## two\n\n###### six");
    assert_eq!(events[0], DocumentEvent::Start(StructuralKind::Heading(2)));
    assert_eq!(events[2], DocumentEvent::End(StructuralKind::Heading(2)));
    assert_eq!(events[3], DocumentEvent::Start(StructuralKind::Heading(6)));
}

#[test]
fn parse_lists() {
    let events = parse_markdown("- a\n- b");
    assert_eq!(
        events,
        vec![
            DocumentEvent::Start(StructuralKind::List(None)),
            DocumentEvent::Start(StructuralKind::Item),
            DocumentEvent::Text("a".to_string()),
            DocumentEvent::End(StructuralKind::Item),
            DocumentEvent::Start(StructuralKind::Item),
            DocumentEvent::Text("b".to_string()),
            DocumentEvent::End(StructuralKind::Item),
            DocumentEvent::End(StructuralKind::List(None)),
        ]
    );
    let ordered = parse_markdown("5. a");
    assert_eq!(ordered[0], DocumentEvent::Start(StructuralKind::List(Some(5))));
}

#[test]
fn parse_code_blocks() {
    let fenced = parse_markdown("```python\nprint(1)\n```");
    assert_eq!(
        fenced,
        vec![
            DocumentEvent::Start(StructuralKind::CodeBlock(CodeBlockKind::Fenced(
                "python".to_string()
            ))),
            DocumentEvent::Text("print(1)\n".to_string()),
            DocumentEvent::End(StructuralKind::CodeBlock(CodeBlockKind::Fenced(
                "python".to_string()
            ))),
        ]
    );
    let indented = parse_markdown("    x = 1\n");
    assert_eq!(
        indented[0],
        DocumentEvent::Start(StructuralKind::CodeBlock(CodeBlockKind::Indented))
    );
}

#[test]
fn parse_breaks_rules_and_code_spans() {
    assert_eq!(
        parse_markdown("a\nb  \nc `d`\n\n---"),
        vec![
            DocumentEvent::Start(StructuralKind::Paragraph),
            DocumentEvent::Text("a".to_string()),
            DocumentEvent::SoftBreak,
            DocumentEvent::Text("b".to_string()),
            DocumentEvent::HardBreak,
            DocumentEvent::Text("c ".to_string()),
            DocumentEvent::Code("d".to_string()),
            DocumentEvent::End(StructuralKind::Paragraph),
            DocumentEvent::Rule,
        ]
    );
}

#[test]
fn parse_quotes_strong_and_unstyled_constructs() {
    assert_eq!(
        parse_markdown("> **q**"),
        vec![
            DocumentEvent::Start(StructuralKind::BlockQuote),
            DocumentEvent::Start(StructuralKind::Paragraph),
            DocumentEvent::Start(StructuralKind::Strong),
            DocumentEvent::Text("q".to_string()),
            DocumentEvent::End(StructuralKind::Strong),
            DocumentEvent::End(StructuralKind::Paragraph),
            DocumentEvent::End(StructuralKind::BlockQuote),
        ]
    );
    assert_eq!(
        parse_markdown("[t](u)"),
        vec![
            DocumentEvent::Start(StructuralKind::Paragraph),
            DocumentEvent::Start(StructuralKind::Other),
            DocumentEvent::Text("t".to_string()),
            DocumentEvent::End(StructuralKind::Other),
            DocumentEvent::End(StructuralKind::Paragraph),
        ]
    );
    assert_eq!(parse_markdown("<div>\n"), vec![DocumentEvent::Other]);
    assert_eq!(parse_markdown(""), Vec::<DocumentEvent>::new());
}

#[test]
fn title_then_paragraph_with_emphasis() {
    let contents = render_markdown("# Title\n\nHello *world*.", &defaults()).unwrap();
    let heading = ContentStyle::new().with(Color::Yellow).attribute(Attribute::Bold);
    assert_eq!(
        contents,
        vec![
            styled(heading, "Title"),
            plain("\n\n"),
            styled(white(), "Hello "),
            styled(white().attribute(Attribute::Underlined), "world"),
            styled(white(), "."),
            plain("\n\n"),
        ]
    );
}

#[test]
fn fenced_python_block_is_padded_highlighted_and_indented() {
    let contents = render_markdown("```python\nprint(1)\n```", &defaults()).unwrap();
    let line = format!("print(1){}\n", " ".repeat(72));
    let expected = format!("  {}", highlighted("Python", &line));
    assert_eq!(contents, vec![plain(&expected), plain("\n")]);
    assert!(expected.starts_with("  \u{1b}[48;2;"));
    assert!(expected.contains("print"));
    assert!(expected.ends_with("\n"));
}

#[test]
fn fenced_block_of_several_lines() {
    let contents = render_markdown("```rust\nfn f() {}\n\nlet x = 1;\n```", &defaults()).unwrap();
    let first = format!("  {}", highlighted("Rust", &format!("fn f() {{}}{}\n", " ".repeat(71))));
    let second = format!("  {}", highlighted("Rust", &format!("{}\n", " ".repeat(80))));
    let third = format!("  {}", highlighted("Rust", &format!("let x = 1;{}\n", " ".repeat(70))));
    assert_eq!(contents, vec![plain(&first), plain(&second), plain(&third), plain("\n")]);
}

#[test]
fn fenced_block_with_unknown_grammar_fails_with_its_name() {
    let outcome = render_markdown("```nosuchgrammar\nx\n```", &defaults());
    assert_eq!(outcome, Err(RenderError::UnknownSyntax("Nosuchgrammar".to_string())));
}

#[test]
fn fenced_block_without_info_names_no_grammar() {
    let outcome = render_markdown("```\nx\n```", &defaults());
    assert_eq!(outcome, Err(RenderError::UnknownSyntax("".to_string())));
}

#[test]
fn indented_code_is_plain_text() {
    let contents = render_markdown("    x = 1\n", &defaults()).unwrap();
    let line = format!("x = 1{}\n", " ".repeat(75));
    let expected = format!("  {}", highlighted("Plain Text", &line));
    assert_eq!(contents, vec![plain(&expected), plain("\n")]);
}

#[test]
fn unordered_list_of_two_items() {
    let contents = render_markdown("- a\n- b", &defaults()).unwrap();
    assert_eq!(
        contents,
        vec![
            styled(white(), "\n  \u{2727} "),
            styled(white(), "a"),
            styled(white(), "\n  \u{2727} "),
            styled(white(), "b"),
            plain("\n"),
        ]
    );
}

#[test]
fn ordered_list_counts_from_its_first_number() {
    let contents = render_markdown("3. a\n4. b\n5. c", &defaults()).unwrap();
    assert_eq!(
        contents,
        vec![
            styled(white(), "\n  3. "),
            styled(white(), "a"),
            styled(white(), "\n  4. "),
            styled(white(), "b"),
            styled(white(), "\n  5. "),
            styled(white(), "c"),
            plain("\n"),
        ]
    );
}

#[test]
fn ordered_list_counts_by_itself() {
    let contents = render_markdown("1. a\n1. *b* c\n1. d", &defaults()).unwrap();
    assert_eq!(
        contents,
        vec![
            styled(white(), "\n  1. "),
            styled(white(), "a"),
            styled(white(), "\n  2. "),
            styled(white().attribute(Attribute::Underlined), "b"),
            styled(white(), " c"),
            styled(white(), "\n  3. "),
            styled(white(), "d"),
            plain("\n"),
        ]
    );
}

#[test]
fn nested_list_is_one_level_deeper() {
    let contents = render_markdown("- a\n  - b\n- c", &defaults()).unwrap();
    assert_eq!(
        contents,
        vec![
            styled(white(), "\n  \u{2727} "),
            styled(white(), "a"),
            styled(white(), "\n    \u{2727} "),
            styled(white(), "b"),
            plain("\n"),
            styled(white(), "\n  \u{2727} "),
            styled(white(), "c"),
            plain("\n"),
        ]
    );
}

#[test]
fn two_plain_paragraphs() {
    let contents = render_markdown("first\n\nsecond", &defaults()).unwrap();
    assert_eq!(
        contents,
        vec![
            styled(white(), "first"),
            plain("\n\n"),
            styled(white(), "second"),
            plain("\n\n"),
        ]
    );
}

#[test]
fn plain_paragraphs_of_several_lines() {
    let contents = render_markdown("one\ntwo\n\nthree\nfour\nfive", &defaults()).unwrap();
    assert_eq!(
        contents,
        vec![
            styled(white(), "one"),
            styled(ContentStyle::new(), " "),
            styled(white(), "two"),
            plain("\n\n"),
            styled(white(), "three"),
            styled(ContentStyle::new(), " "),
            styled(white(), "four"),
            styled(ContentStyle::new(), " "),
            styled(white(), "five"),
            plain("\n\n"),
        ]
    );
}

#[test]
fn block_quote_marks_its_first_line() {
    let contents = render_markdown("> quoted *text*", &defaults()).unwrap();
    assert_eq!(
        contents,
        vec![
            styled(white(), "\u{2503} quoted "),
            styled(white().attribute(Attribute::Underlined), "text"),
            plain("\n\n"),
            plain("\n"),
        ]
    );
}

#[test]
fn breaks_and_code_spans() {
    let contents = render_markdown("a\nb  \nc `d` **e**", &defaults()).unwrap();
    assert_eq!(
        contents,
        vec![
            styled(white(), "a"),
            styled(ContentStyle::new(), " "),
            styled(white(), "b"),
            plain("\n"),
            styled(white(), "c "),
            styled(ContentStyle::new().on(Color::DarkBlue), "d"),
            styled(white(), " "),
            styled(white().attribute(Attribute::Bold), "e"),
            plain("\n\n"),
        ]
    );
}

#[test]
fn thematic_rule_draws_the_default_line() {
    let contents = render_markdown("---", &defaults()).unwrap();
    let line = format!("  {}\n", "\u{2500}".repeat(80));
    assert_eq!(contents, vec![styled(ContentStyle::new().with(Color::DarkGrey), &line)]);
}

#[test]
fn unstyled_constructs_are_passed_over() {
    let contents = render_markdown("see [the *docs*](http://example.org)", &defaults()).unwrap();
    assert_eq!(
        contents,
        vec![
            styled(white(), "see "),
            styled(white(), "the "),
            styled(white().attribute(Attribute::Underlined), "docs"),
            plain("\n\n"),
        ]
    );
    assert_eq!(render_markdown("<div>\n", &defaults()), Ok(vec![]));
}

#[test]
fn heading_levels_beyond_the_table_use_its_last_rule() {
    let first = ContentStyle::new().with(Color::Red);
    let last = ContentStyle::new().with(Color::Green).attribute(Attribute::Italic);
    let styles = StyleSetBuilder::new()
        .heading(vec![HeadingStyle::new(first), HeadingStyle::new(last)])
        .build();
    assert_eq!(
        render_markdown("# t", &styles).unwrap(),
        vec![styled(first, "t"), plain("\n\n")]
    );
    let second = render_markdown("## t", &styles).unwrap();
    assert_eq!(second, vec![styled(last, "t"), plain("\n\n")]);
    assert_eq!(render_markdown("### t", &styles).unwrap(), second);
    assert_eq!(render_markdown("###### t", &styles).unwrap(), second);
}

#[test]
fn empty_document_renders_nothing() {
    assert_eq!(render_markdown("", &defaults()), Ok(vec![]));
}
