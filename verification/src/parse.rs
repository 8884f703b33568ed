//! The binding to the Markdown parser, and the conversion of its events into
//! those of this library. The parser's types are opaque here; what is known
//! of them is what the trusted functions of this file state.

use crate::event::{
    event_views, CodeBlockKind, DocumentEvent, DocumentEventView, StructuralKind,
    StructuralKindView,
};
use pulldown_cmark::{
    CodeBlockKind as ParserCodeBlockKind, Event as ParserEvent, Options, Parser, Tag as ParserTag,
};
use vstd::prelude::*;

verus! {

/// An event as the parser yields it.
#[verifier::external_type_specification]
#[verifier::external_body]
pub struct ExParserEvent<'a>(pulldown_cmark::Event<'a>);

/// A tag as the parser's events hold it.
#[verifier::external_type_specification]
#[verifier::external_body]
pub struct ExParserTag<'a>(pulldown_cmark::Tag<'a>);

/// The events that the parser yields for a document, with no extension
/// switched on.
pub uninterp spec fn parsed_events(text: Seq<char>) -> Seq<pulldown_cmark::Event<'static>>;

/// The tag that an event of the parser holds: a start and an end hold one,
/// no other event does.
pub uninterp spec fn parsed_tag(event: pulldown_cmark::Event<'static>) -> Option<
    pulldown_cmark::Tag<'static>,
>;

/// The structural kind that stands for a tag of the parser.
pub uninterp spec fn tag_model(tag: pulldown_cmark::Tag<'static>) -> StructuralKindView;

/// The event that stands for an event of the parser, where `tag` stands for
/// the tag it holds.
pub uninterp spec fn event_model(
    event: pulldown_cmark::Event<'static>,
    tag: StructuralKindView,
) -> DocumentEventView;

/// `Parser::new_ext` with `Options::empty()`, run to its end. The parser
/// reads nothing but the text, so the contract names the events as depending
/// on the text alone.
#[verifier::external_body]
fn parse_events<'a>(text: &'a str) -> (events: Vec<pulldown_cmark::Event<'a>>)
    ensures
        events@ == parsed_events(text@),
{
    Parser::new_ext(text, Options::empty()).collect()
}

/// The tag that `Event::Start` and `Event::End` of the parser hold.
#[verifier::external_body]
fn event_tag<'e, 'a>(event: &'e pulldown_cmark::Event<'a>) -> (tag: Option<
    &'e pulldown_cmark::Tag<'a>,
>)
    ensures
        match tag {
            Some(tag) => parsed_tag(*event) == Some(*tag),
            None => parsed_tag(*event) is None,
        },
{
    match event {
        ParserEvent::Start(tag) | ParserEvent::End(tag) => Some(tag),
        _ => None,
    }
}

/// Tells the variants of the parser's `Tag` apart, one structural kind for
/// each that this library styles and `Other` for the rest. A heading keeps
/// the number of its level, a fenced code block its info string, a list the
/// number of its first item.
#[verifier::external_body]
fn convert_tag(tag: &pulldown_cmark::Tag<'_>) -> (kind: StructuralKind)
    ensures
        kind@ == tag_model(*tag),
{
    match tag {
        ParserTag::Paragraph => StructuralKind::Paragraph,
        ParserTag::Heading(level, ..) => StructuralKind::Heading(*level as usize),
        ParserTag::BlockQuote => StructuralKind::BlockQuote,
        ParserTag::CodeBlock(ParserCodeBlockKind::Indented) => StructuralKind::CodeBlock(CodeBlockKind::Indented),
        ParserTag::CodeBlock(ParserCodeBlockKind::Fenced(info)) => StructuralKind::CodeBlock(CodeBlockKind::Fenced(info.to_string())),
        ParserTag::List(first) => StructuralKind::List(*first),
        ParserTag::Item => StructuralKind::Item,
        ParserTag::Emphasis => StructuralKind::Emphasis,
        ParserTag::Strong => StructuralKind::Strong,
        _ => StructuralKind::Other,
    }
}

/// Tells the variants of the parser's `Event` apart, one event for each
/// that this library renders and `Other` for the rest. A start and an end
/// take `tag`, which stands for the tag they hold; text and code keep their
/// characters.
#[verifier::external_body]
fn convert_event(event: &pulldown_cmark::Event<'_>, tag: StructuralKind) -> (converted:
    DocumentEvent)
    ensures
        converted@ == event_model(*event, tag@),
{
    match event {
        ParserEvent::Start(_) => DocumentEvent::Start(tag),
        ParserEvent::End(_) => DocumentEvent::End(tag),
        ParserEvent::Text(text) => DocumentEvent::Text(text.to_string()),
        ParserEvent::Code(text) => DocumentEvent::Code(text.to_string()),
        ParserEvent::SoftBreak => DocumentEvent::SoftBreak,
        ParserEvent::HardBreak => DocumentEvent::HardBreak,
        ParserEvent::Rule => DocumentEvent::Rule,
        _ => DocumentEvent::Other,
    }
}

/// The event of this library that stands for an event of the parser.
pub open spec fn converted_event(event: pulldown_cmark::Event<'static>) -> DocumentEventView {
    event_model(
        event,
        match parsed_tag(event) {
            Some(tag) => tag_model(tag),
            None => StructuralKindView::Other,
        },
    )
}

/// The events of a Markdown document.
pub open spec fn markdown_events(text: Seq<char>) -> Seq<DocumentEventView> {
    parsed_events(text).map_values(|event: pulldown_cmark::Event<'static>| converted_event(event))
}

/// Reads a Markdown document as a stream of events.
pub fn parse_markdown(text: &str) -> (events: Vec<DocumentEvent>)
    ensures
        event_views(events@) == markdown_events(text@),
{
    let parsed = parse_events(text);
    let mut events: Vec<DocumentEvent> = Vec::new();
    let mut next: usize = 0;
    while next < parsed.len()
        invariant
            next <= parsed.len(),
            parsed@ == parsed_events(text@),
            events.len() == next,
            forall|i: int| 0 <= i < next ==> (#[trigger] events[i])@ == converted_event(parsed[i]),
        decreases parsed.len() - next,
    {
        let tag = match event_tag(&parsed[next]) {
            Some(tag) => convert_tag(tag),
            None => StructuralKind::Other,
        };
        events.push(convert_event(&parsed[next], tag));
        next = next + 1;
    }
    assert(event_views(events@) =~= markdown_events(text@));
    events
}

} // verus!
