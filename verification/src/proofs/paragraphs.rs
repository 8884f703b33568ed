//! Documents that are made of plain paragraphs only.

use crate::error::RenderErrorView;
use crate::event::{DocumentEventView, StructuralKindView};
use crate::handler::kind::line_feeds;
use crate::handler::RenderState;
use crate::render::{lemma_rendered_add, rendered, rendered_output};
use crate::style::{Attributes, ContentView, StyleSet};
use crate::text::margin;
use vstd::prelude::*;

verus! {

/// The events of the text of a plain paragraph: one run of text for each of
/// its lines, and a soft break between each two.
pub open spec fn line_events(lines: Seq<Seq<char>>) -> Seq<DocumentEventView>
    decreases lines.len(),
{
    if lines.len() == 0 {
        Seq::empty()
    } else if lines.len() == 1 {
        seq![DocumentEventView::Text(lines[0])]
    } else {
        seq![DocumentEventView::Text(lines[0]), DocumentEventView::SoftBreak] + line_events(
            lines.drop_first(),
        )
    }
}

/// What the text of a plain paragraph comes out as: each line as it is, in
/// the style of the paragraph rule, and between each two lines what the
/// default rule shows for a soft break.
pub open spec fn line_output(lines: Seq<Seq<char>>, styles: StyleSet) -> Seq<ContentView>
    decreases lines.len(),
{
    if lines.len() == 0 {
        Seq::empty()
    } else if lines.len() == 1 {
        seq![ContentView::Styled { style: styles.paragraph_rule().style, text: lines[0] }]
    } else {
        seq![ContentView::Styled { style: styles.paragraph_rule().style, text: lines[0] }]
            + styles.default_rule().soft_break_content() + line_output(lines.drop_first(), styles)
    }
}

/// The events of a document of plain paragraphs, each given by its lines:
/// each paragraph opens, has its text, and closes.
pub open spec fn paragraph_events(paragraphs: Seq<Seq<Seq<char>>>) -> Seq<DocumentEventView>
    decreases paragraphs.len(),
{
    if paragraphs.len() == 0 {
        Seq::empty()
    } else {
        seq![DocumentEventView::Start(StructuralKindView::Paragraph)] + (line_events(paragraphs[0])
            + (seq![DocumentEventView::End(StructuralKindView::Paragraph)] + paragraph_events(
            paragraphs.drop_first(),
        )))
    }
}

/// What a document of plain paragraphs comes out as: for each paragraph its
/// text, with nothing before it, and then one blank line.
pub open spec fn paragraph_output(paragraphs: Seq<Seq<Seq<char>>>, styles: StyleSet) -> Seq<
    ContentView,
>
    decreases paragraphs.len(),
{
    if paragraphs.len() == 0 {
        Seq::empty()
    } else {
        line_output(paragraphs[0], styles) + line_feeds(2) + paragraph_output(
            paragraphs.drop_first(),
            styles,
        )
    }
}

/// Handling one event is handling the run that holds it alone.
pub proof fn lemma_rendered_one(event: DocumentEventView, state: RenderState, styles: StyleSet)
    ensures
        rendered(seq![event], state, styles) == event.handled(state, styles),
{
    let events = seq![event];
    assert(events[0] == event);
    assert(events.drop_first() =~= Seq::<DocumentEventView>::empty());
    match event.handled(state, styles) {
        Ok(next) => {
            assert(rendered(events.drop_first(), next, styles) == Ok::<
                RenderState,
                RenderErrorView,
            >(next));
        },
        Err(_) => {},
    }
}

/// In a paragraph at the left edge with no modifier in force, the lines of a
/// plain text come out as `line_output` says, whether or not the first of
/// them begins a line of the output; and nothing of the context changes but
/// that the line has begun.
pub proof fn lemma_lines_from(lines: Seq<Seq<char>>, state: RenderState, styles: StyleSet)
    requires
        state.context.current_block == StructuralKindView::Paragraph,
        state.context.indentation == 0,
        state.context.modifiers == Attributes::empty(),
    ensures
        rendered(line_events(lines), state, styles) matches Ok(after) && {
            &&& after.output == state.output + line_output(lines, styles)
            &&& after.context.current_block == StructuralKindView::Paragraph
            &&& after.context.indentation == 0
            &&& after.context.modifiers == Attributes::empty()
        },
    decreases lines.len(),
{
    let events = line_events(lines);
    if lines.len() == 0 {
        assert(state.output + line_output(lines, styles) =~= state.output);
    } else {
        assert(margin(0) + lines[0] =~= lines[0]);
        assert(styles.paragraph_rule().style.layered(Attributes::empty())
            == styles.paragraph_rule().style);
        let written = DocumentEventView::Text(lines[0]).handled(state, styles)->Ok_0;
        if lines.len() == 1 {
            lemma_rendered_one(events[0], state, styles);
        } else {
            let rest = line_events(lines.drop_first());
            let after_text = events.drop_first();
            assert(after_text =~= seq![DocumentEventView::SoftBreak] + rest);
            assert(after_text.drop_first() =~= rest);
            let broken = after_text[0].handled(written, styles)->Ok_0;
            assert(rendered(events, state, styles) == rendered(after_text, written, styles));
            assert(rendered(after_text, written, styles) == rendered(rest, broken, styles));
            lemma_lines_from(lines.drop_first(), broken, styles);
            assert(broken.output + line_output(lines.drop_first(), styles) =~= state.output
                + line_output(lines, styles));
        }
    }
}

/// From any state at the left edge, outside a block quote and with no
/// modifier in force, plain paragraphs come out as `paragraph_output` says,
/// and leave the indentation and the modifiers as they were.
pub proof fn lemma_paragraphs_from(
    paragraphs: Seq<Seq<Seq<char>>>,
    state: RenderState,
    styles: StyleSet,
)
    requires
        state.context.indentation == 0,
        state.context.modifiers == Attributes::empty(),
        !(state.context.current_block is BlockQuote),
    ensures
        rendered(paragraph_events(paragraphs), state, styles) matches Ok(after) && {
            &&& after.output == state.output + paragraph_output(paragraphs, styles)
            &&& after.context.indentation == 0
            &&& after.context.modifiers == Attributes::empty()
            &&& !(after.context.current_block is BlockQuote)
        },
    decreases paragraphs.len(),
{
    if paragraphs.len() == 0 {
        assert(state.output + paragraph_output(paragraphs, styles) =~= state.output);
    } else {
        let start = seq![DocumentEventView::Start(StructuralKindView::Paragraph)];
        let text = line_events(paragraphs[0]);
        let end = seq![DocumentEventView::End(StructuralKindView::Paragraph)];
        let rest = paragraph_events(paragraphs.drop_first());

        lemma_rendered_add(start, text + (end + rest), state, styles);
        lemma_rendered_one(start[0], state, styles);
        let opened = start[0].handled(state, styles)->Ok_0;

        lemma_rendered_add(text, end + rest, opened, styles);
        lemma_lines_from(paragraphs[0], opened, styles);
        let written = rendered(text, opened, styles)->Ok_0;

        lemma_rendered_add(end, rest, written, styles);
        lemma_rendered_one(end[0], written, styles);
        let closed = end[0].handled(written, styles)->Ok_0;

        lemma_paragraphs_from(paragraphs.drop_first(), closed, styles);
        assert(closed.output + paragraph_output(paragraphs.drop_first(), styles) =~= state.output
            + paragraph_output(paragraphs, styles));
    }
}

/// A document of plain paragraphs only comes out as the text of each
/// paragraph followed by exactly one blank line, with no indentation before
/// any line of it.
pub proof fn lemma_plain_paragraphs(paragraphs: Seq<Seq<Seq<char>>>, styles: StyleSet)
    ensures
        rendered_output(paragraph_events(paragraphs), styles) == Ok::<
            Seq<ContentView>,
            RenderErrorView,
        >(paragraph_output(paragraphs, styles)),
{
    lemma_paragraphs_from(paragraphs, RenderState::initial(), styles);
    assert(RenderState::initial().output + paragraph_output(paragraphs, styles)
        =~= paragraph_output(paragraphs, styles));
}

} // verus!
