//! A whole render: the events of a document, handled one after the other.

use crate::context::Context;
use crate::error::{RenderError, RenderErrorView};
use crate::event::{event_views, DocumentEvent, DocumentEventView};
use crate::handler::{RenderState, StdoutHandler};
use crate::parse::{markdown_events, parse_markdown};
use crate::style::{content_views, Content, ContentView, StyleSet};
use vstd::prelude::*;

verus! {

/// The state after `events` have been handled in their order, starting in
/// `state`; or the reason why the first event that cannot be rendered fails.
pub open spec fn rendered(
    events: Seq<DocumentEventView>,
    state: RenderState,
    styles: StyleSet,
) -> Result<RenderState, RenderErrorView>
    decreases events.len(),
{
    if events.len() == 0 {
        Ok(state)
    } else {
        match events[0].handled(state, styles) {
            Ok(next) => rendered(events.drop_first(), next, styles),
            Err(error) => Err(error),
        }
    }
}

/// The fragments of a document, in the order in which its events emit them;
/// or the reason why the render fails.
pub open spec fn rendered_output(events: Seq<DocumentEventView>, styles: StyleSet) -> Result<
    Seq<ContentView>,
    RenderErrorView,
> {
    match rendered(events, RenderState::initial(), styles) {
        Ok(state) => Ok(state.output),
        Err(error) => Err(error),
    }
}

/// An event raises the indentation by one level at most, or sets it to that
/// of a list that stands alone.
pub proof fn lemma_indentation_step(
    event: DocumentEventView,
    state: RenderState,
    styles: StyleSet,
)
    ensures
        event.handled(state, styles) matches Ok(next) ==> next.context.indentation
            <= state.context.indentation + 1,
{
}

/// Whether the event opens a code block.
pub open spec fn opens_code_block(event: DocumentEventView) -> bool {
    event matches DocumentEventView::Start(kind) && kind is CodeBlock
}

/// Only the text of a code block can fail to render: events of which none
/// opens a code block, handled from a state outside any code block, always
/// succeed.
pub proof fn lemma_renders_without_code_blocks(
    events: Seq<DocumentEventView>,
    state: RenderState,
    styles: StyleSet,
)
    requires
        !(state.context.current_block is CodeBlock),
        forall|i: int| 0 <= i < events.len() ==> !opens_code_block(#[trigger] events[i]),
    ensures
        rendered(events, state, styles) matches Ok(after) && !(after.context.current_block
            is CodeBlock),
    decreases events.len(),
{
    if events.len() > 0 {
        let rest = events.drop_first();
        assert(!opens_code_block(events[0]));
        let next = events[0].handled(state, styles)->Ok_0;
        assert forall|i: int| 0 <= i < rest.len() implies !opens_code_block(#[trigger] rest[i]) by {
            assert(rest[i] == events[i + 1]);
        }
        lemma_renders_without_code_blocks(rest, next, styles);
    }
}

/// Whether `first` is the beginning of `second`.
pub open spec fn is_prefix(first: Seq<ContentView>, second: Seq<ContentView>) -> bool {
    first.len() <= second.len() && second.subrange(0, first.len() as int) == first
}

/// Events only add to the output: the fragments that were emitted before
/// stay where they are and as they are.
pub proof fn lemma_output_grows(
    events: Seq<DocumentEventView>,
    state: RenderState,
    styles: StyleSet,
)
    ensures
        rendered(events, state, styles) matches Ok(after) ==> is_prefix(state.output, after.output),
    decreases events.len(),
{
    if events.len() == 0 {
        assert(state.output.subrange(0, state.output.len() as int) =~= state.output);
    } else {
        match events[0].handled(state, styles) {
            Ok(next) => {
                assert(is_prefix(state.output, next.output)) by {
                    assert(next.output.subrange(0, state.output.len() as int) =~= state.output);
                }
                lemma_output_grows(events.drop_first(), next, styles);
                match rendered(events.drop_first(), next, styles) {
                    Ok(after) => {
                        assert(after.output.subrange(0, state.output.len() as int)
                            =~= next.output.subrange(0, state.output.len() as int)) by {
                            assert(after.output.subrange(0, next.output.len() as int)
                                == next.output);
                            assert forall|i: int| 0 <= i < state.output.len() implies after.output[i]
                                == next.output[i] by {
                                assert(after.output.subrange(0, next.output.len() as int)[i]
                                    == after.output[i]);
                            }
                        }
                    },
                    Err(_) => {},
                }
            },
            Err(_) => {},
        }
    }
}

/// Handling a run of events and then another is handling the two runs joined.
pub proof fn lemma_rendered_add(
    first: Seq<DocumentEventView>,
    second: Seq<DocumentEventView>,
    state: RenderState,
    styles: StyleSet,
)
    ensures
        rendered(first + second, state, styles) == match rendered(first, state, styles) {
            Ok(middle) => rendered(second, middle, styles),
            Err(error) => Err(error),
        },
    decreases first.len(),
{
    if first.len() == 0 {
        assert(first + second =~= second);
    } else {
        assert((first + second)[0] == first[0]);
        assert((first + second).drop_first() =~= first.drop_first() + second);
        match first[0].handled(state, styles) {
            Ok(next) => {
                lemma_rendered_add(first.drop_first(), second, next, styles);
            },
            Err(_) => {},
        }
    }
}

/// Renders a document: handles its events one after the other, from the
/// start of a fresh context, and hands out the fragments in the order in
/// which they were emitted. The render stops at the first text run that
/// cannot be rendered, with the reason.
pub fn render(events: &Vec<DocumentEvent>, style_set: &StyleSet) -> (out: Result<
    Vec<Content>,
    RenderError,
>)
    ensures
        match out {
            Ok(contents) => rendered_output(event_views(events@), *style_set) == Ok::<
                Seq<ContentView>,
                RenderErrorView,
            >(content_views(contents@)),
            Err(error) => rendered_output(event_views(events@), *style_set) == Err::<
                Seq<ContentView>,
                RenderErrorView,
            >(error@),
        },
{
    let mut context = Context::default();
    let mut stdout = StdoutHandler::default();
    let ghost views = event_views(events@);
    let mut next: usize = 0;
    assert(views.subrange(0, views.len() as int) =~= views);
    while next < events.len()
        invariant
            next <= events.len(),
            views == event_views(events@),
            context@.indentation <= next,
            rendered(
                views.subrange(next as int, views.len() as int),
                RenderState { context: context@, output: stdout@ },
                *style_set,
            ) == rendered(views, RenderState::initial(), *style_set),
        decreases events.len() - next,
    {
        let ghost before = RenderState { context: context@, output: stdout@ };
        let ghost rest = views.subrange(next as int, views.len() as int);
        proof {
            assert(rest[0] == events[next as int]@);
            assert(rest.drop_first() =~= views.subrange(next + 1, views.len() as int));
            lemma_indentation_step(events[next as int]@, before, *style_set);
        }
        match events[next].handle(&mut context, &mut stdout, style_set) {
            Ok(_) => {},
            Err(error) => {
                return Err(error);
            },
        }
        next = next + 1;
    }
    let contents = stdout.flush();
    Ok(contents)
}

/// Renders a Markdown document: reads it as a stream of events and renders
/// those.
pub fn render_markdown(text: &str, style_set: &StyleSet) -> (out: Result<
    Vec<Content>,
    RenderError,
>)
    ensures
        match out {
            Ok(contents) => rendered_output(markdown_events(text@), *style_set) == Ok::<
                Seq<ContentView>,
                RenderErrorView,
            >(content_views(contents@)),
            Err(error) => rendered_output(markdown_events(text@), *style_set) == Err::<
                Seq<ContentView>,
                RenderErrorView,
            >(error@),
        },
{
    let events = parse_markdown(text);
    render(&events, style_set)
}

} // verus!
