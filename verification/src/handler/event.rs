//! The dispatcher: what each event of the stream does.

use super::stdout::StdoutHandler;
use super::kind::line_feeds;
use crate::context::{Context, ContextView};
use crate::error::{RenderError, RenderErrorView};
use crate::event::{DocumentEvent, DocumentEventView, StructuralKindView};
use crate::style::{content_views, Content, ContentView, StyleSet};
use vstd::prelude::*;
use vstd::string::*;

verus! {

/// The state of a render between two events: the context, and the fragments
/// emitted so far.
pub struct RenderState {
    pub context: ContextView,
    pub output: Seq<ContentView>,
}

impl RenderState {
    /// The state in which a render starts.
    pub open spec fn initial() -> RenderState {
        RenderState { context: ContextView::initial(), output: Seq::empty() }
    }
}

impl DocumentEventView {
    /// Whether the event can be handled in `context` on this machine: the
    /// indentation it leads to fits the machine's integers.
    pub open spec fn fits(self, context: ContextView) -> bool {
        self matches DocumentEventView::Start(kind) ==> kind.started(context).indentation
            <= usize::MAX
    }

    /// The state after the event, or the reason why the event cannot be
    /// rendered.
    pub open spec fn handled(self, state: RenderState, styles: StyleSet) -> Result<
        RenderState,
        RenderErrorView,
    > {
        match self {
            DocumentEventView::Start(kind) => Ok(
                RenderState { context: kind.started(state.context), output: state.output },
            ),
            DocumentEventView::End(kind) => Ok(
                RenderState {
                    context: kind.ended(state.context),
                    output: state.output + kind.end_content(),
                },
            ),
            DocumentEventView::Text(text) => match state.context.current_block.text_content(
                text,
                state.context,
                styles,
            ) {
                Ok(contents) => Ok(
                    RenderState {
                        context: ContextView { start_of_line: false, ..state.context },
                        output: state.output + contents,
                    },
                ),
                Err(error) => Err(error),
            },
            DocumentEventView::Code(text) => Ok(
                RenderState {
                    context: state.context,
                    output: state.output + styles.code_rule().styled_content(text, state.context),
                },
            ),
            DocumentEventView::SoftBreak => Ok(
                RenderState {
                    context: state.context,
                    output: state.output + styles.default_rule().soft_break_content(),
                },
            ),
            DocumentEventView::HardBreak => Ok(
                RenderState {
                    context: ContextView { start_of_line: true, ..state.context },
                    output: state.output + line_feeds(1),
                },
            ),
            DocumentEventView::Rule => Ok(
                RenderState {
                    context: ContextView { start_of_line: true, ..state.context },
                    output: state.output + styles.thematic_rule().styled_content(),
                },
            ),
            DocumentEventView::Other => Ok(state),
        }
    }
}

impl DocumentEvent {
    /// Handles one event: brings the context up to date and puts what the
    /// event emits at the end of the queue. Where a text run cannot be
    /// rendered, the context and the queue stay as they were.
    pub fn handle(
        &self,
        context: &mut Context,
        stdout: &mut StdoutHandler,
        style_set: &StyleSet,
    ) -> (done: Result<(), RenderError>)
        requires
            self@.fits(old(context)@),
        ensures
            match done {
                Ok(_) => self@.handled(
                    RenderState { context: old(context)@, output: old(stdout)@ },
                    *style_set,
                ) == Ok::<RenderState, RenderErrorView>(
                    RenderState { context: final(context)@, output: final(stdout)@ },
                ),
                Err(error) => {
                    &&& self@.handled(
                        RenderState { context: old(context)@, output: old(stdout)@ },
                        *style_set,
                    ) == Err::<RenderState, RenderErrorView>(error@)
                    &&& final(context)@ == old(context)@
                    &&& final(stdout)@ == old(stdout)@
                },
            },
    {
        match self {
            DocumentEvent::Start(kind) => {
                kind.start(context);
                Ok(())
            },
            DocumentEvent::End(kind) => {
                kind.end(context, stdout);
                Ok(())
            },
            DocumentEvent::Text(text) => {
                let block = context.current_block().clone();
                block.handle_text(context, stdout, style_set, text.as_str())
            },
            DocumentEvent::Code(text) => {
                stdout.queue_styled_content_v2(
                    style_set.code().get_styled_content(text.as_str(), context),
                );
                Ok(())
            },
            DocumentEvent::SoftBreak => {
                stdout.queue_styled_content_v2(style_set.default().get_soft_break());
                Ok(())
            },
            DocumentEvent::HardBreak => {
                proof {
                    reveal_strlit("\n");
                }
                context.set_start_of_line(true);
                let mut contents = Vec::new();
                contents.push(Content::plain("\n".to_owned()));
                assert(contents[0]@->Plain_text =~= Seq::new(1, |i: int| '\n'));
                assert(content_views(contents@) =~= line_feeds(1));
                stdout.queue_styled_content_v2(contents);
                Ok(())
            },
            DocumentEvent::Rule => {
                context.set_start_of_line(true);
                stdout.queue_styled_content_v2(style_set.rule().get_styled_content());
                Ok(())
            },
            DocumentEvent::Other => {
                assert(stdout@ =~= old(stdout)@);
                Ok(())
            },
        }
    }
}

} // verus!
