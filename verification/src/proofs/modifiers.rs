//! Inline modifiers: emphasis and strong text, opened and closed in any
//! order.

use crate::event::{DocumentEventView, StructuralKindView};
use crate::handler::RenderState;
use crate::render::rendered;
use crate::style::{Attribute, Attributes, StyleSet};
use vstd::prelude::*;

verus! {

/// Whether the event opens or closes emphasis or strong text.
pub open spec fn is_modifier_event(event: DocumentEventView) -> bool {
    ||| event == DocumentEventView::Start(StructuralKindView::Emphasis)
    ||| event == DocumentEventView::End(StructuralKindView::Emphasis)
    ||| event == DocumentEventView::Start(StructuralKindView::Strong)
    ||| event == DocumentEventView::End(StructuralKindView::Strong)
}

/// Whether each construct of kind `kind` that opens in `events` closes later
/// in `events`.
pub open spec fn all_closed(events: Seq<DocumentEventView>, kind: StructuralKindView) -> bool {
    forall|i: int|
        0 <= i < events.len() && #[trigger] events[i] == DocumentEventView::Start(kind) ==> exists|j: int|
            i < j < events.len() && #[trigger] events[j] == DocumentEventView::End(kind)
}

/// Whether a construct of kind `kind` is open after `events`, where `open`
/// says whether one was open before: the last of the events that opens or
/// closes one decides.
pub open spec fn open_after(
    events: Seq<DocumentEventView>,
    kind: StructuralKindView,
    open: bool,
) -> bool
    decreases events.len(),
{
    if events.len() == 0 {
        open
    } else {
        open_after(
            events.drop_first(),
            kind,
            if events[0] == DocumentEventView::Start(kind) {
                true
            } else if events[0] == DocumentEventView::End(kind) {
                false
            } else {
                open
            },
        )
    }
}

/// Where every construct that opens also closes, and one that was open
/// before closes too, none is open in the end.
pub proof fn lemma_all_closed(events: Seq<DocumentEventView>, kind: StructuralKindView, open: bool)
    requires
        all_closed(events, kind),
        open ==> exists|j: int| 0 <= j < events.len() && #[trigger] events[j] == DocumentEventView::End(kind),
    ensures
        !open_after(events, kind, open),
    decreases events.len(),
{
    if events.len() > 0 {
        let rest = events.drop_first();
        let next = if events[0] == DocumentEventView::Start(kind) {
            true
        } else if events[0] == DocumentEventView::End(kind) {
            false
        } else {
            open
        };
        assert forall|i: int|
            0 <= i < rest.len() && #[trigger] rest[i] == DocumentEventView::Start(kind) implies exists|
            j: int,
        | i < j < rest.len() && #[trigger] rest[j] == DocumentEventView::End(kind) by {
            assert(events[i + 1] == DocumentEventView::Start(kind));
            let j = choose|j: int|
                i + 1 < j < events.len() && #[trigger] events[j] == DocumentEventView::End(kind);
            assert(rest[j - 1] == DocumentEventView::End(kind));
        }
        if next {
            if events[0] == DocumentEventView::Start(kind) {
                let j = choose|j: int|
                    0 < j < events.len() && #[trigger] events[j] == DocumentEventView::End(kind);
                assert(rest[j - 1] == DocumentEventView::End(kind));
            } else {
                let j = choose|j: int|
                    0 <= j < events.len() && #[trigger] events[j] == DocumentEventView::End(kind);
                assert(j != 0);
                assert(rest[j - 1] == DocumentEventView::End(kind));
            }
        }
        lemma_all_closed(rest, kind, next);
    }
}

/// Events that open and close emphasis and strong text always succeed, emit
/// nothing, and touch nothing of the context but the two modifiers: each is
/// in force afterwards exactly when its construct is open.
pub proof fn lemma_modifier_events(
    events: Seq<DocumentEventView>,
    state: RenderState,
    styles: StyleSet,
)
    requires
        forall|i: int| 0 <= i < events.len() ==> is_modifier_event(#[trigger] events[i]),
    ensures
        rendered(events, state, styles) == Ok::<RenderState, crate::error::RenderErrorView>(
            RenderState {
                context: crate::context::ContextView {
                    modifiers: Attributes {
                        underlined: open_after(
                            events,
                            StructuralKindView::Emphasis,
                            state.context.modifiers.underlined,
                        ),
                        bold: open_after(
                            events,
                            StructuralKindView::Strong,
                            state.context.modifiers.bold,
                        ),
                        ..state.context.modifiers
                    },
                    ..state.context
                },
                output: state.output,
            },
        ),
    decreases events.len(),
{
    if events.len() > 0 {
        let rest = events.drop_first();
        assert(is_modifier_event(events[0]));
        let next = events[0].handled(state, styles)->Ok_0;
        assert(next.output =~= state.output);
        assert forall|i: int| 0 <= i < rest.len() implies is_modifier_event(#[trigger] rest[i]) by {
            assert(rest[i] == events[i + 1]);
        }
        lemma_modifier_events(rest, next, styles);
    }
}

/// However emphasis and strong text are opened and closed, once each one
/// that was opened has been closed, no modifier is in force.
pub proof fn lemma_closed_modifiers_leave_none(
    events: Seq<DocumentEventView>,
    state: RenderState,
    styles: StyleSet,
)
    requires
        forall|i: int| 0 <= i < events.len() ==> is_modifier_event(#[trigger] events[i]),
        all_closed(events, StructuralKindView::Emphasis),
        all_closed(events, StructuralKindView::Strong),
        state.context.modifiers@ == Set::<Attribute>::empty(),
    ensures
        rendered(events, state, styles) matches Ok(after) && after.context.modifiers@
            == Set::<Attribute>::empty(),
{
    state.context.modifiers.lemma_view_injective(Attributes::empty());
    assert(Attributes::empty()@ =~= Set::<Attribute>::empty());
    lemma_modifier_events(events, state, styles);
    lemma_all_closed(events, StructuralKindView::Emphasis, false);
    lemma_all_closed(events, StructuralKindView::Strong, false);
    let after = rendered(events, state, styles)->Ok_0;
    assert(after.context.modifiers == Attributes::empty());
}

} // verus!
