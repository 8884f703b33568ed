//! Lists: what nesting does to the indentation, and how ordered lists count.

use crate::event::{DocumentEventView, StructuralKindView};
use crate::handler::kind::{next_order_of, outdented};
use crate::handler::{RenderState, LIST_BASE_INDENTATION};
use crate::render::{lemma_rendered_add, rendered};
use crate::style::StyleSet;
use vstd::prelude::*;

verus! {

/// The events that open one list after the other, one for each entry of
/// `lists`, which holds the first number of an ordered list and `None` for an
/// unordered one.
pub open spec fn list_starts(lists: Seq<Option<u64>>) -> Seq<DocumentEventView> {
    lists.map_values(|first: Option<u64>| DocumentEventView::Start(StructuralKindView::List(first)))
}

/// The events that close one list after the other, one for each entry of
/// `lists`.
pub open spec fn list_ends(lists: Seq<Option<u64>>) -> Seq<DocumentEventView> {
    lists.map_values(|first: Option<u64>| DocumentEventView::End(StructuralKindView::List(first)))
}

/// The indentation after lists have been entered one inside the other: one
/// level for each list above the indentation of a list that encloses them
/// all, or counted from the base where no list encloses them.
pub open spec fn nested_indentation(state: RenderState, depth: nat) -> nat {
    if depth == 0 {
        state.context.indentation
    } else if state.context.current_block is List {
        state.context.indentation + depth
    } else {
        (LIST_BASE_INDENTATION + depth - 1) as nat
    }
}

/// Entering lists one inside the other always succeeds, emits nothing, and
/// leaves the indentation at `nested_indentation`.
pub proof fn lemma_enter_lists(lists: Seq<Option<u64>>, state: RenderState, styles: StyleSet)
    ensures
        rendered(list_starts(lists), state, styles) matches Ok(inside) && {
            &&& inside.context.indentation == nested_indentation(state, lists.len())
            &&& inside.output == state.output
            &&& lists.len() > 0 ==> inside.context.current_block is List
        },
    decreases lists.len(),
{
    let events = list_starts(lists);
    if lists.len() > 0 {
        let next = events[0].handled(state, styles)->Ok_0;
        assert(events.drop_first() =~= list_starts(lists.drop_first()));
        lemma_enter_lists(lists.drop_first(), next, styles);
    }
}

/// Leaving lists always succeeds and takes one level of indentation for
/// each, as far as there is any.
pub proof fn lemma_leave_lists(lists: Seq<Option<u64>>, state: RenderState, styles: StyleSet)
    ensures
        rendered(list_ends(lists), state, styles) matches Ok(outside) && {
            &&& outside.context.indentation == if state.context.indentation >= lists.len() {
                (state.context.indentation - lists.len()) as nat
            } else {
                0
            }
            &&& outside.context.current_block == state.context.current_block
        },
    decreases lists.len(),
{
    let events = list_ends(lists);
    if lists.len() > 0 {
        let next = events[0].handled(state, styles)->Ok_0;
        assert(events.drop_first() =~= list_ends(lists.drop_first()));
        lemma_leave_lists(lists.drop_first(), next, styles);
    }
}

/// Entering any number of lists one inside the other and then leaving them
/// all brings the indentation back to what it was before the first, where
/// the lists stand in a list or at the left edge.
///
/// Elsewhere the outermost list starts at the base indentation, whatever the
/// indentation was, and leaving it ends one level below the base.
pub proof fn lemma_nested_lists_restore_indentation(
    entered: Seq<Option<u64>>,
    left: Seq<Option<u64>>,
    state: RenderState,
    styles: StyleSet,
)
    requires
        entered.len() >= 1,
        left.len() == entered.len(),
        state.context.current_block is List || state.context.indentation == 0,
    ensures
        rendered(list_starts(entered) + list_ends(left), state, styles) matches Ok(after)
            && after.context.indentation == state.context.indentation,
{
    lemma_rendered_add(list_starts(entered), list_ends(left), state, styles);
    lemma_enter_lists(entered, state, styles);
    let inside = rendered(list_starts(entered), state, styles)->Ok_0;
    lemma_leave_lists(left, inside, styles);
}

/// Whether the event opens a block: a paragraph, a heading, a code block, a
/// block quote or a list. These are the events after which the traversal
/// stands in another kind.
pub open spec fn opens_block(event: DocumentEventView) -> bool {
    event matches DocumentEventView::Start(kind) && {
        ||| kind is Paragraph
        ||| kind is Heading
        ||| kind is CodeBlock
        ||| kind is BlockQuote
        ||| kind is List
    }
}

/// The number of list items that close in `events`.
pub open spec fn closed_items(events: Seq<DocumentEventView>) -> nat
    decreases events.len(),
{
    if events.len() == 0 {
        0
    } else {
        let closes = events[0] == DocumentEventView::End(StructuralKindView::Item);
        closed_items(events.drop_first()) + if closes {
            1nat
        } else {
            0nat
        }
    }
}

/// The number of the next item of an ordered list whose next item had the
/// number `order` before `items` more items closed. The count stops at the
/// largest number there is.
pub open spec fn order_after(order: u64, items: nat) -> u64 {
    if order + items <= u64::MAX {
        (order + items) as u64
    } else {
        u64::MAX
    }
}

/// In an ordered list the number of the next item goes up by exactly one for
/// each item that closes, whatever else happens in between, as long as no
/// other block opens: text, code spans, breaks, rules, emphasis, and the ends
/// of constructs leave the count alone.
///
/// Once another block has opened, the traversal stands in that block, and
/// the end of an item finds no list to count in.
pub proof fn lemma_ordered_list_counts_items(
    events: Seq<DocumentEventView>,
    order: u64,
    state: RenderState,
    styles: StyleSet,
)
    requires
        state.context.current_block == StructuralKindView::List(Some(order)),
        forall|i: int| 0 <= i < events.len() ==> !opens_block(#[trigger] events[i]),
    ensures
        rendered(events, state, styles) matches Ok(after) && after.context.current_block
            == StructuralKindView::List(Some(order_after(order, closed_items(events)))),
    decreases events.len(),
{
    if events.len() > 0 {
        let rest = events.drop_first();
        assert(!opens_block(events[0]));
        let next = events[0].handled(state, styles)->Ok_0;
        let counted = if events[0] == DocumentEventView::End(StructuralKindView::Item) {
            next_order_of(order)
        } else {
            order
        };
        assert(next.context.current_block == StructuralKindView::List(Some(counted)));
        assert forall|i: int| 0 <= i < rest.len() implies !opens_block(#[trigger] rest[i]) by {
            assert(rest[i] == events[i + 1]);
        }
        lemma_ordered_list_counts_items(rest, counted, next, styles);
    }
}

} // verus!
