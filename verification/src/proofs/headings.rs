//! Headings: which rule styles which level.

use crate::context::ContextView;
use crate::event::StructuralKindView;
use crate::handler::kind::heading_index_of;
use crate::style::StyleSet;
use vstd::prelude::*;

verus! {

/// The lesser of two integers.
pub open spec fn min(a: int, b: int) -> int {
    if a <= b {
        a
    } else {
        b
    }
}

/// A heading of level `level` is styled by the rule at `level - 1` in the
/// table of heading rules, and by the last rule where the table is shorter.
pub proof fn lemma_heading_rule_is_clamped(styles: StyleSet, level: usize)
    requires
        styles.heading_rules().len() > 0,
        level >= 1,
    ensures
        styles.heading_rule(heading_index_of(level)) == styles.heading_rules()[min(
            level - 1,
            styles.heading_rules().len() - 1,
        )],
{
}

/// The text of a heading whose level is beyond the table of heading rules
/// comes out exactly as the text of a heading of the last level that the
/// table has a rule for.
pub proof fn lemma_heading_beyond_table(
    styles: StyleSet,
    level: usize,
    text: Seq<char>,
    context: ContextView,
)
    requires
        0 < styles.heading_rules().len() <= level,
    ensures
        StructuralKindView::Heading(level).text_content(
            text,
            ContextView { current_block: StructuralKindView::Heading(level), ..context },
            styles,
        ) == {
            let last = StructuralKindView::Heading(styles.heading_rules().len() as usize);
            last.text_content(text, ContextView { current_block: last, ..context }, styles)
        },
{
}

} // verus!
