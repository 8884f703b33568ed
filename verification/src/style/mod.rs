//! Style rules: one per structural kind, each turning a text run and the
//! current context into styled fragments.

pub mod block_quote;
pub mod code;
pub mod code_block;
pub mod content;
pub mod content_style;
pub mod default;
pub mod heading;
pub mod list;
pub mod paragraph;
pub mod rule;
pub mod style_set;

pub use block_quote::BlockQuoteStyle;
pub use code::CodeStyle;
pub use code_block::CodeBlockStyle;
pub use content::{content_views, Content, ContentView, StyledContent};
pub use content_style::{Attribute, Attributes, Color, ContentStyle};
pub use default::{DefaultStyle, SoftBreak};
pub use heading::HeadingStyle;
pub use list::{OrderedListStyle, UnorderedListStyle};
pub use paragraph::ParagraphStyle;
pub use rule::RuleStyle;
pub use style_set::{clamped_index, StyleSet, StyleSetBuilder};

use crate::context::{Context, ContextView};
use crate::text::{margin, margin_string};
use vstd::prelude::*;
use vstd::string::*;

verus! {

/// A text run as a block shows it: behind the margin where it begins a line,
/// as it is where it goes on in one.
pub open spec fn block_text(text: Seq<char>, context: ContextView) -> Seq<char> {
    if context.start_of_line {
        margin(context.indentation) + text
    } else {
        text
    }
}

/// The single fragment that a block rule makes of a text run: the text in the
/// rule's style with the modifiers in force laid over it.
pub open spec fn block_content(style: ContentStyle, text: Seq<char>, context: ContextView) -> Seq<
    ContentView,
> {
    seq![
        ContentView::Styled {
            style: style.layered(context.modifiers),
            text: block_text(text, context),
        },
    ]
}

/// Styles a text run as a block rule does.
pub fn styled_block(style: ContentStyle, text: &str, context: &Context) -> (contents: Vec<Content>)
    ensures
        content_views(contents@) == block_content(style, text@, context@),
{
    let style = style.layer(context.modifiers());
    let content = if context.start_of_line() {
        let mut content = margin_string(context.indentation());
        content.append(text);
        content
    } else {
        text.to_owned()
    };
    let mut contents = Vec::new();
    contents.push(style.apply(content));
    assert(content_views(contents@) =~= block_content(style, text@, context@));
    contents
}

} // verus!
