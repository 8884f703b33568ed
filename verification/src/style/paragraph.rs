//! The rule for paragraphs.

use super::{block_content, styled_block, Content, ContentStyle, ContentView};
use super::{content_views, Color};
use crate::context::{Context, ContextView};
use vstd::prelude::*;

verus! {

/// The rule for paragraphs.
#[derive(Debug)]
pub struct ParagraphStyle {
    pub style: ContentStyle,
}

impl ParagraphStyle {
    /// A rule with this style.
    pub fn new(style: ContentStyle) -> (rule: ParagraphStyle)
        ensures
            rule.style == style,
    {
        ParagraphStyle { style }
    }

    /// The fragments that the rule makes of a text run.
    pub open spec fn styled_content(self, text: Seq<char>, context: ContextView) -> Seq<
        ContentView,
    > {
        block_content(self.style, text, context)
    }

    /// Styles a text run: one fragment in the rule's style, with the
    /// modifiers in force laid over it, behind the margin where the run
    /// begins a line.
    pub fn get_styled_content(&self, text: &str, context: &Context) -> (contents: Vec<Content>)
        ensures
            content_views(contents@) == self.styled_content(text@, context@),
    {
        styled_block(self.style, text, context)
    }

    /// The style of the rule where none is configured: white text.
    pub open spec fn default_style() -> ContentStyle {
        ContentStyle { foreground_color: Some(Color::White), ..ContentStyle::plain() }
    }

    /// Whether the rule is the one used where none is configured.
    pub open spec fn is_default(self) -> bool {
        self.style == ParagraphStyle::default_style()
    }
}

impl Default for ParagraphStyle {
    fn default() -> (rule: ParagraphStyle)
        ensures
            rule.is_default(),
    {
        ParagraphStyle::new(ContentStyle::new().with(Color::White))
    }
}

} // verus!
