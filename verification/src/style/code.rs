//! The rule for inline code spans.

use super::{block_content, styled_block, Content, ContentStyle, ContentView};
use super::{content_views, Color};
use crate::context::{Context, ContextView};
use vstd::prelude::*;

verus! {

/// The rule for inline code spans.
#[derive(Debug)]
pub struct CodeStyle {
    pub style: ContentStyle,
}

impl CodeStyle {
    /// A rule with this style.
    pub fn new(style: ContentStyle) -> (rule: CodeStyle)
        ensures
            rule.style == style,
    {
        CodeStyle { style }
    }

    /// The fragments that the rule makes of a text run.
    pub open spec fn styled_content(self, text: Seq<char>, context: ContextView) -> Seq<
        ContentView,
    > {
        block_content(self.style, text, context)
    }

    /// Styles a text run: one fragment in the rule's style, with the
    /// modifiers in force laid over it, behind the margin where the run
    /// begins a line.
    pub fn get_styled_content(&self, text: &str, context: &Context) -> (contents: Vec<Content>)
        ensures
            content_views(contents@) == self.styled_content(text@, context@),
    {
        styled_block(self.style, text, context)
    }

    /// The style of the rule where none is configured: a dark blue background.
    pub open spec fn default_style() -> ContentStyle {
        ContentStyle { background_color: Some(Color::DarkBlue), ..ContentStyle::plain() }
    }

    /// Whether the rule is the one used where none is configured.
    pub open spec fn is_default(self) -> bool {
        self.style == CodeStyle::default_style()
    }
}

impl Default for CodeStyle {
    fn default() -> (rule: CodeStyle)
        ensures
            rule.is_default(),
    {
        CodeStyle::new(ContentStyle::new().on(Color::DarkBlue))
    }
}

} // verus!
