//! The rule for headings.

use super::{block_content, styled_block, Content, ContentStyle, ContentView};
use super::{content_views, Attribute, Attributes, Color};
use crate::context::{Context, ContextView};
use vstd::prelude::*;

verus! {

/// The rule for headings.
#[derive(Debug)]
pub struct HeadingStyle {
    pub style: ContentStyle,
}

impl HeadingStyle {
    /// A rule with this style.
    pub fn new(style: ContentStyle) -> (rule: HeadingStyle)
        ensures
            rule.style == style,
    {
        HeadingStyle { style }
    }

    /// The fragments that the rule makes of a text run.
    pub open spec fn styled_content(self, text: Seq<char>, context: ContextView) -> Seq<
        ContentView,
    > {
        block_content(self.style, text, context)
    }

    /// Styles a text run: one fragment in the rule's style, with the
    /// modifiers in force laid over it, behind the margin where the run
    /// begins a line.
    pub fn get_styled_content(&self, text: &str, context: &Context) -> (contents: Vec<Content>)
        ensures
            content_views(contents@) == self.styled_content(text@, context@),
    {
        styled_block(self.style, text, context)
    }

    /// The style of the rule where none is configured: bold yellow text.
    pub open spec fn default_style() -> ContentStyle {
        ContentStyle {
            foreground_color: Some(Color::Yellow),
            background_color: None,
            attributes: Attributes::empty().inserted(Attribute::Bold),
        }
    }

    /// Whether the rule is the one used where none is configured.
    pub open spec fn is_default(self) -> bool {
        self.style == HeadingStyle::default_style()
    }
}

impl Default for HeadingStyle {
    fn default() -> (rule: HeadingStyle)
        ensures
            rule.is_default(),
    {
        HeadingStyle::new(ContentStyle::new().with(Color::Yellow).attribute(Attribute::Bold))
    }
}

} // verus!
