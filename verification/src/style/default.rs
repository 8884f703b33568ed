//! The rule for text outside any styled block, and for soft line breaks.

use super::{block_content, content_views, styled_block, Content, ContentStyle, ContentView};
use crate::context::{Context, ContextView};
use vstd::prelude::*;
use vstd::string::*;

verus! {

/// How a soft line break is shown.
#[derive(Clone, Copy, Debug, PartialEq, Eq)]
pub enum SoftBreak {
    /// As a single space: the line goes on.
    Space,
    /// As a line feed.
    Newline,
}

impl SoftBreak {
    /// The text that shows the break.
    pub open spec fn text(self) -> Seq<char> {
        match self {
            SoftBreak::Space => seq![' '],
            SoftBreak::Newline => seq!['\n'],
        }
    }
}

/// The rule for text outside any styled block. Soft line breaks are shown in
/// its style too.
#[derive(Debug)]
pub struct DefaultStyle {
    pub style: ContentStyle,
    pub soft_break: SoftBreak,
}

impl DefaultStyle {
    /// A rule that shows soft line breaks as spaces.
    pub fn new(style: ContentStyle) -> (rule: DefaultStyle)
        ensures
            rule.style == style,
            rule.soft_break == SoftBreak::Space,
    {
        DefaultStyle { style, soft_break: SoftBreak::Space }
    }

    /// This rule, showing soft line breaks as `soft_break` says.
    pub fn with_soft_break(self, soft_break: SoftBreak) -> (rule: DefaultStyle)
        ensures
            rule.style == self.style,
            rule.soft_break == soft_break,
    {
        DefaultStyle { style: self.style, soft_break }
    }

    /// The fragments that the rule makes of a text run.
    pub open spec fn styled_content(self, text: Seq<char>, context: ContextView) -> Seq<
        ContentView,
    > {
        block_content(self.style, text, context)
    }

    /// Styles a text run: one fragment in the rule's style, with the
    /// modifiers in force laid over it, behind the margin where the run
    /// begins a line.
    pub fn get_styled_content(&self, text: &str, context: &Context) -> (contents: Vec<Content>)
        ensures
            content_views(contents@) == self.styled_content(text@, context@),
    {
        styled_block(self.style, text, context)
    }

    /// The fragments of a soft line break: its text in the rule's own style.
    pub open spec fn soft_break_content(self) -> Seq<ContentView> {
        seq![ContentView::Styled { style: self.style, text: self.soft_break.text() }]
    }

    /// The fragment that shows a soft line break. Neither the margin nor the
    /// modifiers in force have a part in it.
    pub fn get_soft_break(&self) -> (contents: Vec<Content>)
        ensures
            content_views(contents@) == self.soft_break_content(),
    {
        proof {
            reveal_strlit(" ");
            reveal_strlit("\n");
        }
        let text = match self.soft_break {
            SoftBreak::Space => " ",
            SoftBreak::Newline => "\n",
        };
        assert(text@ =~= self.soft_break.text());
        let mut contents = Vec::new();
        contents.push(self.style.apply(text.to_owned()));
        assert(content_views(contents@) =~= self.soft_break_content());
        contents
    }

    /// The style of the rule where none is configured: no styling at all.
    pub open spec fn default_style() -> ContentStyle {
        ContentStyle::plain()
    }

    /// Whether the rule is the one used where none is configured.
    pub open spec fn is_default(self) -> bool {
        self.style == DefaultStyle::default_style() && self.soft_break == SoftBreak::Space
    }
}

impl Default for DefaultStyle {
    fn default() -> (rule: DefaultStyle)
        ensures
            rule.is_default(),
    {
        DefaultStyle::new(ContentStyle::new())
    }
}

} // verus!
