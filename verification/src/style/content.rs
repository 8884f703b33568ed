//! Fragments: the atomic units of output.

use super::content_style::ContentStyle;
use vstd::prelude::*;

verus! {

/// Text together with the style it is printed in.
#[derive(Debug, PartialEq, Eq)]
pub struct StyledContent {
    pub style: ContentStyle,
    pub content: String,
}

impl Clone for StyledContent {
    fn clone(&self) -> (copy: StyledContent)
        ensures
            copy.style == self.style,
            copy.content@ == self.content@,
    {
        StyledContent { style: self.style, content: self.content.clone() }
    }
}

/// One fragment of output: styled text, or text printed as it is.
#[derive(Debug, PartialEq, Eq)]
pub enum Content {
    Styled(StyledContent),
    Plain(String),
}

/// What a fragment is: its text as a sequence of characters, and its style
/// where it has one.
pub enum ContentView {
    Styled { style: ContentStyle, text: Seq<char> },
    Plain { text: Seq<char> },
}

impl View for Content {
    type V = ContentView;

    open spec fn view(&self) -> ContentView {
        match *self {
            Content::Styled(styled) => ContentView::Styled {
                style: styled.style,
                text: styled.content@,
            },
            Content::Plain(text) => ContentView::Plain { text: text@ },
        }
    }
}

/// The views of a sequence of fragments, in order.
pub open spec fn content_views(contents: Seq<Content>) -> Seq<ContentView> {
    contents.map_values(|content: Content| content@)
}

impl ContentStyle {
    /// The fragment that shows `text` in this style.
    pub fn apply(self, text: String) -> (content: Content)
        ensures
            content@ == (ContentView::Styled { style: self, text: text@ }),
    {
        Content::Styled(StyledContent { style: self, content: text })
    }
}

impl Clone for Content {
    fn clone(&self) -> (copy: Content)
        ensures
            copy@ == self@,
    {
        match self {
            Content::Styled(styled) => Content::Styled(styled.clone()),
            Content::Plain(text) => Content::Plain(text.clone()),
        }
    }
}

impl Content {
    /// A fragment printed as it is.
    pub fn plain(text: String) -> (content: Content)
        ensures
            content@ == (ContentView::Plain { text: text@ }),
    {
        Content::Plain(text)
    }
}

} // verus!
