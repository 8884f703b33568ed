//! The rule for block quotes.

use super::{content_views, Color, Content, ContentStyle, ContentView};
use crate::context::{Context, ContextView};
use crate::text::{margin, margin_string};
use vstd::prelude::*;
use vstd::string::*;

verus! {

/// The rule for block quotes: a style, and the glyph that marks a quoted
/// line.
#[derive(Debug)]
pub struct BlockQuoteStyle {
    pub style: ContentStyle,
    pub character: String,
}

impl BlockQuoteStyle {
    /// A rule with this style and this glyph.
    pub fn new(style: ContentStyle, character: &str) -> (rule: BlockQuoteStyle)
        ensures
            rule.style == style,
            rule.character@ == character@,
    {
        BlockQuoteStyle { style, character: character.to_owned() }
    }

    /// A quoted text run: behind the margin, the glyph and a space where it
    /// begins a line, as it is where it goes on in one.
    pub open spec fn quoted_text(self, text: Seq<char>, context: ContextView) -> Seq<char> {
        if context.start_of_line {
            margin(context.indentation) + self.character@ + seq![' '] + text
        } else {
            text
        }
    }

    /// The fragments that the rule makes of a text run.
    pub open spec fn styled_content(self, text: Seq<char>, context: ContextView) -> Seq<
        ContentView,
    > {
        seq![
            ContentView::Styled {
                style: self.style.layered(context.modifiers),
                text: self.quoted_text(text, context),
            },
        ]
    }

    /// Styles a text run: one fragment in the rule's style with the modifiers
    /// in force laid over it. The margin and the quote glyph stand before the
    /// text only where the run begins a line.
    pub fn get_styled_content(&self, text: &str, context: &Context) -> (contents: Vec<Content>)
        ensures
            content_views(contents@) == self.styled_content(text@, context@),
    {
        let style = self.style.layer(context.modifiers());
        let content = if context.start_of_line() {
            proof {
                reveal_strlit(" ");
            }
            let mut content = margin_string(context.indentation());
            content.append(self.character.as_str());
            content.append(" ");
            content.append(text);
            assert(content@ =~= self.quoted_text(text@, context@));
            content
        } else {
            text.to_owned()
        };
        let mut contents = Vec::new();
        contents.push(style.apply(content));
        assert(content_views(contents@) =~= self.styled_content(text@, context@));
        contents
    }

    /// The style of the rule where none is configured: white text.
    pub open spec fn default_style() -> ContentStyle {
        ContentStyle { foreground_color: Some(Color::White), ..ContentStyle::plain() }
    }

    /// The glyph of the rule where none is configured: a heavy vertical bar.
    pub open spec fn default_character() -> Seq<char> {
        "\u{2503}"@
    }

    /// Whether the rule is the one used where none is configured.
    pub open spec fn is_default(self) -> bool {
        self.style == BlockQuoteStyle::default_style() && self.character@
            == BlockQuoteStyle::default_character()
    }
}

impl Default for BlockQuoteStyle {
    fn default() -> (rule: BlockQuoteStyle)
        ensures
            rule.is_default(),
    {
        BlockQuoteStyle::new(ContentStyle::new().with(Color::White), "\u{2503}")
    }
}

} // verus!
