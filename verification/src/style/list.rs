//! The rules for list items, unordered and ordered.

use super::{content_views, Color, Content, ContentStyle, ContentView};
use crate::context::{Context, ContextView};
use crate::text::{decimal, decimal_string, margin, margin_string};
use vstd::prelude::*;
use vstd::string::*;

verus! {

/// The fragments of a text run in a list: the run in the rule's style with
/// the modifiers in force laid over it, and before it, where the run begins
/// a line, the prefix in the rule's own style.
pub open spec fn list_content(
    style: ContentStyle,
    prefix: Seq<char>,
    text: Seq<char>,
    context: ContextView,
) -> Seq<ContentView> {
    let run = ContentView::Styled { style: style.layered(context.modifiers), text };
    if context.start_of_line {
        seq![ContentView::Styled { style, text: prefix }, run]
    } else {
        seq![run]
    }
}

fn styled_list(style: ContentStyle, prefix: String, text: &str, context: &Context) -> (contents:
    Vec<Content>)
    ensures
        content_views(contents@) == list_content(style, prefix@, text@, context@),
{
    let mut contents = Vec::new();
    if context.start_of_line() {
        contents.push(style.apply(prefix));
    }
    contents.push(style.layer(context.modifiers()).apply(text.to_owned()));
    assert(content_views(contents@) =~= list_content(style, prefix@, text@, context@));
    contents
}

/// The rule for the items of an unordered list: a style, and the bullet.
#[derive(Debug)]
pub struct UnorderedListStyle {
    pub style: ContentStyle,
    pub character: String,
}

impl UnorderedListStyle {
    /// A rule with this style and this bullet.
    pub fn new(style: ContentStyle, character: &str) -> (rule: UnorderedListStyle)
        ensures
            rule.style == style,
            rule.character@ == character@,
    {
        UnorderedListStyle { style, character: character.to_owned() }
    }

    /// What opens the line of an item: a line feed, the margin, the bullet
    /// and a space.
    pub open spec fn prefix(self, indentation: nat) -> Seq<char> {
        seq!['\n'] + margin(indentation) + self.character@ + seq![' ']
    }

    /// The fragments that the rule makes of a text run.
    pub open spec fn styled_content(self, text: Seq<char>, context: ContextView) -> Seq<
        ContentView,
    > {
        list_content(self.style, self.prefix(context.indentation), text, context)
    }

    /// Styles a text run of a list item. Where the run begins a line, a
    /// fragment with the bullet on a fresh line comes first; the text follows
    /// in the rule's style with the modifiers in force laid over it.
    pub fn get_styled_content(&self, text: &str, context: &Context) -> (contents: Vec<Content>)
        ensures
            content_views(contents@) == self.styled_content(text@, context@),
    {
        proof {
            reveal_strlit("\n");
            reveal_strlit(" ");
        }
        let mut prefix = "\n".to_owned();
        prefix.append(margin_string(context.indentation()).as_str());
        prefix.append(self.character.as_str());
        prefix.append(" ");
        assert(prefix@ =~= self.prefix(context@.indentation));
        styled_list(self.style, prefix, text, context)
    }

    /// The style of the rule where none is configured: white text.
    pub open spec fn default_style() -> ContentStyle {
        ContentStyle { foreground_color: Some(Color::White), ..ContentStyle::plain() }
    }

    /// The bullet where none is configured: a four-pointed star.
    pub open spec fn default_character() -> Seq<char> {
        "\u{2727}"@
    }

    /// Whether the rule is the one used where none is configured.
    pub open spec fn is_default(self) -> bool {
        self.style == UnorderedListStyle::default_style() && self.character@
            == UnorderedListStyle::default_character()
    }
}

impl Default for UnorderedListStyle {
    fn default() -> (rule: UnorderedListStyle)
        ensures
            rule.is_default(),
    {
        UnorderedListStyle::new(ContentStyle::new().with(Color::White), "\u{2727}")
    }
}

/// The rule for the items of an ordered list: a style, and the glyph that
/// follows the number of an item.
#[derive(Debug)]
pub struct OrderedListStyle {
    pub style: ContentStyle,
    pub character: String,
}

impl OrderedListStyle {
    /// A rule with this style and this glyph after the number.
    pub fn new(style: ContentStyle, character: &str) -> (rule: OrderedListStyle)
        ensures
            rule.style == style,
            rule.character@ == character@,
    {
        OrderedListStyle { style, character: character.to_owned() }
    }

    /// What opens the line of an item: a line feed, the margin, the number
    /// of the item in decimal, the glyph and a space.
    pub open spec fn prefix(self, indentation: nat, order: u64) -> Seq<char> {
        seq!['\n'] + margin(indentation) + decimal(order as nat) + self.character@ + seq![' ']
    }

    /// The fragments that the rule makes of a text run.
    pub open spec fn styled_content(self, text: Seq<char>, context: ContextView, order: u64) -> Seq<
        ContentView,
    > {
        list_content(self.style, self.prefix(context.indentation, order), text, context)
    }

    /// Styles a text run of the list item with the number `order`. Where the
    /// run begins a line, a fragment with the number on a fresh line comes
    /// first; the text follows in the rule's style with the modifiers in
    /// force laid over it.
    pub fn get_styled_content(&self, text: &str, context: &Context, order: u64) -> (contents: Vec<
        Content,
    >)
        ensures
            content_views(contents@) == self.styled_content(text@, context@, order),
    {
        proof {
            reveal_strlit("\n");
            reveal_strlit(" ");
        }
        let mut prefix = "\n".to_owned();
        prefix.append(margin_string(context.indentation()).as_str());
        prefix.append(decimal_string(order).as_str());
        prefix.append(self.character.as_str());
        prefix.append(" ");
        assert(prefix@ =~= self.prefix(context@.indentation, order));
        styled_list(self.style, prefix, text, context)
    }

    /// The style of the rule where none is configured: white text.
    pub open spec fn default_style() -> ContentStyle {
        ContentStyle { foreground_color: Some(Color::White), ..ContentStyle::plain() }
    }

    /// The glyph after the number where none is configured: a full stop.
    pub open spec fn default_character() -> Seq<char> {
        "."@
    }

    /// Whether the rule is the one used where none is configured.
    pub open spec fn is_default(self) -> bool {
        self.style == OrderedListStyle::default_style() && self.character@
            == OrderedListStyle::default_character()
    }
}

impl Default for OrderedListStyle {
    fn default() -> (rule: OrderedListStyle)
        ensures
            rule.is_default(),
    {
        OrderedListStyle::new(ContentStyle::new().with(Color::White), ".")
    }
}

} // verus!
