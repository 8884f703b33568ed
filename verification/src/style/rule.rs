//! The rule for thematic breaks.

use super::{content_views, Color, Content, ContentStyle, ContentView};
use vstd::prelude::*;
use vstd::string::*;

verus! {

/// The rule for thematic breaks: a style, and the line that is drawn.
#[derive(Debug)]
pub struct RuleStyle {
    pub style: ContentStyle,
    pub rule: String,
}

/// The number of dashes in the line that is drawn where none is configured.
pub const DEFAULT_RULE_WIDTH: usize = 80;

impl RuleStyle {
    /// A rule with this style that draws `rule`.
    pub fn new(style: ContentStyle, rule: &str) -> (made: RuleStyle)
        ensures
            made.style == style,
            made.rule@ == rule@,
    {
        RuleStyle { style, rule: rule.to_owned() }
    }

    /// The fragments that the rule makes: its line in its style.
    pub open spec fn styled_content(self) -> Seq<ContentView> {
        seq![ContentView::Styled { style: self.style, text: self.rule@ }]
    }

    /// The fragment that draws the thematic break.
    pub fn get_styled_content(&self) -> (contents: Vec<Content>)
        ensures
            content_views(contents@) == self.styled_content(),
    {
        let mut contents = Vec::new();
        contents.push(self.style.apply(self.rule.clone()));
        assert(content_views(contents@) =~= self.styled_content());
        contents
    }

    /// The style of the rule where none is configured: dark grey.
    pub open spec fn default_style() -> ContentStyle {
        ContentStyle { foreground_color: Some(Color::DarkGrey), ..ContentStyle::plain() }
    }

    /// The line where none is configured: two spaces, eighty box-drawing
    /// dashes and a line feed.
    pub open spec fn default_rule() -> Seq<char> {
        seq![' ', ' '] + Seq::new(DEFAULT_RULE_WIDTH as nat, |i: int| '\u{2500}') + seq!['\n']
    }

    /// Whether the rule is the one used where none is configured.
    pub open spec fn is_default(self) -> bool {
        self.style == RuleStyle::default_style() && self.rule@ == RuleStyle::default_rule()
    }
}

impl Default for RuleStyle {
    fn default() -> (made: RuleStyle)
        ensures
            made.is_default(),
    {
        proof {
            reveal_strlit("  ");
            reveal_strlit("\u{2500}");
            reveal_strlit("\n");
        }
        let mut rule = "  ".to_owned();
        let mut drawn: usize = 0;
        while drawn < DEFAULT_RULE_WIDTH
            invariant
                drawn <= DEFAULT_RULE_WIDTH,
                rule@ == seq![' ', ' '] + Seq::new(drawn as nat, |i: int| '\u{2500}'),
                "\u{2500}"@ == seq!['\u{2500}'],
            decreases DEFAULT_RULE_WIDTH - drawn,
        {
            rule.append("\u{2500}");
            drawn = drawn + 1;
            assert(rule@ =~= seq![' ', ' '] + Seq::new(drawn as nat, |i: int| '\u{2500}'));
        }
        rule.append("\n");
        assert(rule@ =~= RuleStyle::default_rule());
        RuleStyle::new(ContentStyle::new().with(Color::DarkGrey), rule.as_str())
    }
}

} // verus!
