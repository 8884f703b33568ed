//! The registry of rules, and its builder.

use super::{
    BlockQuoteStyle, CodeBlockStyle, CodeStyle, DefaultStyle, HeadingStyle, OrderedListStyle,
    ParagraphStyle, RuleStyle, UnorderedListStyle,
};
use vstd::prelude::*;

verus! {

/// One rule for each structural kind, and a table of rules for the levels of
/// headings, which has at least one entry. A style set is made by a
/// [`StyleSetBuilder`].
pub struct StyleSet {
    heading: Vec<HeadingStyle>,
    paragraph: ParagraphStyle,
    unordered_list: UnorderedListStyle,
    ordered_list: OrderedListStyle,
    block_quote: BlockQuoteStyle,
    code: CodeStyle,
    code_block: CodeBlockStyle,
    rule: RuleStyle,
    default: DefaultStyle,
}

/// The place in a table of `len` rules that stands for `index`: `index`
/// itself, or the last place where the table is shorter.
pub open spec fn clamped_index(index: nat, len: nat) -> int {
    if index < len {
        index as int
    } else {
        len - 1
    }
}

impl StyleSet {
    #[verifier::type_invariant]
    spec fn has_heading_rule(self) -> bool {
        self.heading@.len() > 0
    }

    /// The table of heading rules, the rule for level 1 first.
    pub closed spec fn heading_rules(self) -> Seq<HeadingStyle> {
        self.heading@
    }

    /// The rule for headings at `index` in the table, counted from 0. An
    /// index beyond the table stands for its last entry.
    pub open spec fn heading_rule(self, index: nat) -> HeadingStyle {
        self.heading_rules()[clamped_index(index, self.heading_rules().len())]
    }

    /// The rule for paragraphs.
    pub closed spec fn paragraph_rule(self) -> ParagraphStyle {
        self.paragraph
    }

    /// The rule for the items of unordered lists.
    pub closed spec fn unordered_list_rule(self) -> UnorderedListStyle {
        self.unordered_list
    }

    /// The rule for the items of ordered lists.
    pub closed spec fn ordered_list_rule(self) -> OrderedListStyle {
        self.ordered_list
    }

    /// The rule for block quotes.
    pub closed spec fn block_quote_rule(self) -> BlockQuoteStyle {
        self.block_quote
    }

    /// The rule for inline code spans.
    pub closed spec fn code_rule(self) -> CodeStyle {
        self.code
    }

    /// The rule for code blocks.
    pub closed spec fn code_block_rule(self) -> CodeBlockStyle {
        self.code_block
    }

    /// The rule for thematic breaks.
    pub closed spec fn thematic_rule(self) -> RuleStyle {
        self.rule
    }

    /// The rule for text outside any styled block.
    pub closed spec fn default_rule(self) -> DefaultStyle {
        self.default
    }

    /// The number of heading levels that the table has a rule for.
    pub fn heading_levels(&self) -> (levels: usize)
        ensures
            levels == self.heading_rules().len(),
            levels > 0,
    {
        proof {
            use_type_invariant(self);
        }
        self.heading.len()
    }

    /// The rule for headings at `index` in the table, counted from 0. An
    /// index beyond the table stands for its last entry.
    pub fn heading(&self, index: usize) -> (rule: &HeadingStyle)
        ensures
            *rule == self.heading_rule(index as nat),
    {
        proof {
            use_type_invariant(self);
        }
        let max_level = self.heading.len();
        if index >= max_level {
            &self.heading[max_level - 1]
        } else {
            &self.heading[index]
        }
    }

    /// The rule for paragraphs.
    pub fn paragraph(&self) -> (rule: &ParagraphStyle)
        ensures
            *rule == self.paragraph_rule(),
    {
        &self.paragraph
    }

    /// The rule for the items of unordered lists.
    pub fn unordered_list(&self) -> (rule: &UnorderedListStyle)
        ensures
            *rule == self.unordered_list_rule(),
    {
        &self.unordered_list
    }

    /// The rule for the items of ordered lists.
    pub fn ordered_list(&self) -> (rule: &OrderedListStyle)
        ensures
            *rule == self.ordered_list_rule(),
    {
        &self.ordered_list
    }

    /// The rule for block quotes.
    pub fn block_quote(&self) -> (rule: &BlockQuoteStyle)
        ensures
            *rule == self.block_quote_rule(),
    {
        &self.block_quote
    }

    /// The rule for inline code spans.
    pub fn code(&self) -> (rule: &CodeStyle)
        ensures
            *rule == self.code_rule(),
    {
        &self.code
    }

    /// The rule for code blocks.
    pub fn code_block(&self) -> (rule: &CodeBlockStyle)
        ensures
            *rule == self.code_block_rule(),
    {
        &self.code_block
    }

    /// The rule for thematic breaks.
    pub fn rule(&self) -> (rule: &RuleStyle)
        ensures
            *rule == self.thematic_rule(),
    {
        &self.rule
    }

    /// The rule for text outside any styled block.
    pub fn default(&self) -> (rule: &DefaultStyle)
        ensures
            *rule == self.default_rule(),
    {
        &self.default
    }
}

/// A style set in the making: each rule is either chosen or left to its
/// default.
pub struct StyleSetBuilder {
    pub heading: Option<Vec<HeadingStyle>>,
    pub paragraph: Option<ParagraphStyle>,
    pub unordered_list: Option<UnorderedListStyle>,
    pub ordered_list: Option<OrderedListStyle>,
    pub block_quote: Option<BlockQuoteStyle>,
    pub code: Option<CodeStyle>,
    pub code_block: Option<CodeBlockStyle>,
    pub rule: Option<RuleStyle>,
    pub default: Option<DefaultStyle>,
}

impl StyleSetBuilder {
    /// Whether no rule is chosen yet.
    pub open spec fn is_empty(self) -> bool {
        &&& self.heading is None
        &&& self.paragraph is None
        &&& self.unordered_list is None
        &&& self.ordered_list is None
        &&& self.block_quote is None
        &&& self.code is None
        &&& self.code_block is None
        &&& self.rule is None
        &&& self.default is None
    }

    /// A builder with no rule chosen.
    pub fn new() -> (builder: StyleSetBuilder)
        ensures
            builder.is_empty(),
    {
        StyleSetBuilder {
            heading: None,
            paragraph: None,
            unordered_list: None,
            ordered_list: None,
            block_quote: None,
            code: None,
            code_block: None,
            rule: None,
            default: None,
        }
    }

    /// Chooses the table of heading rules, the rule for level 1 first.
    pub fn heading(self, heading: Vec<HeadingStyle>) -> (builder: StyleSetBuilder)
        ensures
            builder == (StyleSetBuilder { heading: Some(heading), ..self }),
    {
        let mut builder = self;
        builder.heading = Some(heading);
        builder
    }

    /// Chooses the rule for paragraphs.
    pub fn paragraph(self, paragraph: ParagraphStyle) -> (builder: StyleSetBuilder)
        ensures
            builder == (StyleSetBuilder { paragraph: Some(paragraph), ..self }),
    {
        let mut builder = self;
        builder.paragraph = Some(paragraph);
        builder
    }

    /// Chooses the rule for the items of unordered lists.
    pub fn unordered_list(self, unordered_list: UnorderedListStyle) -> (builder: StyleSetBuilder)
        ensures
            builder == (StyleSetBuilder { unordered_list: Some(unordered_list), ..self }),
    {
        let mut builder = self;
        builder.unordered_list = Some(unordered_list);
        builder
    }

    /// Chooses the rule for the items of ordered lists.
    pub fn ordered_list(self, ordered_list: OrderedListStyle) -> (builder: StyleSetBuilder)
        ensures
            builder == (StyleSetBuilder { ordered_list: Some(ordered_list), ..self }),
    {
        let mut builder = self;
        builder.ordered_list = Some(ordered_list);
        builder
    }

    /// Chooses the rule for block quotes.
    pub fn block_quote(self, block_quote: BlockQuoteStyle) -> (builder: StyleSetBuilder)
        ensures
            builder == (StyleSetBuilder { block_quote: Some(block_quote), ..self }),
    {
        let mut builder = self;
        builder.block_quote = Some(block_quote);
        builder
    }

    /// Chooses the rule for inline code spans.
    pub fn code(self, code: CodeStyle) -> (builder: StyleSetBuilder)
        ensures
            builder == (StyleSetBuilder { code: Some(code), ..self }),
    {
        let mut builder = self;
        builder.code = Some(code);
        builder
    }

    /// Chooses the rule for code blocks.
    pub fn code_block(self, code_block: CodeBlockStyle) -> (builder: StyleSetBuilder)
        ensures
            builder == (StyleSetBuilder { code_block: Some(code_block), ..self }),
    {
        let mut builder = self;
        builder.code_block = Some(code_block);
        builder
    }

    /// Chooses the rule for thematic breaks.
    pub fn rule(self, rule: RuleStyle) -> (builder: StyleSetBuilder)
        ensures
            builder == (StyleSetBuilder { rule: Some(rule), ..self }),
    {
        let mut builder = self;
        builder.rule = Some(rule);
        builder
    }

    /// Chooses the rule for text outside any styled block.
    pub fn default(self, default: DefaultStyle) -> (builder: StyleSetBuilder)
        ensures
            builder == (StyleSetBuilder { default: Some(default), ..self }),
    {
        let mut builder = self;
        builder.default = Some(default);
        builder
    }

    /// Whether `styles` is what this builder stands for: each rule that was
    /// chosen, and the default of each that was not. A table of heading
    /// rules that was chosen empty counts as not chosen.
    pub open spec fn builds(self, styles: StyleSet) -> bool {
        &&& match self.heading {
            Some(table) if table@.len() > 0 => styles.heading_rules() == table@,
            _ => styles.heading_rules().len() == 1 && styles.heading_rules()[0].is_default(),
        }
        &&& match self.paragraph {
            Some(rule) => styles.paragraph_rule() == rule,
            None => styles.paragraph_rule().is_default(),
        }
        &&& match self.unordered_list {
            Some(rule) => styles.unordered_list_rule() == rule,
            None => styles.unordered_list_rule().is_default(),
        }
        &&& match self.ordered_list {
            Some(rule) => styles.ordered_list_rule() == rule,
            None => styles.ordered_list_rule().is_default(),
        }
        &&& match self.block_quote {
            Some(rule) => styles.block_quote_rule() == rule,
            None => styles.block_quote_rule().is_default(),
        }
        &&& match self.code {
            Some(rule) => styles.code_rule() == rule,
            None => styles.code_rule().is_default(),
        }
        &&& match self.code_block {
            Some(rule) => styles.code_block_rule() == rule,
            None => styles.code_block_rule().is_default(),
        }
        &&& match self.rule {
            Some(rule) => styles.thematic_rule() == rule,
            None => styles.thematic_rule().is_default(),
        }
        &&& match self.default {
            Some(rule) => styles.default_rule() == rule,
            None => styles.default_rule().is_default(),
        }
    }

    /// The style set of the rules that were chosen, with the default of each
    /// rule that was not.
    pub fn build(self) -> (styles: StyleSet)
        ensures
            self.builds(styles),
            self.is_empty() ==> styles.is_default(),
    {
        let heading = match self.heading {
            Some(table) => {
                if table.len() > 0 {
                    table
                } else {
                    let mut table = Vec::new();
                    table.push(HeadingStyle::default());
                    table
                }
            },
            None => {
                let mut table = Vec::new();
                table.push(HeadingStyle::default());
                table
            },
        };
        StyleSet {
            heading,
            paragraph: match self.paragraph {
                Some(rule) => rule,
                None => ParagraphStyle::default(),
            },
            unordered_list: match self.unordered_list {
                Some(rule) => rule,
                None => UnorderedListStyle::default(),
            },
            ordered_list: match self.ordered_list {
                Some(rule) => rule,
                None => OrderedListStyle::default(),
            },
            block_quote: match self.block_quote {
                Some(rule) => rule,
                None => BlockQuoteStyle::default(),
            },
            code: match self.code {
                Some(rule) => rule,
                None => CodeStyle::default(),
            },
            code_block: match self.code_block {
                Some(rule) => rule,
                None => CodeBlockStyle::default(),
            },
            rule: match self.rule {
                Some(rule) => rule,
                None => RuleStyle::default(),
            },
            default: match self.default {
                Some(rule) => rule,
                None => DefaultStyle::default(),
            },
        }
    }
}

impl StyleSet {
    /// Whether every rule of the set is the default of its kind.
    pub open spec fn is_default(self) -> bool {
        &&& self.heading_rules().len() == 1 && self.heading_rules()[0].is_default()
        &&& self.paragraph_rule().is_default()
        &&& self.unordered_list_rule().is_default()
        &&& self.ordered_list_rule().is_default()
        &&& self.block_quote_rule().is_default()
        &&& self.code_rule().is_default()
        &&& self.code_block_rule().is_default()
        &&& self.thematic_rule().is_default()
        &&& self.default_rule().is_default()
    }
}

} // verus!
