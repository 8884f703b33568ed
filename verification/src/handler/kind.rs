//! What the start, the end and the text of each structural kind do.

use super::stdout::StdoutHandler;
use crate::context::{plain_text_syntax, Context, ContextView};
use crate::error::{RenderError, RenderErrorView};
use crate::event::{CodeBlockKind, CodeBlockKindView, StructuralKind, StructuralKindView};
use crate::style::{content_views, Attribute, Content, ContentView, StyleSet};
use crate::text::{capitalize, capitalized};
use vstd::prelude::*;
use vstd::string::*;

verus! {

/// The indentation of a list that stands in no other list.
pub const LIST_BASE_INDENTATION: usize = 1;

/// The place of a heading level in the table of heading rules: level 1 comes
/// first.
pub open spec fn heading_index_of(level: usize) -> nat {
    if level >= 1 {
        (level - 1) as nat
    } else {
        0
    }
}

/// The place of a heading level in the table of heading rules: level 1 comes
/// first.
pub fn heading_index(level: usize) -> (index: usize)
    ensures
        index == heading_index_of(level),
{
    if level >= 1 {
        level - 1
    } else {
        0
    }
}

/// The number of the item after the one numbered `order`. The count stops at
/// the largest number there is.
pub open spec fn next_order_of(order: u64) -> u64 {
    if order < u64::MAX {
        (order + 1) as u64
    } else {
        order
    }
}

/// The number of the item after the one numbered `order`. The count stops at
/// the largest number there is.
pub fn next_order(order: u64) -> (next: u64)
    ensures
        next == next_order_of(order),
{
    if order < u64::MAX {
        order + 1
    } else {
        order
    }
}

/// One level less of indentation, and none where there is none.
pub open spec fn outdented(indentation: nat) -> nat {
    if indentation > 0 {
        (indentation - 1) as nat
    } else {
        0
    }
}

/// A fragment of line feeds, printed as it is.
pub open spec fn line_feeds(count: nat) -> Seq<ContentView> {
    seq![ContentView::Plain { text: Seq::new(count, |i: int| '\n') }]
}

impl CodeBlockKindView {
    /// The name of the grammar of a code block: the info string of its
    /// fence with the first character in uppercase, or `Plain Text` for
    /// indented code.
    pub open spec fn syntax(self) -> Seq<char> {
        match self {
            CodeBlockKindView::Indented => plain_text_syntax(),
            CodeBlockKindView::Fenced(info) => capitalized(info),
        }
    }
}

impl StructuralKindView {
    /// The context after a construct of this kind has opened in `context`.
    ///
    /// - A paragraph becomes the kind that the traversal stands in, unless
    ///   that is a block quote, whose paragraphs keep the style of the quote.
    ///   The next text begins a line.
    /// - A heading and a block quote become the kind that the traversal
    ///   stands in.
    /// - So does a code block, which also goes one level deeper and gives the
    ///   context its grammar.
    /// - So does a list, after which the next text begins a line. A list in
    ///   a list goes one level deeper; any other list stands at the base
    ///   indentation.
    /// - A list item makes the next text begin a line.
    /// - Emphasis puts underlining in force, strong text the bold weight.
    /// - Any other kind changes nothing.
    pub open spec fn started(self, context: ContextView) -> ContextView {
        match self {
            StructuralKindView::Paragraph => ContextView {
                current_block: if context.current_block is BlockQuote {
                    context.current_block
                } else {
                    self
                },
                start_of_line: true,
                ..context
            },
            StructuralKindView::Heading(_) => ContextView { current_block: self, ..context },
            StructuralKindView::CodeBlock(kind) => ContextView {
                current_block: self,
                indentation: context.indentation + 1,
                code_block_syntax: kind.syntax(),
                ..context
            },
            StructuralKindView::BlockQuote => ContextView { current_block: self, ..context },
            StructuralKindView::List(_) => ContextView {
                current_block: self,
                indentation: if context.current_block is List {
                    context.indentation + 1
                } else {
                    LIST_BASE_INDENTATION as nat
                },
                start_of_line: true,
                ..context
            },
            StructuralKindView::Item => ContextView { start_of_line: true, ..context },
            StructuralKindView::Emphasis => ContextView {
                modifiers: context.modifiers.inserted(Attribute::Underlined),
                ..context
            },
            StructuralKindView::Strong => ContextView {
                modifiers: context.modifiers.inserted(Attribute::Bold),
                ..context
            },
            StructuralKindView::Other => context,
        }
    }

    /// The context after a construct of this kind has closed in `context`.
    ///
    /// - A code block and a list give back one level of indentation, as far
    ///   as there is one.
    /// - A list item, where the traversal stands in an ordered list, makes
    ///   the list count on for the next item.
    /// - Emphasis takes underlining out of force, strong text the bold
    ///   weight.
    /// - Any other kind changes nothing.
    pub open spec fn ended(self, context: ContextView) -> ContextView {
        match self {
            StructuralKindView::CodeBlock(_) | StructuralKindView::List(_) => ContextView {
                indentation: outdented(context.indentation),
                ..context
            },
            StructuralKindView::Item => match context.current_block {
                StructuralKindView::List(Some(order)) => ContextView {
                    current_block: StructuralKindView::List(Some(next_order_of(order))),
                    ..context
                },
                _ => context,
            },
            StructuralKindView::Emphasis => ContextView {
                modifiers: context.modifiers.removed(Attribute::Underlined),
                ..context
            },
            StructuralKindView::Strong => ContextView {
                modifiers: context.modifiers.removed(Attribute::Bold),
                ..context
            },
            _ => context,
        }
    }

    /// What the end of a construct of this kind emits: a blank line after a
    /// paragraph or a heading, a line feed after a code block, a block quote
    /// or a list, nothing else.
    pub open spec fn end_content(self) -> Seq<ContentView> {
        match self {
            StructuralKindView::Paragraph | StructuralKindView::Heading(_) => line_feeds(2),
            StructuralKindView::CodeBlock(_)
            | StructuralKindView::BlockQuote
            | StructuralKindView::List(_) => line_feeds(1),
            _ => Seq::empty(),
        }
    }

    /// The fragments of a text run in a construct of this kind, or the reason
    /// why there are none. Code blocks, lists and block quotes have rules of
    /// their own; any other kind goes by the kind that the context stands in,
    /// which has the paragraph rule, a heading rule or the default rule.
    pub open spec fn text_content(
        self,
        text: Seq<char>,
        context: ContextView,
        styles: StyleSet,
    ) -> Result<Seq<ContentView>, RenderErrorView> {
        match self {
            StructuralKindView::CodeBlock(_) => styles.code_block_rule().styled_content(text, context),
            StructuralKindView::List(Some(order)) => Ok(
                styles.ordered_list_rule().styled_content(text, context, order),
            ),
            StructuralKindView::List(None) => Ok(
                styles.unordered_list_rule().styled_content(text, context),
            ),
            StructuralKindView::BlockQuote => Ok(styles.block_quote_rule().styled_content(text, context)),
            _ => Ok(
                match context.current_block {
                    StructuralKindView::Paragraph => styles.paragraph_rule().styled_content(text, context),
                    StructuralKindView::Heading(level) => styles.heading_rule(
                        heading_index_of(level),
                    ).styled_content(text, context),
                    _ => styles.default_rule().styled_content(text, context),
                },
            ),
        }
    }
}

/// A fragment of one line feed.
fn newline() -> (contents: Vec<Content>)
    ensures
        content_views(contents@) == line_feeds(1),
{
    proof {
        reveal_strlit("\n");
    }
    let mut contents = Vec::new();
    contents.push(Content::plain("\n".to_owned()));
    assert(contents[0]@->Plain_text =~= Seq::new(1, |i: int| '\n'));
    assert(content_views(contents@) =~= line_feeds(1));
    contents
}

/// A fragment that ends the line and leaves one line blank.
fn blank_line() -> (contents: Vec<Content>)
    ensures
        content_views(contents@) == line_feeds(2),
{
    proof {
        reveal_strlit("\n\n");
    }
    let mut contents = Vec::new();
    contents.push(Content::plain("\n\n".to_owned()));
    assert(contents[0]@->Plain_text =~= Seq::new(2, |i: int| '\n'));
    assert(content_views(contents@) =~= line_feeds(2));
    contents
}

impl StructuralKind {
    /// Opens a construct of this kind. Only the context changes: what the
    /// construct puts before its text is emitted with the text.
    ///
    /// A code block, and a list inside a list, go one level deeper: the level
    /// has to fit the machine's integers.
    pub fn start(&self, context: &mut Context)
        requires
            self@.started(old(context)@).indentation <= usize::MAX,
        ensures
            final(context)@ == self@.started(old(context)@),
    {
        match self {
            StructuralKind::Paragraph => {
                let quoted = match context.current_block() {
                    StructuralKind::BlockQuote => true,
                    _ => false,
                };
                if !quoted {
                    context.set_current_block(self.clone());
                }
                context.set_start_of_line(true);
            },
            StructuralKind::Heading(_) => {
                context.set_current_block(self.clone());
            },
            StructuralKind::CodeBlock(kind) => {
                let level = context.indentation();
                context.set_current_block(self.clone());
                context.set_indentation(level + 1);
                match kind {
                    CodeBlockKind::Indented => {
                        context.set_code_block_syntax("Plain Text");
                    },
                    CodeBlockKind::Fenced(syntax) => {
                        let name = capitalize(syntax.as_str());
                        context.set_code_block_syntax(name.as_str());
                    },
                }
            },
            StructuralKind::BlockQuote => {
                context.set_current_block(self.clone());
            },
            StructuralKind::List(_) => {
                let nested = match context.current_block() {
                    StructuralKind::List(_) => true,
                    _ => false,
                };
                let level = if nested {
                    context.indentation() + 1
                } else {
                    LIST_BASE_INDENTATION
                };
                context.set_indentation(level);
                context.set_current_block(self.clone());
                context.set_start_of_line(true);
            },
            StructuralKind::Item => {
                context.set_start_of_line(true);
            },
            StructuralKind::Emphasis => {
                context.add_modifier(Attribute::Underlined);
            },
            StructuralKind::Strong => {
                context.add_modifier(Attribute::Bold);
            },
            StructuralKind::Other => {},
        }
    }

    /// Closes a construct of this kind: emits what separates it from what
    /// follows, and takes back what its start did to the context.
    pub fn end(&self, context: &mut Context, stdout: &mut StdoutHandler)
        ensures
            final(context)@ == self@.ended(old(context)@),
            final(stdout)@ == old(stdout)@ + self@.end_content(),
    {
        match self {
            StructuralKind::Paragraph => {
                stdout.queue_styled_content_v2(blank_line());
            },
            StructuralKind::Heading(_) => {
                stdout.queue_styled_content_v2(blank_line());
            },
            StructuralKind::CodeBlock(_) => {
                let level = context.indentation();
                if level > 0 {
                    context.set_indentation(level - 1);
                }
                stdout.queue_styled_content_v2(newline());
            },
            StructuralKind::BlockQuote => {
                stdout.queue_styled_content_v2(newline());
            },
            StructuralKind::List(_) => {
                let level = context.indentation();
                if level > 0 {
                    context.set_indentation(level - 1);
                }
                stdout.queue_styled_content_v2(newline());
            },
            StructuralKind::Item => {
                let order = match context.current_block() {
                    StructuralKind::List(Some(order)) => Some(*order),
                    _ => None,
                };
                if let Some(order) = order {
                    context.set_current_block(StructuralKind::List(Some(next_order(order))));
                }
                assert(stdout@ =~= old(stdout)@ + self@.end_content());
            },
            StructuralKind::Emphasis => {
                context.remove_modifier(Attribute::Underlined);
                assert(stdout@ =~= old(stdout)@ + self@.end_content());
            },
            StructuralKind::Strong => {
                context.remove_modifier(Attribute::Bold);
                assert(stdout@ =~= old(stdout)@ + self@.end_content());
            },
            StructuralKind::Other => {
                assert(stdout@ =~= old(stdout)@ + self@.end_content());
            },
        }
    }

    /// Emits a text run in a construct of this kind, by the rule of the kind
    /// and with what belongs before the text where the run begins a line.
    /// After it the line has begun. Where the rule fails, nothing is emitted
    /// and the context stays as it was.
    pub fn handle_text(
        &self,
        context: &mut Context,
        stdout: &mut StdoutHandler,
        style_set: &StyleSet,
        text: &str,
    ) -> (done: Result<(), RenderError>)
        ensures
            match done {
                Ok(_) => {
                    &&& self@.text_content(text@, old(context)@, *style_set) matches Ok(contents)
                    &&& final(stdout)@ == old(stdout)@ + contents
                    &&& final(context)@ == (ContextView { start_of_line: false, ..old(context)@ })
                },
                Err(error) => {
                    &&& self@.text_content(text@, old(context)@, *style_set) == Err::<
                        Seq<ContentView>,
                        RenderErrorView,
                    >(error@)
                    &&& final(stdout)@ == old(stdout)@
                    &&& final(context)@ == old(context)@
                },
            },
    {
        let contents = match self {
            StructuralKind::CodeBlock(_) => {
                match style_set.code_block().get_styled_content(text, context) {
                    Ok(contents) => contents,
                    Err(error) => {
                        return Err(error);
                    },
                }
            },
            StructuralKind::List(order) => {
                match order {
                    Some(order) => style_set.ordered_list().get_styled_content(
                        text,
                        context,
                        *order,
                    ),
                    None => style_set.unordered_list().get_styled_content(text, context),
                }
            },
            StructuralKind::BlockQuote => style_set.block_quote().get_styled_content(text, context),
            _ => {
                let level = match context.current_block() {
                    StructuralKind::Heading(level) => Some(*level),
                    _ => None,
                };
                let paragraph = match context.current_block() {
                    StructuralKind::Paragraph => true,
                    _ => false,
                };
                if paragraph {
                    style_set.paragraph().get_styled_content(text, context)
                } else if let Some(level) = level {
                    style_set.heading(heading_index(level)).get_styled_content(text, context)
                } else {
                    style_set.default().get_styled_content(text, context)
                }
            },
        };
        stdout.queue_styled_content_v2(contents);
        context.set_start_of_line(false);
        Ok(())
    }
}

} // verus!
