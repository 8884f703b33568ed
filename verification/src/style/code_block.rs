//! The rule for code blocks, which hands each line to the syntax highlighter.

use super::{content_views, Content, ContentView};
use crate::context::{Context, ContextView};
use crate::error::{RenderError, RenderErrorView};
use crate::highlight::{
    default_theme, default_theme_name, find_syntax, highlight_line, highlighted,
    load_default_syntaxes, load_default_theme, shipped, syntax_named,
};
use crate::text::{lines, margin, margin_string, pad_line, padded, split_lines, string_views};
use vstd::prelude::*;
use vstd::string::*;

verus! {

/// The rule for code blocks: the grammars and the theme of the highlighter,
/// and the width in bytes that each line is filled up to. The grammars are
/// those that the highlighter ships.
pub struct CodeBlockStyle {
    syntax_set: syntect::parsing::SyntaxSet,
    theme: syntect::highlighting::Theme,
    width: usize,
}

/// The width that lines of code are filled up to where none is configured.
pub const DEFAULT_CODE_WIDTH: usize = 80;

impl CodeBlockStyle {
    #[verifier::type_invariant]
    spec fn ships(self) -> bool {
        shipped(self.syntax_set)
    }

    /// The grammars of the rule.
    pub closed spec fn grammars(self) -> syntect::parsing::SyntaxSet {
        self.syntax_set
    }

    /// The theme of the rule.
    pub closed spec fn colors(self) -> syntect::highlighting::Theme {
        self.theme
    }

    /// The width in bytes that the rule fills each line up to.
    pub closed spec fn line_width(self) -> usize {
        self.width
    }

    /// A rule with the grammars that the highlighter ships and its theme
    /// called `theme`; `None` where it ships no theme of that name.
    pub fn new(width: usize, theme: &str) -> (made: Option<CodeBlockStyle>)
        ensures
            match made {
                Some(rule) => rule.line_width() == width && default_theme(theme@) == Some(
                    rule.colors(),
                ),
                None => default_theme(theme@) is None,
            },
            theme@ == default_theme_name() ==> made is Some,
    {
        match load_default_theme(theme) {
            Some(theme) => Some(
                CodeBlockStyle { syntax_set: load_default_syntaxes(), theme, width },
            ),
            None => None,
        }
    }

    /// The grammars of the rule.
    pub fn syntax_set(&self) -> (syntaxes: &syntect::parsing::SyntaxSet)
        ensures
            *syntaxes == self.grammars(),
    {
        &self.syntax_set
    }

    /// The width in bytes that the rule fills each line up to.
    pub fn width(&self) -> (width: usize)
        ensures
            width == self.line_width(),
    {
        self.width
    }

    /// Whether the rule has a grammar called `name`.
    pub open spec fn knows(self, name: Seq<char>) -> bool {
        syntax_named(self.grammars(), name) is Some
    }

    /// One line of code as the highlighter returns it: filled up to the
    /// rule's width, closed by a line feed, and colored by the grammar called
    /// `name`. `None` where the highlighter fails on the line.
    pub open spec fn highlighted_line(self, name: Seq<char>, line: Seq<char>) -> Option<Seq<char>> {
        highlighted(
            self.grammars(),
            syntax_named(self.grammars(), name).unwrap(),
            self.colors(),
            padded(line, self.line_width() as nat),
        )
    }

    /// Whether the highlighter succeeds on each of `lines`.
    pub open spec fn highlights(self, name: Seq<char>, lines: Seq<Seq<char>>) -> bool {
        forall|i: int| 0 <= i < lines.len() ==> (#[trigger] self.highlighted_line(name, lines[i]))
            is Some
    }

    /// The fragment of one line of code: the highlighted line behind the
    /// margin, printed as it is, since its colors are part of the text.
    pub open spec fn line_content(self, line: Seq<char>, context: ContextView) -> ContentView {
        ContentView::Plain {
            text: margin(context.indentation) + self.highlighted_line(
                context.code_block_syntax,
                line,
            ).unwrap(),
        }
    }

    /// The fragments that the rule makes of a text run, one for each physical
    /// line of it, in order; or the reason why it makes none.
    pub open spec fn styled_content(self, text: Seq<char>, context: ContextView) -> Result<
        Seq<ContentView>,
        RenderErrorView,
    > {
        let code = lines(text);
        if !self.knows(context.code_block_syntax) {
            Err(RenderErrorView::UnknownSyntax(context.code_block_syntax))
        } else if !self.highlights(context.code_block_syntax, code) {
            Err(RenderErrorView::Highlighting)
        } else {
            Ok(Seq::new(code.len(), |i: int| self.line_content(code[i], context)))
        }
    }

    /// Styles the text of a code block in the grammar that the context names.
    /// Each physical line is filled up to the rule's width, highlighted, and
    /// put behind the margin. Fails where the grammar is not among those of
    /// the rule, and where the highlighter fails on a line.
    pub fn get_styled_content(&self, text: &str, context: &Context) -> (contents: Result<
        Vec<Content>,
        RenderError,
    >)
        ensures
            match contents {
                Ok(contents) => self.styled_content(text@, context@) == Ok::<
                    Seq<ContentView>,
                    RenderErrorView,
                >(content_views(contents@)),
                Err(error) => self.styled_content(text@, context@) == Err::<
                    Seq<ContentView>,
                    RenderErrorView,
                >(error@),
            },
    {
        proof {
            use_type_invariant(self);
        }
        let name = context.code_block_syntax();
        let syntax = match find_syntax(&self.syntax_set, name) {
            Some(syntax) => syntax,
            None => {
                return Err(RenderError::UnknownSyntax(name.to_owned()));
            },
        };
        let code = split_lines(text);
        let ghost code_views = lines(text@);
        let mut contents: Vec<Content> = Vec::new();
        let mut done: usize = 0;
        while done < code.len()
            invariant
                done <= code.len(),
                string_views(code@) == code_views,
                code_views == lines(text@),
                name@ == context@.code_block_syntax,
                shipped(self.syntax_set),
                syntax_named(self.syntax_set, name@) == Some(*syntax),
                contents.len() == done,
                forall|i: int|
                    0 <= i < done ==> (#[trigger] self.highlighted_line(name@, code_views[i]))
                        is Some,
                forall|i: int|
                    0 <= i < done ==> (#[trigger] contents[i])@ == self.line_content(
                        code_views[i],
                        context@,
                    ),
            decreases code.len() - done,
        {
            let line = pad_line(code[done].as_str(), self.width);
            assert(code[done as int]@ == code_views[done as int]);
            match highlight_line(&self.syntax_set, syntax, &self.theme, line.as_str()) {
                Ok(escaped) => {
                    let mut shown = margin_string(context.indentation());
                    shown.append(escaped.as_str());
                    contents.push(Content::plain(shown));
                },
                Err(_) => {
                    assert(self.highlighted_line(name@, code_views[done as int]) is None);
                    return Err(RenderError::Highlighting);
                },
            }
            done = done + 1;
        }
        assert(content_views(contents@) =~= Seq::new(
            code_views.len(),
            |i: int| self.line_content(code_views[i], context@),
        ));
        Ok(contents)
    }

    /// Whether the rule is the one used where none is configured: lines of
    /// eighty bytes, in the theme that the highlighter ships as
    /// `base16-ocean.dark`.
    pub open spec fn is_default(self) -> bool {
        self.line_width() == DEFAULT_CODE_WIDTH && default_theme(default_theme_name()) == Some(
            self.colors(),
        )
    }
}

impl Default for CodeBlockStyle {
    fn default() -> (rule: CodeBlockStyle)
        ensures
            rule.is_default(),
    {
        match CodeBlockStyle::new(DEFAULT_CODE_WIDTH, "base16-ocean.dark") {
            Some(rule) => rule,
            None => vstd::pervasive::unreached(),
        }
    }
}

} // verus!
