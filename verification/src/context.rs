//! The running state of a render.

use crate::event::{StructuralKind, StructuralKindView};
use crate::style::{Attribute, Attributes};
use vstd::prelude::*;
use vstd::string::*;

verus! {

/// The state that one traversal of a document carries from event to event.
#[derive(Debug)]
pub struct Context {
    current_block: StructuralKind,
    code_block_syntax: String,
    indentation: usize,
    modifiers: Attributes,
    start_of_line: bool,
}

/// What a context is.
pub struct ContextView {
    /// The structural kind that the traversal stands in.
    pub current_block: StructuralKindView,
    /// The name of the grammar that code blocks are highlighted with.
    pub code_block_syntax: Seq<char>,
    /// The nesting depth, and so the number of margin units before a line.
    pub indentation: nat,
    /// The inline modifiers in force.
    pub modifiers: Attributes,
    /// Whether what is emitted next begins a new visual line.
    pub start_of_line: bool,
}

/// The grammar that code is highlighted with where it names none.
pub open spec fn plain_text_syntax() -> Seq<char> {
    "Plain Text"@
}

impl ContextView {
    /// The context that a render starts in.
    pub open spec fn initial() -> ContextView {
        ContextView {
            current_block: StructuralKindView::Paragraph,
            code_block_syntax: plain_text_syntax(),
            indentation: 0,
            modifiers: Attributes::empty(),
            start_of_line: true,
        }
    }
}

impl View for Context {
    type V = ContextView;

    closed spec fn view(&self) -> ContextView {
        ContextView {
            current_block: self.current_block@,
            code_block_syntax: self.code_block_syntax@,
            indentation: self.indentation as nat,
            modifiers: self.modifiers,
            start_of_line: self.start_of_line,
        }
    }
}

impl Context {
    /// The context that a render starts in.
    pub fn new() -> (context: Context)
        ensures
            context@ == ContextView::initial(),
    {
        Context {
            current_block: StructuralKind::Paragraph,
            code_block_syntax: "Plain Text".to_owned(),
            indentation: 0,
            modifiers: Attributes::new(),
            start_of_line: true,
        }
    }

    /// The structural kind that the traversal stands in.
    pub fn current_block(&self) -> (block: &StructuralKind)
        ensures
            block@ == self@.current_block,
    {
        &self.current_block
    }

    /// Makes `block` the structural kind that the traversal stands in.
    pub fn set_current_block(&mut self, block: StructuralKind)
        ensures
            final(self)@ == (ContextView { current_block: block@, ..old(self)@ }),
    {
        self.current_block = block;
    }

    /// The name of the grammar that code blocks are highlighted with.
    pub fn code_block_syntax(&self) -> (syntax: &str)
        ensures
            syntax@ == self@.code_block_syntax,
    {
        self.code_block_syntax.as_str()
    }

    /// Sets the name of the grammar that code blocks are highlighted with.
    pub fn set_code_block_syntax(&mut self, code_block_syntax: &str)
        ensures
            final(self)@ == (ContextView {
                code_block_syntax: code_block_syntax@,
                ..old(self)@
            }),
    {
        self.code_block_syntax = code_block_syntax.to_owned();
    }

    /// The nesting depth.
    pub fn indentation(&self) -> (level: usize)
        ensures
            level == self@.indentation,
    {
        self.indentation
    }

    /// Sets the nesting depth.
    pub fn set_indentation(&mut self, level: usize)
        ensures
            final(self)@ == (ContextView { indentation: level as nat, ..old(self)@ }),
    {
        self.indentation = level;
    }

    /// The inline modifiers in force.
    pub fn modifiers(&self) -> (modifiers: &Attributes)
        ensures
            *modifiers == self@.modifiers,
    {
        &self.modifiers
    }

    /// Puts `modifier` in force. Adding one that is in force changes nothing.
    pub fn add_modifier(&mut self, modifier: Attribute)
        ensures
            final(self)@ == (ContextView {
                modifiers: old(self)@.modifiers.inserted(modifier),
                ..old(self)@
            }),
            final(self)@.modifiers@ == old(self)@.modifiers@.insert(modifier),
    {
        self.modifiers.set(modifier);
    }

    /// Takes `modifier` out of force. Removing one that is not in force changes
    /// nothing.
    pub fn remove_modifier(&mut self, modifier: Attribute)
        ensures
            final(self)@ == (ContextView {
                modifiers: old(self)@.modifiers.removed(modifier),
                ..old(self)@
            }),
            final(self)@.modifiers@ == old(self)@.modifiers@.remove(modifier),
    {
        self.modifiers.unset(modifier);
    }

    /// Whether what is emitted next begins a new visual line.
    pub fn start_of_line(&self) -> (start_of_line: bool)
        ensures
            start_of_line == self@.start_of_line,
    {
        self.start_of_line
    }

    /// Says whether what is emitted next begins a new visual line.
    pub fn set_start_of_line(&mut self, start_of_line: bool)
        ensures
            final(self)@ == (ContextView { start_of_line, ..old(self)@ }),
    {
        self.start_of_line = start_of_line;
    }
}

impl Default for Context {
    fn default() -> (context: Context)
        ensures
            context@ == ContextView::initial(),
    {
        Context::new()
    }
}

} // verus!
