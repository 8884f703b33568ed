//! The input of a render: structural events, and the kinds of construct they
//! open and close.

use vstd::prelude::*;

verus! {

/// How a code block was written.
#[derive(Debug, PartialEq, Eq)]
pub enum CodeBlockKind {
    /// Indented code, which names no language.
    Indented,
    /// Fenced code, with the info string of its fence.
    Fenced(String),
}

/// What a code block kind is, its info string as a sequence of characters.
pub enum CodeBlockKindView {
    Indented,
    Fenced(Seq<char>),
}

impl View for CodeBlockKind {
    type V = CodeBlockKindView;

    open spec fn view(&self) -> CodeBlockKindView {
        match *self {
            CodeBlockKind::Indented => CodeBlockKindView::Indented,
            CodeBlockKind::Fenced(info) => CodeBlockKindView::Fenced(info@),
        }
    }
}

impl Clone for CodeBlockKind {
    fn clone(&self) -> (copy: CodeBlockKind)
        ensures
            copy@ == self@,
    {
        match self {
            CodeBlockKind::Indented => CodeBlockKind::Indented,
            CodeBlockKind::Fenced(info) => CodeBlockKind::Fenced(info.clone()),
        }
    }
}

/// A structural kind: a block or inline construct of the document. The kind
/// last entered is the position of the traversal.
#[derive(Debug, PartialEq, Eq)]
pub enum StructuralKind {
    Paragraph,
    /// A heading with its level, counted from 1.
    Heading(usize),
    CodeBlock(CodeBlockKind),
    BlockQuote,
    /// A list; an ordered one holds the number of its next item.
    List(Option<u64>),
    Item,
    Emphasis,
    Strong,
    /// A construct without a style of its own.
    Other,
}

/// What a structural kind is.
pub enum StructuralKindView {
    Paragraph,
    Heading(usize),
    CodeBlock(CodeBlockKindView),
    BlockQuote,
    List(Option<u64>),
    Item,
    Emphasis,
    Strong,
    Other,
}

impl View for StructuralKind {
    type V = StructuralKindView;

    open spec fn view(&self) -> StructuralKindView {
        match *self {
            StructuralKind::Paragraph => StructuralKindView::Paragraph,
            StructuralKind::Heading(level) => StructuralKindView::Heading(level),
            StructuralKind::CodeBlock(kind) => StructuralKindView::CodeBlock(kind@),
            StructuralKind::BlockQuote => StructuralKindView::BlockQuote,
            StructuralKind::List(start) => StructuralKindView::List(start),
            StructuralKind::Item => StructuralKindView::Item,
            StructuralKind::Emphasis => StructuralKindView::Emphasis,
            StructuralKind::Strong => StructuralKindView::Strong,
            StructuralKind::Other => StructuralKindView::Other,
        }
    }
}

impl Clone for StructuralKind {
    fn clone(&self) -> (copy: StructuralKind)
        ensures
            copy@ == self@,
    {
        match self {
            StructuralKind::Paragraph => StructuralKind::Paragraph,
            StructuralKind::Heading(level) => StructuralKind::Heading(*level),
            StructuralKind::CodeBlock(kind) => StructuralKind::CodeBlock(kind.clone()),
            StructuralKind::BlockQuote => StructuralKind::BlockQuote,
            StructuralKind::List(start) => StructuralKind::List(*start),
            StructuralKind::Item => StructuralKind::Item,
            StructuralKind::Emphasis => StructuralKind::Emphasis,
            StructuralKind::Strong => StructuralKind::Strong,
            StructuralKind::Other => StructuralKind::Other,
        }
    }
}

/// One event of the stream that a document is read as.
#[derive(Debug, PartialEq, Eq)]
pub enum DocumentEvent {
    /// A construct opens.
    Start(StructuralKind),
    /// A construct closes.
    End(StructuralKind),
    /// A run of literal text.
    Text(String),
    /// An inline code span.
    Code(String),
    SoftBreak,
    HardBreak,
    /// A thematic rule.
    Rule,
    /// An event that is not rendered.
    Other,
}

/// What an event is.
pub enum DocumentEventView {
    Start(StructuralKindView),
    End(StructuralKindView),
    Text(Seq<char>),
    Code(Seq<char>),
    SoftBreak,
    HardBreak,
    Rule,
    Other,
}

impl View for DocumentEvent {
    type V = DocumentEventView;

    open spec fn view(&self) -> DocumentEventView {
        match *self {
            DocumentEvent::Start(kind) => DocumentEventView::Start(kind@),
            DocumentEvent::End(kind) => DocumentEventView::End(kind@),
            DocumentEvent::Text(text) => DocumentEventView::Text(text@),
            DocumentEvent::Code(text) => DocumentEventView::Code(text@),
            DocumentEvent::SoftBreak => DocumentEventView::SoftBreak,
            DocumentEvent::HardBreak => DocumentEventView::HardBreak,
            DocumentEvent::Rule => DocumentEventView::Rule,
            DocumentEvent::Other => DocumentEventView::Other,
        }
    }
}

impl Clone for DocumentEvent {
    fn clone(&self) -> (copy: DocumentEvent)
        ensures
            copy@ == self@,
    {
        match self {
            DocumentEvent::Start(kind) => DocumentEvent::Start(kind.clone()),
            DocumentEvent::End(kind) => DocumentEvent::End(kind.clone()),
            DocumentEvent::Text(text) => DocumentEvent::Text(text.clone()),
            DocumentEvent::Code(text) => DocumentEvent::Code(text.clone()),
            DocumentEvent::SoftBreak => DocumentEvent::SoftBreak,
            DocumentEvent::HardBreak => DocumentEvent::HardBreak,
            DocumentEvent::Rule => DocumentEvent::Rule,
            DocumentEvent::Other => DocumentEvent::Other,
        }
    }
}

/// The views of a sequence of events, in order.
pub open spec fn event_views(events: Seq<DocumentEvent>) -> Seq<DocumentEventView> {
    events.map_values(|event: DocumentEvent| event@)
}

} // verus!
