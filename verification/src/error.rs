//! What can go wrong in a render.

use vstd::prelude::*;
use vstd::string::*;

verus! {

/// Why a text run could not be rendered.
#[derive(Debug, PartialEq, Eq)]
pub enum RenderError {
    /// A code block asks for a grammar that the highlighter does not hold.
    UnknownSyntax(String),
    /// The highlighter failed on a line of code.
    Highlighting,
}

/// What a render error is.
pub enum RenderErrorView {
    UnknownSyntax(Seq<char>),
    Highlighting,
}

impl View for RenderError {
    type V = RenderErrorView;

    open spec fn view(&self) -> RenderErrorView {
        match *self {
            RenderError::UnknownSyntax(name) => RenderErrorView::UnknownSyntax(name@),
            RenderError::Highlighting => RenderErrorView::Highlighting,
        }
    }
}

impl RenderErrorView {
    /// The words that describe the error.
    pub open spec fn message(self) -> Seq<char> {
        match self {
            RenderErrorView::UnknownSyntax(name) => "unknown syntax: "@ + name,
            RenderErrorView::Highlighting => "highlighting failed"@,
        }
    }
}

impl RenderError {
    /// The words that describe the error.
    pub fn message(&self) -> (words: String)
        ensures
            words@ == self@.message(),
    {
        match self {
            RenderError::UnknownSyntax(name) => {
                let mut words = "unknown syntax: ".to_owned();
                words.append(name.as_str());
                words
            },
            RenderError::Highlighting => "highlighting failed".to_owned(),
        }
    }
}

} // verus!
