//! A single-pass renderer that turns a stream of Markdown events into an
//! ordered sequence of styled terminal fragments.
//!
//! A render walks the events of a document once. Each event brings the
//! [`context::Context`] up to date (the structural kind that the walk stands
//! in, the indentation, the modifiers in force, the grammar of the code block,
//! and whether the next text begins a line) and may emit fragments, which the
//! [`style::StyleSet`] makes of text runs. What stands before the text of a
//! line (the margin, a bullet, the number of a list item, the bar of a quote)
//! is emitted with the first text of the line, never with the event that
//! opens the construct.
//!
//! Every function is specified over views: [`event::DocumentEventView`] for
//! events, [`context::ContextView`] for the context, [`style::ContentView`]
//! for fragments. [`render::rendered`] is the whole render as a mathematical
//! function, and [`render::render`] computes it. The theorems in [`proofs`]
//! are stated over it.
//!
//! Two engines are called and not verified: the Markdown parser, bound in
//! [`parse`], and the syntax highlighter, bound in [`highlight`].

pub mod context;
pub mod error;
pub mod event;
pub mod handler;
pub mod highlight;
pub mod parse;
pub mod proofs;
pub mod render;
pub mod style;
pub mod text;
