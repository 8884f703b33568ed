//! Theorems about whole runs of events.

pub mod headings;
pub mod lists;
pub mod modifiers;
pub mod paragraphs;
