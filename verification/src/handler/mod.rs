//! What each event does to the context and to the queue of fragments.

pub mod event;
pub mod stdout;
pub mod kind;

pub use event::RenderState;
pub use stdout::StdoutHandler;
pub use kind::{heading_index, next_order, LIST_BASE_INDENTATION};
