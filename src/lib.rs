//! A windowed, in-place browser for a version-control log: the records it
//! shows, the parser that reads them from the log tool's output, the scroll
//! state, and the terminal frames that draw it.

pub mod text;
pub mod record;
pub mod viewport;
pub mod render;
pub mod query;
pub mod commit;
