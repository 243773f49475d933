//! An append-only container that keeps every value it was ever given and
//! exposes the most recent one.

pub mod container;
pub mod laws;
pub mod model;
pub mod render;

pub use container::HistoryBox;
