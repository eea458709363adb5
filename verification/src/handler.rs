//! The handlers that the dispatcher routes to, one per activity type.

pub mod like;
pub mod undo;
