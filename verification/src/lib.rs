//! Error types and scheduler descriptions of an entity component system, with
//! their messages stated exactly.
pub mod text;
pub mod ids;
pub mod error;
pub mod scheduler;
