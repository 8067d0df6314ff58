//! Named strings of the engine.
pub mod cache;
pub mod font;
