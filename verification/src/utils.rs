//! Helpers shared by the engine.

pub mod debounce;
pub mod http;
pub mod text;
