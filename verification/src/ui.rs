//! What stands between the user and the engine.

pub mod url_input;
