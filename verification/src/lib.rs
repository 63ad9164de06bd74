//! A resumable download engine: the transfer state machine, the record that
//! outlives a restart, and the validator that decides whether a URL is worth
//! adding. All input and output is left to the caller; every function here maps
//! plain values to plain values and carries a proved contract.

pub mod coordinator;
pub mod db;
pub mod download_item;
pub mod ui;
pub mod utils;
