//! Watcher: state, input handling and text rendering for a terminal client
//! that looks up player profiles, ranked standings, champion masteries and
//! match histories.

pub mod api;
pub mod args;
pub mod display;
pub mod records;
pub mod text;
pub mod ui;
pub mod utils;
