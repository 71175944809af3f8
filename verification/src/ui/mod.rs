//! The interactive mode: its state, its keys and what it shows.

pub mod app;
pub mod keys;
pub mod layout;
pub mod ui;
