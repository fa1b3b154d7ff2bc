//! The drawing of a snapshot and the refresh loop that paces it.

pub mod app;
pub mod tui;
