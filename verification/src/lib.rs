//! Verified core of a terminal branch switcher for Git: branch ordering,
//! deletion rules, pull-request status tracking, remote URL parsing,
//! the key-driven selection state machine, and the text layout of the
//! branch table.

pub mod pr;
pub mod text;
pub mod remote;
pub mod branch;
pub mod app;
pub mod ui;
pub mod github;
pub mod laws;
