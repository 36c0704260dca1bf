//! Application state, as plain values the tabs read and update.
pub mod app;
pub mod browser;
pub mod dyes;
pub mod editor;
pub mod gr2;
pub mod pak_ops;
pub mod paths;
pub mod search;
pub mod tools;
