//! Verified logic of a modding toolkit for Baldur's Gate 3.
pub mod app;
pub mod numeric;
pub mod registration;
pub mod state;
pub mod tabs;
pub mod text;
