//! A two-layer ASCII level grid with brushes, pointer hit-testing and CSV export.

pub mod app;
pub mod brush;
pub mod export;
pub mod grid;
pub mod icon;
pub mod layout;
