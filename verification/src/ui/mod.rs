//! What the presentation layer shows, as plain values.

pub mod format;
pub mod sparkline;
pub mod theme;
