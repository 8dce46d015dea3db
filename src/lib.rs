//! A month calendar for a desktop system-monitor widget, with optional
//! colour markup around labels and day cells.

pub mod date;
pub mod layout;
pub mod style;
pub mod render;
