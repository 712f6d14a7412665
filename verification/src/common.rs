//! Data shared by every component kind.

pub mod color_pattern;
