//! Convenience components kept for callers of the earlier surface.

pub mod rect_fill;
