//! Draw primitives: what the paint protocol emits. The host's renderer
//! consumes these in order; this layer only decides what to draw where.

use vstd::prelude::*;

use crate::geometry::Rect;
use crate::theme::Color;

verus! {

/// A filled rectangle with uniform corner rounding.
#[derive(Clone, Copy, Debug, PartialEq, Eq, Structural)]
pub struct Quad {
    pub bounds: Rect,
    pub border_radius: usize,
    pub background: Color,
}

/// One element of a component's paint output, in draw order: parent
/// primitives come before child ones, so children paint on top.
#[derive(Clone, Copy, Debug, PartialEq, Eq, Structural)]
pub enum Primitive {
    /// Fill a rounded rectangle.
    Quad(Quad),
    /// Delegate to the wrapped child component's own paint, at the child's
    /// resolved geometry.
    Content { bounds: Rect },
}

} // verus!
