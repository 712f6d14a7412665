//! Raw input events, the cursor, and the outcomes of event dispatch and
//! hover queries.

use vstd::prelude::*;

use crate::geometry::{Point, Rect};

verus! {

/// A raw input event, as the host toolkit hands it to dispatch. Pressing
/// the primary mouse button and touching the screen are the two
/// press-equivalent events; everything else passes through untouched.
#[derive(Clone, Copy, Debug, PartialEq, Eq, Structural)]
pub enum Event {
    /// The primary (left) mouse button went down.
    MouseLeftPressed,
    /// A finger went down on a touch surface.
    FingerPressed,
    /// The pointer moved; the new position travels in the [`Cursor`].
    CursorMoved,
    /// Any event this layer does not react to.
    Other,
}

/// Whether an event is a primary press (mouse or touch-equivalent).
pub open spec fn is_press_spec(e: Event) -> bool {
    e is MouseLeftPressed || e is FingerPressed
}

/// The pointer position for the current pass, if the host knows one.
#[derive(Clone, Copy, Debug, PartialEq, Eq, Structural)]
pub enum Cursor {
    /// The pointer is at this position.
    Available(Point),
    /// No pointer position (the pointer left the window, or there is none).
    Unavailable,
}

impl Cursor {
    /// Whether the pointer is known and inside `bounds`.
    pub open spec fn is_over_spec(self, bounds: Rect) -> bool {
        self matches Cursor::Available(p) && bounds.contains_spec(p)
    }

    /// Hit-test the pointer against a resolved geometry box.
    pub fn is_over(&self, bounds: &Rect) -> (r: bool)
        ensures
            r == self.is_over_spec(*bounds),
    {
        match self {
            Cursor::Available(p) => bounds.contains(*p),
            Cursor::Unavailable => false,
        }
    }
}

/// The outcome of dispatching one event into a component: captured here
/// (stop propagating) or ignored.
#[derive(Clone, Copy, Debug, PartialEq, Eq, Structural)]
pub enum EventStatus {
    Captured,
    Ignored,
}

/// The pointer shape a component asks for under the current cursor.
#[derive(Clone, Copy, Debug, PartialEq, Eq, Structural)]
pub enum Interaction {
    /// The default, idle pointer.
    Idle,
    /// The pointing-hand shape an interactive component shows when hovered.
    Pointer,
}

impl Default for Interaction {
    fn default() -> (i: Self)
        ensures
            i == Interaction::Idle,
    {
        Interaction::Idle
    }
}

} // verus!
