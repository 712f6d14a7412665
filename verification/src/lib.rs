//! A small extension layer of custom visual components for a retained-mode
//! UI toolkit: filled rectangles, a labeled sidebar entry, and a sidebar
//! container.
//!
//! The layer implements the toolkit's three cross-cutting protocols over
//! plain integer device units:
//!
//! - layout negotiation ([`layout`]): a declarative per-axis size policy is
//!   resolved against space constraints into a concrete geometry box;
//! - paint ([`paint`]): a resolved geometry and a resolved style are turned
//!   into draw primitives, parent before child;
//! - input event dispatch ([`event`], the widgets' `on_event` methods):
//!   depth-first, children-first traversal that converts a raw input event
//!   into at most one captured action.
//!
//! A theming indirection ([`theme`], the widgets' style catalogs) decouples
//! visual appearance from component logic: a style is a pure function of the
//! theme and a semantic color role or interaction status.
//!
//! The host toolkit owns the frame loop, the persisted interaction-state
//! arena ([`tree`]), the renderer, and the platform input sources; it hands
//! this layer constraints, events and a theme, and takes back geometry,
//! capture results and draw primitives.

use vstd::prelude::*;

pub mod common;
pub mod event;
pub mod geometry;
pub mod helpers;
pub mod layout;
pub mod paint;
pub mod theme;
pub mod tree;
pub mod widgets;

verus! {

pub use common::color_pattern::ColorPattern;
pub use widgets::rectangle::Rectangle;
pub use widgets::sidebar::SideBar;

} // verus!
