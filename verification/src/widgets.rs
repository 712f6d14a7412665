//! The component kinds this layer adds to the host toolkit.

pub mod rectangle;
pub mod sidebar;
pub mod sidebar_item;
