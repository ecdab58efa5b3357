//! The slots of the player and of opened containers: dragging, tooltips, the
//! worn set and what lies under the crosshair.
pub mod drag;
pub mod panel;
pub mod paperdoll;
pub mod pickup;
pub mod slot;
