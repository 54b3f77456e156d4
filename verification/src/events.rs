//! The normalized vocabulary of controller events.
//!
//! One event is produced per hardware transition or output action. The
//! coordinates are normalized: row 0 is reserved for the control buttons,
//! rows 1 and up address the grid, shifted by one against the device's
//! native grid rows.

use vstd::prelude::*;

verus! {

/// A normalized controller event, fanned out to every subscriber of a
/// controller's event bus.
#[derive(Clone, Debug, PartialEq)]
pub enum ControllerEvent {
    /// A button transitioned down at normalized coordinate (x, y).
    Press { x: u8, y: u8 },
    /// A button transitioned up at normalized coordinate (x, y).
    Release { x: u8, y: u8 },
    /// All device output was reset.
    ClearBoard,
    /// Output colors were changed; each entry is (x, y, color index),
    /// applied in the given order.
    LightUpdate { updates: Vec<(u8, u8, u8)> },
    /// Liveness marker, reserved in the vocabulary but not produced by the
    /// current logic.
    Heartbeat,
}

} // verus!
