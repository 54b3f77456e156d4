//! Planning of output updates: from a batch of normalized (x, y, color)
//! updates to the exact sequence of device operations that renders it.
//!
//! One call produces one `LightUpdate` event carrying the whole batch, and
//! the device operations are applied in the given order — batching is for
//! call-site convenience, not transactionality.

use vstd::prelude::*;

use crate::palette::palette_id;
use crate::palette::spec_palette_id;
use crate::translate::button_of_normalized;
use crate::translate::normalized_to_button;
use crate::translate::RawButton;

verus! {

/// The one device operation that renders a single normalized update: the
/// device-native button and the palette entry to light it with.
pub open spec fn device_op_of(u: (u8, u8, u8)) -> (RawButton, u8) {
    (button_of_normalized(u.0, u.1), spec_palette_id(u.2))
}

/// Turns a batch of normalized updates into the device operations that
/// render it: one operation per update, in the given order, each addressing
/// the update's button with the update's mapped palette entry.
pub fn plan_light_updates(updates: &Vec<(u8, u8, u8)>) -> (ops: Vec<(RawButton, u8)>)
    ensures
        ops@.len() == updates@.len(),
        forall|k: int| 0 <= k < updates@.len() ==> ops@[k] == device_op_of(updates@[k]),
{
    let mut ops: Vec<(RawButton, u8)> = Vec::new();
    let mut i: usize = 0;
    while i < updates.len()
        invariant
            i <= updates@.len(),
            ops@.len() == i,
            forall|k: int| 0 <= k < i ==> ops@[k] == device_op_of(updates@[k]),
        decreases updates@.len() - i,
    {
        let (x, y, color) = updates[i];
        let button = normalized_to_button(x, y);
        let id = palette_id(color);
        ops.push((button, id));
        i = i + 1;
    }
    ops
}

/// Copies a batch of updates, element for element.
pub fn copy_updates(updates: &Vec<(u8, u8, u8)>) -> (r: Vec<(u8, u8, u8)>)
    ensures
        r@ == updates@,
{
    let mut r: Vec<(u8, u8, u8)> = Vec::new();
    let mut i: usize = 0;
    while i < updates.len()
        invariant
            i <= updates@.len(),
            r@ == updates@.take(i as int),
        decreases updates@.len() - i,
    {
        r.push(updates[i]);
        proof {
            assert(r@ =~= updates@.take(i + 1));
        }
        i = i + 1;
    }
    proof {
        assert(updates@.take(updates@.len() as int) =~= updates@);
    }
    r
}

} // verus!
