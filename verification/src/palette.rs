//! The palette mapper: a pure, total function from a logical color index to
//! the device-native palette entry.
//!
//! Index 0 is "off"; indices 1 through 8 are named colors. Every unmapped
//! index falls back to "off" rather than failing.

use vstd::prelude::*;

verus! {

/// The device palette entry for a logical color index: 0 is off, 1 white,
/// 2 red, 3 yellow, 4 blue, 5 magenta, 6 brown, 7 cyan, 8 green; everything
/// else falls back to off.
pub open spec fn spec_palette_id(index: u8) -> u8 {
    if index == 1 {
        3
    } else if index == 2 {
        5
    } else if index == 3 {
        13
    } else if index == 4 {
        45
    } else if index == 5 {
        53
    } else if index == 6 {
        61
    } else if index == 7 {
        90
    } else if index == 8 {
        21
    } else {
        0
    }
}

/// Maps a logical color index to the device palette entry it is rendered
/// with. Total: unmapped indices render as "off" (palette entry 0).
pub fn palette_id(index: u8) -> (id: u8)
    ensures
        id == spec_palette_id(index),
{
    match index {
        1 => 3,
        2 => 5,
        3 => 13,
        4 => 45,
        5 => 53,
        6 => 61,
        7 => 90,
        8 => 21,
        _ => 0,
    }
}

} // verus!
