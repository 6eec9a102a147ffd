//! The panel-overdrive switch: asusd's attribute is 1 for on and 0 for off.

use vstd::prelude::*;

verus! {

/// Whether the attribute value `current` shows overdrive on.
pub open spec fn overdrive_on(current: i32) -> bool {
    current == 1
}

/// The attribute value for the switch position `active`.
pub open spec fn overdrive_code(active: bool) -> i32 {
    if active {
        1
    } else {
        0
    }
}

/// Whether the switch starts on, given the attribute's current value.
pub fn switch_on(current: i32) -> (r: bool)
    ensures
        r == overdrive_on(current),
{
    current == 1
}

/// The value written when the switch is moved to `active`.
pub fn value_for(active: bool) -> (r: i32)
    ensures
        r == overdrive_code(active),
{
    if active {
        1
    } else {
        0
    }
}

/// The switch shows the position that was last written.
pub proof fn lemma_overdrive_roundtrip(active: bool)
    ensures
        overdrive_on(overdrive_code(active)) == active,
{
}

} // verus!
