//! The battery-charge row: the firmware's charge modes 0, 1 and 2.

use vstd::prelude::*;

verus! {

/// One toggle of the row.
pub struct ChargeEntry {
    pub label: &'static str,
    pub value: i32,
}

/// The row's toggles, in order: Full (0), Balanced (1), Lifespan (2).
pub fn charge_entries() -> (r: Vec<ChargeEntry>)
    ensures
        r@.len() == 3,
        r@[0].value == 0 && r@[0].label@ == "Full"@,
        r@[1].value == 1 && r@[1].label@ == "Balanced"@,
        r@[2].value == 2 && r@[2].label@ == "Lifespan"@,
{
    vec![
        ChargeEntry { label: "Full", value: 0 },
        ChargeEntry { label: "Balanced", value: 1 },
        ChargeEntry { label: "Lifespan", value: 2 },
    ]
}

} // verus!
