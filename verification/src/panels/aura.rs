//! The keyboard-backlight panel: brightness levels and basic effects.

use vstd::prelude::*;

verus! {

/// The caption of a brightness level: Off, Low, Med, High for 0 to 3, and
/// "?" for any other.
pub fn brightness_label(value: u32) -> (r: &'static str)
    ensures
        value == 0 ==> r@ == "Off"@,
        value == 1 ==> r@ == "Low"@,
        value == 2 ==> r@ == "Med"@,
        value == 3 ==> r@ == "High"@,
        value > 3 ==> r@ == "?"@,
{
    match value {
        0 => "Off",
        1 => "Low",
        2 => "Med",
        3 => "High",
        _ => "?",
    }
}

/// The brightness levels offered where asusd does not report them.
pub fn fallback_brightness_levels() -> (r: Vec<u32>)
    ensures
        r@ == seq![0u32, 1, 2, 3],
{
    vec![0, 1, 2, 3]
}

/// The effects offered where asusd does not report them.
pub fn fallback_basic_modes() -> (r: Vec<u32>)
    ensures
        r@ == seq![0u32],
{
    vec![0]
}

} // verus!
