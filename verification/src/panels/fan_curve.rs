//! The fan-curve editor: which profile it opens on, how a curve is packed
//! for the bus, and how dragging one point of a curve changes it.
//!
//! The editor enforces no monotonicity, since the firmware accepts whatever
//! it is sent: a drag moves the dragged point alone, to the temperature and
//! duty under the pointer (which the caller rounds into 0–110 °C and
//! 0–100 %), and leaves every other point as it was.

use vstd::prelude::*;
use crate::dbus::fancurves::{octet_seq, FanCurve, Octet, Profile};
use crate::text::{str_eq, str_eq_ignore_ascii_case, eq_ignore_ascii_case};

verus! {

/// The highest temperature a point may be dragged to.
pub const TEMP_CEILING: u8 = 110;

/// The number of points in a curve.
pub const POINTS: usize = 8;

/// The fan profile that matches the kernel's `platform_profile` name.
pub open spec fn profile_for_platform_name(name: Seq<char>) -> Profile {
    if name == "performance"@ {
        Profile::Performance
    } else if name == "quiet"@ {
        Profile::Quiet
    } else {
        Profile::Balanced
    }
}

/// The profile the editor opens on, given the active `platform_profile`.
pub fn profile_from_platform_name(name: &str) -> (r: Profile)
    ensures
        r == profile_for_platform_name(name@),
{
    if str_eq(name, "performance") {
        Profile::Performance
    } else if str_eq(name, "quiet") {
        Profile::Quiet
    } else {
        Profile::Balanced
    }
}

/// Whether a fan is drawn in the CPU colour: its name is "CPU" in any case.
pub fn is_cpu_fan(name: &str) -> (r: bool)
    ensures
        r == eq_ignore_ascii_case(name@, "CPU"@),
{
    str_eq_ignore_ascii_case(name, "CPU")
}

/// The octet that carries the eight points of `arr`.
pub fn tuple_from(arr: &[u8; 8]) -> (r: Octet)
    ensures
        octet_seq(r) == arr@,
{
    let r = (arr[0], arr[1], arr[2], arr[3], arr[4], arr[5], arr[6], arr[7]);
    assert(octet_seq(r) =~= arr@);
    r
}

/// The enabled curve that Apply sends for one fan.
pub fn curve_for_apply(name: &String, temps: &[u8; 8], duty: &[u8; 8]) -> (r: FanCurve)
    ensures
        r.name@ == name@,
        octet_seq(r.temps) == temps@,
        octet_seq(r.duty) == duty@,
        r.enabled,
{
    FanCurve { name: name.clone(), temps: tuple_from(temps), duty: tuple_from(duty), enabled: true }
}

/// The temperatures after point `p` is dragged to `t`.
pub open spec fn dragged_temps(temps: Seq<u8>, p: int, t: u8) -> Seq<u8> {
    temps.update(p, t)
}

/// The duty values after point `p` is dragged to duty `d`.
pub open spec fn dragged_duties(duties: Seq<u8>, p: int, d: u8) -> Seq<u8> {
    duties.update(p, d)
}

/// Moves point `point` of a curve to temperature `temp` and duty `duty`,
/// leaving the other points where they are.
pub fn apply_drag(temps: &mut [u8; 8], duties: &mut [u8; 8], point: usize, temp: u8, duty: u8)
    requires
        point < POINTS,
    ensures
        final(temps)@ == dragged_temps(old(temps)@, point as int, temp),
        final(duties)@ == dragged_duties(old(duties)@, point as int, duty),
{
    temps[point] = temp;
    duties[point] = duty;
}

/// A drag changes no point but the dragged one.
pub proof fn lemma_drag_leaves_other_points(
    temps: Seq<u8>,
    duties: Seq<u8>,
    p: int,
    t: u8,
    d: u8,
    k: int,
)
    requires
        0 <= p < temps.len(),
        0 <= p < duties.len(),
        0 <= k < temps.len(),
        0 <= k < duties.len(),
        k != p,
    ensures
        dragged_temps(temps, p, t)[k] == temps[k],
        dragged_duties(duties, p, d)[k] == duties[k],
{
}

/// Dragging a point to the same place twice changes the curve no further
/// than dragging it once.
pub proof fn lemma_drag_idempotent(temps: Seq<u8>, duties: Seq<u8>, p: int, t: u8, d: u8)
    requires
        0 <= p < temps.len(),
        0 <= p < duties.len(),
    ensures
        dragged_temps(dragged_temps(temps, p, t), p, t) == dragged_temps(temps, p, t),
        dragged_duties(dragged_duties(duties, p, d), p, d) == dragged_duties(duties, p, d),
{
    assert(dragged_temps(dragged_temps(temps, p, t), p, t) =~= dragged_temps(temps, p, t));
    assert(dragged_duties(dragged_duties(duties, p, d), p, d) =~= dragged_duties(duties, p, d));
}

/// Two octets with the same values are the same octet.
pub proof fn lemma_octet_seq_injective(a: Octet, b: Octet)
    requires
        octet_seq(a) == octet_seq(b),
    ensures
        a == b,
{
    assert(octet_seq(a)[0] == octet_seq(b)[0]);
    assert(octet_seq(a)[1] == octet_seq(b)[1]);
    assert(octet_seq(a)[2] == octet_seq(b)[2]);
    assert(octet_seq(a)[3] == octet_seq(b)[3]);
    assert(octet_seq(a)[4] == octet_seq(b)[4]);
    assert(octet_seq(a)[5] == octet_seq(b)[5]);
    assert(octet_seq(a)[6] == octet_seq(b)[6]);
    assert(octet_seq(a)[7] == octet_seq(b)[7]);
}

/// Packing the points of a curve for the bus gives back the curve's own
/// octets.
pub proof fn lemma_points_roundtrip(c: FanCurve, temps: [u8; 8], duty: [u8; 8], t: Octet, d: Octet)
    requires
        temps@ == octet_seq(c.temps),
        duty@ == octet_seq(c.duty),
        octet_seq(t) == temps@,
        octet_seq(d) == duty@,
    ensures
        t == c.temps,
        d == c.duty,
{
    lemma_octet_seq_injective(t, c.temps);
    lemma_octet_seq_injective(d, c.duty);
}

} // verus!
