//! Fan curves as asusd's `xyz.ljones.FanCurves` interface carries them: per
//! fan a name, eight temperatures in °C, eight duty values and whether the
//! custom curve is enabled. Profiles are numbered by asusd, not in the
//! order quiet/balanced/performance.

use vstd::prelude::*;

verus! {

/// Eight points of one curve, as the bus carries them.
pub type Octet = (u8, u8, u8, u8, u8, u8, u8, u8);

/// The eight values of an octet, in order.
pub open spec fn octet_seq(o: Octet) -> Seq<u8> {
    seq![o.0, o.1, o.2, o.3, o.4, o.5, o.6, o.7]
}

/// One fan's curve. `enabled == false` means the firmware curve is in use.
#[derive(Debug)]
pub struct FanCurve {
    pub name: String,
    pub temps: Octet,
    pub duty: Octet,
    pub enabled: bool,
}

impl Clone for FanCurve {
    fn clone(&self) -> (r: Self)
        ensures
            r.name@ == self.name@,
            r.temps == self.temps,
            r.duty == self.duty,
            r.enabled == self.enabled,
    {
        FanCurve { name: self.name.clone(), temps: self.temps, duty: self.duty, enabled: self.enabled }
    }
}

impl FanCurve {
    /// The eight temperatures of the curve.
    pub fn temp_points(&self) -> (r: [u8; 8])
        ensures
            r@ == octet_seq(self.temps),
    {
        let (a, b, c, d, e, f, g, h) = self.temps;
        let r = [a, b, c, d, e, f, g, h];
        assert(r@ =~= octet_seq(self.temps));
        r
    }

    /// The eight duty values of the curve.
    pub fn duty_points(&self) -> (r: [u8; 8])
        ensures
            r@ == octet_seq(self.duty),
    {
        let (a, b, c, d, e, f, g, h) = self.duty;
        let r = [a, b, c, d, e, f, g, h];
        assert(r@ =~= octet_seq(self.duty));
        r
    }
}

/// A power profile as asusd numbers it.
#[derive(Clone, Copy, Debug, PartialEq, Eq, Structural)]
pub enum Profile {
    Balanced,
    Performance,
    Quiet,
}

/// asusd's number for each profile: 0 Balanced, 1 Performance, 2 Quiet.
pub open spec fn profile_code(p: Profile) -> u32 {
    match p {
        Profile::Balanced => 0,
        Profile::Performance => 1,
        Profile::Quiet => 2,
    }
}

impl Profile {
    /// The profiles in the order the selector shows them.
    pub const ALL: [Profile; 3] = [Profile::Quiet, Profile::Balanced, Profile::Performance];

    /// The number asusd uses for this profile.
    pub fn code(self) -> (r: u32)
        ensures
            r == profile_code(self),
    {
        match self {
            Profile::Balanced => 0,
            Profile::Performance => 1,
            Profile::Quiet => 2,
        }
    }

    /// The caption of the profile's button.
    pub fn label(self) -> (r: &'static str)
        ensures
            self == Profile::Quiet ==> r@ == "Quiet"@,
            self == Profile::Balanced ==> r@ == "Balanced"@,
            self == Profile::Performance ==> r@ == "Performance"@,
    {
        match self {
            Profile::Quiet => "Quiet",
            Profile::Balanced => "Balanced",
            Profile::Performance => "Performance",
        }
    }
}

/// Distinct profiles have distinct numbers, so a number read back from
/// asusd names one profile.
pub proof fn lemma_profile_codes_distinct(a: Profile, b: Profile)
    ensures
        profile_code(a) == profile_code(b) ==> a == b,
{
}

} // verus!
