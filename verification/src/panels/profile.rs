//! The performance-profile row. Each mode sets a platform profile and a
//! sustained power limit (`ppt_pl1_spl`), and selects the matching fan-curve
//! profile:
//!
//! | mode        | platform profile | power limit                      |
//! |-------------|------------------|----------------------------------|
//! | Ultra Eco   | quiet            | 15 W                             |
//! | Quiet       | quiet            | firmware default − 10 W, ≥ 15 W  |
//! | Balanced    | balanced         | firmware default                 |
//! | Performance | performance      | firmware default                 |
//!
//! At the documented 25 W firmware default Quiet keeps 25 W, the default
//! itself, rather than dropping to the Ultra Eco floor.
//!
//! Ultra Eco also offers to switch the GPU to integrated-only, unless it is
//! already there.

use vstd::prelude::*;
use crate::dbus::asusd::{PROFILE_BALANCED, PROFILE_PERFORMANCE, PROFILE_QUIET};
use crate::dbus::fancurves::{profile_code, Profile};
use crate::dbus::supergfx;
use crate::panels::fan_curve::profile_for_platform_name;
use crate::text::str_eq;

verus! {

/// The sustained power limit of Ultra Eco, and the floor of Quiet's, in W.
pub const ULTRA_ECO_PPT: i32 = 15;

/// How far below the firmware default Quiet sets the limit, in W.
pub const QUIET_PPT_DELTA: i32 = 10;

/// The firmware default at which Quiet keeps the default itself, in W.
pub const DOCUMENTED_DEFAULT_PPT: i32 = 25;

/// The firmware default assumed where asusd does not report one, in W.
pub const FALLBACK_DEFAULT_PPT: i32 = 35;

/// A performance mode of the profile row.
#[derive(Clone, Copy, Debug, PartialEq, Eq, Structural)]
pub enum Mode {
    UltraEco,
    Quiet,
    Balanced,
    Performance,
}

/// The asusd platform profile that a mode sets.
pub open spec fn mode_platform_profile(m: Mode) -> u32 {
    match m {
        Mode::UltraEco | Mode::Quiet => PROFILE_QUIET,
        Mode::Balanced => PROFILE_BALANCED,
        Mode::Performance => PROFILE_PERFORMANCE,
    }
}

pub open spec fn max_int(a: int, b: int) -> int {
    if a >= b {
        a
    } else {
        b
    }
}

/// The sustained power limit that a mode sets, given the firmware default.
pub open spec fn mode_ppt(m: Mode, default: int) -> int {
    match m {
        Mode::UltraEco => ULTRA_ECO_PPT as int,
        Mode::Quiet => if default == DOCUMENTED_DEFAULT_PPT {
            default
        } else {
            max_int(default - QUIET_PPT_DELTA, ULTRA_ECO_PPT as int)
        },
        Mode::Balanced | Mode::Performance => default,
    }
}

/// The fan-curve profile that a mode selects.
pub open spec fn mode_fan_profile(m: Mode) -> Profile {
    match m {
        Mode::UltraEco | Mode::Quiet => Profile::Quiet,
        Mode::Balanced => Profile::Balanced,
        Mode::Performance => Profile::Performance,
    }
}

/// The mode that the platform profile `name` and the power limit `ppt`
/// show to be active.
pub open spec fn detected_mode(name: Seq<char>, ppt: int) -> Mode {
    if name == "quiet"@ {
        if ppt <= ULTRA_ECO_PPT {
            Mode::UltraEco
        } else {
            Mode::Quiet
        }
    } else if name == "performance"@ {
        Mode::Performance
    } else {
        Mode::Balanced
    }
}

impl Mode {
    /// The modes in the order the row shows them.
    pub const ALL: [Mode; 4] = [Mode::UltraEco, Mode::Quiet, Mode::Balanced, Mode::Performance];

    /// The caption of the mode's button.
    pub fn label(self) -> (r: &'static str)
        ensures
            self == Mode::UltraEco ==> r@ == "Ultra Eco"@,
            self == Mode::Quiet ==> r@ == "Quiet"@,
            self == Mode::Balanced ==> r@ == "Balanced"@,
            self == Mode::Performance ==> r@ == "Performance"@,
    {
        match self {
            Mode::UltraEco => "Ultra Eco",
            Mode::Quiet => "Quiet",
            Mode::Balanced => "Balanced",
            Mode::Performance => "Performance",
        }
    }

    /// The asusd platform profile this mode sets.
    pub fn platform_profile(self) -> (r: u32)
        ensures
            r == mode_platform_profile(self),
    {
        match self {
            Mode::UltraEco | Mode::Quiet => PROFILE_QUIET,
            Mode::Balanced => PROFILE_BALANCED,
            Mode::Performance => PROFILE_PERFORMANCE,
        }
    }

    /// The sustained power limit this mode sets, given the firmware default.
    pub fn ppt_pl1(self, default: i32) -> (r: i32)
        ensures
            r == mode_ppt(self, default as int),
            self == Mode::UltraEco ==> r == 15,
            self == Mode::Balanced ==> r == default,
            self == Mode::Performance ==> r == default,
            self == Mode::Quiet && default == 25 ==> r == 25,
            self == Mode::Quiet && default > 25 ==> r == default - 10,
            self == Mode::Quiet && default < 25 ==> r == 15,
    {
        match self {
            Mode::UltraEco => ULTRA_ECO_PPT,
            Mode::Quiet => {
                if default == DOCUMENTED_DEFAULT_PPT {
                    default
                } else if default >= DOCUMENTED_DEFAULT_PPT {
                    default - QUIET_PPT_DELTA
                } else {
                    ULTRA_ECO_PPT
                }
            },
            Mode::Balanced | Mode::Performance => default,
        }
    }

    /// The fan-curve profile this mode selects.
    pub fn fan_profile(self) -> (r: Profile)
        ensures
            r == mode_fan_profile(self),
    {
        match self {
            Mode::UltraEco | Mode::Quiet => Profile::Quiet,
            Mode::Balanced => Profile::Balanced,
            Mode::Performance => Profile::Performance,
        }
    }
}

/// The active mode, from the kernel's platform profile name and the current
/// sustained power limit.
pub fn detect_mode(profile: &str, ppt: i32) -> (r: Mode)
    ensures
        r == detected_mode(profile@, ppt as int),
{
    if str_eq(profile, "quiet") {
        if ppt <= ULTRA_ECO_PPT {
            Mode::UltraEco
        } else {
            Mode::Quiet
        }
    } else if str_eq(profile, "performance") {
        Mode::Performance
    } else {
        Mode::Balanced
    }
}

/// Whether, on entering Ultra Eco with the GPU in the mode numbered
/// `gpu_mode`, the user is offered the switch to integrated-only graphics.
pub fn offers_integrated_switch(gpu_mode: u32) -> (r: bool)
    ensures
        r == (gpu_mode != supergfx::mode_code(supergfx::Mode::Integrated)),
{
    gpu_mode != supergfx::Mode::Integrated.code()
}

/// What selecting a mode does.
pub struct PowerPlan {
    /// The asusd platform profile to set.
    pub platform_profile: u32,
    /// The sustained power limit to set, in W.
    pub ppt_pl1: i32,
    /// The fan-curve profile to announce to the fan-curve panel.
    pub fan_profile: Profile,
    /// Whether to ask supergfxd for the GPU mode and offer integrated-only.
    pub check_gpu: bool,
}

/// What selecting `mode` does, given the firmware's default power limit.
pub fn plan_for(mode: Mode, default_ppt: i32) -> (r: PowerPlan)
    ensures
        r.platform_profile == mode_platform_profile(mode),
        r.ppt_pl1 == mode_ppt(mode, default_ppt as int),
        mode == Mode::UltraEco ==> r.ppt_pl1 == 15 && r.platform_profile == 2,
        mode == Mode::Balanced ==> r.ppt_pl1 == default_ppt && r.platform_profile == 0,
        mode == Mode::Performance ==> r.ppt_pl1 == default_ppt && r.platform_profile == 1,
        mode == Mode::Quiet ==> r.platform_profile == 2,
        mode == Mode::Quiet && default_ppt == 25 ==> r.ppt_pl1 == 25,
        mode == Mode::Quiet && default_ppt > 25 ==> r.ppt_pl1 == default_ppt - 10,
        mode == Mode::Quiet && default_ppt < 25 ==> r.ppt_pl1 == 15,
        r.fan_profile == mode_fan_profile(mode),
        r.check_gpu == (mode == Mode::UltraEco),
{
    PowerPlan {
        platform_profile: mode.platform_profile(),
        ppt_pl1: mode.ppt_pl1(default_ppt),
        fan_profile: mode.fan_profile(),
        check_gpu: mode == Mode::UltraEco,
    }
}

/// The fan-curve profile a mode selects carries the same asusd number as
/// the platform profile the mode sets.
pub proof fn lemma_fan_profile_matches_platform_profile(m: Mode)
    ensures
        profile_code(mode_fan_profile(m)) == mode_platform_profile(m),
{
}

/// Quiet and Ultra Eco never ask for less than the firmware floor.
pub proof fn lemma_ppt_floor(m: Mode, default: int)
    requires
        m == Mode::UltraEco || m == Mode::Quiet,
    ensures
        mode_ppt(m, default) >= ULTRA_ECO_PPT,
{
}

/// Balanced and Performance set the firmware default itself, whatever it
/// is; Ultra Eco always sets 15 W.
pub proof fn lemma_default_limit_kept(default: int)
    ensures
        mode_ppt(Mode::Balanced, default) == default,
        mode_ppt(Mode::Performance, default) == default,
        mode_ppt(Mode::UltraEco, default) == 15,
{
}

/// Every mode sets the limit that the power table gives it: Quiet sets 25 W
/// at the documented 25 W default, the default less 10 W above it, and 15 W
/// below it. Balanced and Performance never set anything but the default,
/// and Quiet never more than the default or 25 W, whichever is more.
pub proof fn lemma_power_table(default: int)
    ensures
        mode_ppt(Mode::Quiet, default) == (if default == 25 {
            25
        } else if default > 25 {
            default - 10
        } else {
            15
        }),
        mode_ppt(Mode::Quiet, default) <= if default >= 25 { default } else { 15 },
        mode_ppt(Mode::Quiet, default) <= mode_ppt(Mode::Balanced, default) || default < 25,
        mode_ppt(Mode::UltraEco, default) <= mode_ppt(Mode::Quiet, default),
{
}

/// The platform profile each mode sets, in asusd's numbers: Ultra Eco and
/// Quiet 2, Balanced 0, Performance 1.
pub proof fn lemma_platform_profile_numbers()
    ensures
        mode_platform_profile(Mode::UltraEco) == 2,
        mode_platform_profile(Mode::Quiet) == 2,
        mode_platform_profile(Mode::Balanced) == 0,
        mode_platform_profile(Mode::Performance) == 1,
{
}

/// At the documented 25 W default Quiet sets 25 W; above it, the default
/// less 10 W.
pub proof fn lemma_quiet_limit(default: int)
    requires
        default >= DOCUMENTED_DEFAULT_PPT,
    ensures
        default == DOCUMENTED_DEFAULT_PPT ==> mode_ppt(Mode::Quiet, default) == DOCUMENTED_DEFAULT_PPT,
        default > DOCUMENTED_DEFAULT_PPT ==> mode_ppt(Mode::Quiet, default) == default - QUIET_PPT_DELTA,
{
}

/// The profile row and the fan-curve panel agree on which fan profile is
/// active: the detected mode's fan profile is the one the fan-curve panel
/// opens on.
pub proof fn lemma_detection_agrees_with_fan_panel(name: Seq<char>, ppt: int)
    ensures
        mode_fan_profile(detected_mode(name, ppt)) == profile_for_platform_name(name),
{
    reveal_strlit("quiet");
    reveal_strlit("performance");
    assert("quiet"@.len() != "performance"@.len());
}

/// After a mode is applied, the row detects that same mode again: the
/// platform profile then reads as the one the mode's fan profile matches,
/// and the power limit as the one the mode set. For Quiet this needs a
/// firmware default of at least 25 W; below it, Quiet's limit is the Ultra
/// Eco floor and reads back as Ultra Eco.
pub proof fn lemma_detect_after_apply(m: Mode, default: int, name: Seq<char>)
    requires
        profile_for_platform_name(name) == mode_fan_profile(m),
        m == Mode::Quiet ==> default >= DOCUMENTED_DEFAULT_PPT,
    ensures
        detected_mode(name, mode_ppt(m, default)) == m,
{
    reveal_strlit("quiet");
    reveal_strlit("performance");
    assert("quiet"@.len() != "performance"@.len());
}

} // verus!
