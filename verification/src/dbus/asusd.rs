//! asusd's attribute paths (`xyz.ljones.AsusArmoury`, one object per
//! firmware knob) and its platform-profile numbering (`xyz.ljones.Platform`).

use vstd::prelude::*;

verus! {

pub const PATH_CHARGE_MODE: &'static str = "/xyz/ljones/asus_armoury/charge_mode";
pub const PATH_PANEL_OVERDRIVE: &'static str = "/xyz/ljones/asus_armoury/panel_overdrive";
pub const PATH_GPU_MUX_MODE: &'static str = "/xyz/ljones/asus_armoury/gpu_mux_mode";
pub const PATH_DGPU_DISABLE: &'static str = "/xyz/ljones/asus_armoury/dgpu_disable";
pub const PATH_NV_DYNAMIC_BOOST: &'static str = "/xyz/ljones/asus_armoury/nv_dynamic_boost";
pub const PATH_NV_TEMP_TARGET: &'static str = "/xyz/ljones/asus_armoury/nv_temp_target";
pub const PATH_PPT_PL1_SPL: &'static str = "/xyz/ljones/asus_armoury/ppt_pl1_spl";
pub const PATH_PPT_PL2_SPPT: &'static str = "/xyz/ljones/asus_armoury/ppt_pl2_sppt";
pub const PATH_PPT_PL3_FPPT: &'static str = "/xyz/ljones/asus_armoury/ppt_pl3_fppt";

/// asusd's platform-profile numbers.
pub const PROFILE_BALANCED: u32 = 0;
pub const PROFILE_PERFORMANCE: u32 = 1;
pub const PROFILE_QUIET: u32 = 2;

} // verus!
