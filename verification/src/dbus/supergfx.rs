//! The graphics modes of supergfxd (`org.supergfxctl.Daemon`) and the action
//! it asks of the user after a mode change, with the daemon's numbering.

use vstd::prelude::*;

verus! {

/// A graphics mode as supergfxd numbers it.
#[derive(Debug, Clone, Copy, PartialEq, Eq, Structural)]
pub enum Mode {
    Hybrid,
    Integrated,
    Vfio,
    AsusEgpu,
    AsusMuxDgpu,
}

/// supergfxd's number for each mode: 0 Hybrid, 1 Integrated, 3 Vfio,
/// 4 AsusEgpu, 5 AsusMuxDgpu.
pub open spec fn mode_code(m: Mode) -> u32 {
    match m {
        Mode::Hybrid => 0,
        Mode::Integrated => 1,
        Mode::Vfio => 3,
        Mode::AsusEgpu => 4,
        Mode::AsusMuxDgpu => 5,
    }
}

impl Mode {
    /// The number supergfxd uses for this mode.
    pub fn code(self) -> (r: u32)
        ensures
            r == mode_code(self),
    {
        match self {
            Mode::Hybrid => 0,
            Mode::Integrated => 1,
            Mode::Vfio => 3,
            Mode::AsusEgpu => 4,
            Mode::AsusMuxDgpu => 5,
        }
    }

    /// The name shown for this mode.
    pub fn label(self) -> (r: &'static str)
        ensures
            self == Mode::Hybrid ==> r@ == "Hybrid"@,
            self == Mode::Integrated ==> r@ == "Integrated"@,
            self == Mode::Vfio ==> r@ == "VFIO"@,
            self == Mode::AsusEgpu ==> r@ == "Asus eGPU"@,
            self == Mode::AsusMuxDgpu ==> r@ == "MUX → dGPU"@,
    {
        match self {
            Mode::Hybrid => "Hybrid",
            Mode::Integrated => "Integrated",
            Mode::Vfio => "VFIO",
            Mode::AsusEgpu => "Asus eGPU",
            Mode::AsusMuxDgpu => "MUX → dGPU",
        }
    }
}

/// What supergfxd asks of the user before a requested mode takes effect.
#[derive(Debug, Clone, Copy, PartialEq, Eq, Structural)]
pub enum PendingUserAction {
    Logout,
    Reboot,
    SwitchToIntegrated,
    AsusEgpuDisable,
    NoAction,
}

/// supergfxd's number for each action: 0 Logout, 1 Reboot,
/// 2 SwitchToIntegrated, 3 AsusEgpuDisable, 4 NoAction (the daemon's `None`).
pub open spec fn action_code(a: PendingUserAction) -> u32 {
    match a {
        PendingUserAction::Logout => 0,
        PendingUserAction::Reboot => 1,
        PendingUserAction::SwitchToIntegrated => 2,
        PendingUserAction::AsusEgpuDisable => 3,
        PendingUserAction::NoAction => 4,
    }
}

impl PendingUserAction {
    /// The number supergfxd uses for this action.
    pub fn code(self) -> (r: u32)
        ensures
            r == action_code(self),
    {
        match self {
            PendingUserAction::Logout => 0,
            PendingUserAction::Reboot => 1,
            PendingUserAction::SwitchToIntegrated => 2,
            PendingUserAction::AsusEgpuDisable => 3,
            PendingUserAction::NoAction => 4,
        }
    }
}

/// Distinct modes have distinct numbers, so a number read back from the
/// daemon names one mode.
pub proof fn lemma_mode_codes_distinct(a: Mode, b: Mode)
    ensures
        mode_code(a) == mode_code(b) ==> a == b,
{
}

/// Distinct actions have distinct numbers.
pub proof fn lemma_action_codes_distinct(a: PendingUserAction, b: PendingUserAction)
    ensures
        action_code(a) == action_code(b) ==> a == b,
{
}

} // verus!
