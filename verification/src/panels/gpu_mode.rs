//! The GPU-mode row: one toggle per mode, enabled only where supergfxd
//! supports the mode, and after a change the prompt for the user action the
//! daemon asks for.

use vstd::prelude::*;
use crate::dbus::supergfx::{action_code, mode_code, Mode, PendingUserAction};

verus! {

/// One toggle of the row.
pub struct GpuEntry {
    pub label: &'static str,
    pub mode: Mode,
}

/// The row's toggles, in order: Integrated, Hybrid, MUX → dGPU.
pub fn gpu_entries() -> (r: Vec<GpuEntry>)
    ensures
        r@.len() == 3,
        r@[0].mode == Mode::Integrated && r@[0].label@ == "Integrated"@,
        r@[1].mode == Mode::Hybrid && r@[1].label@ == "Hybrid"@,
        r@[2].mode == Mode::AsusMuxDgpu && r@[2].label@ == "MUX → dGPU"@,
{
    vec![
        GpuEntry { label: "Integrated", mode: Mode::Integrated },
        GpuEntry { label: "Hybrid", mode: Mode::Hybrid },
        GpuEntry { label: "MUX → dGPU", mode: Mode::AsusMuxDgpu },
    ]
}

/// How one toggle is shown.
pub struct ToggleState {
    /// The mode number the toggle requests.
    pub value: u32,
    /// Whether the toggle can be clicked.
    pub sensitive: bool,
    /// Whether the toggle is the selected one.
    pub active: bool,
}

/// How the toggle for `mode` is shown, given the current mode number and the
/// numbers of the supported modes.
pub fn toggle_state(mode: Mode, current: u32, supported: &Vec<u32>) -> (r: ToggleState)
    ensures
        r.value == mode_code(mode),
        r.sensitive == supported@.contains(mode_code(mode)),
        r.active == (mode_code(mode) == current),
{
    let value = mode.code();
    let mut found = false;
    let mut i: usize = 0;
    while i < supported.len()
        invariant
            i <= supported@.len(),
            value == mode_code(mode),
            found == (exists|k: int| 0 <= k < i && supported@[k] == value),
        decreases supported@.len() - i,
    {
        if supported[i] == value {
            found = true;
        }
        i = i + 1;
    }
    ToggleState { value, sensitive: found, active: value == current }
}

/// The dialog shown when a mode change waits on the user, and the command
/// its confirming response runs.
pub struct PendingPrompt {
    pub title: &'static str,
    pub body: &'static str,
    pub action_label: &'static str,
    pub command: &'static str,
    pub args: Vec<&'static str>,
}

/// Whether confirming `p` logs out: `gnome-session-quit --logout --no-prompt`.
pub open spec fn logs_out(p: PendingPrompt) -> bool {
    &&& p.command@ == "gnome-session-quit"@
    &&& p.args@.len() == 2
    &&& p.args@[0]@ == "--logout"@
    &&& p.args@[1]@ == "--no-prompt"@
}

/// Whether confirming `p` reboots: `systemctl reboot`.
pub open spec fn reboots(p: PendingPrompt) -> bool {
    &&& p.command@ == "systemctl"@
    &&& p.args@.len() == 1
    &&& p.args@[0]@ == "reboot"@
}

/// Whether `p` is the prompt for the action numbered `pending`.
pub open spec fn prompt_for(pending: u32, p: PendingPrompt) -> bool {
    if pending == action_code(PendingUserAction::Logout) {
        &&& p.title@ == "Logout required"@
        &&& p.body@ == "GPU mode change is queued. Log out now to apply it?\n\nThe switch won't happen until every desktop session has ended."@
        &&& p.action_label@ == "Log Out"@
        &&& p.command@ == "gnome-session-quit"@
        &&& p.args@.len() == 2
        &&& p.args@[0]@ == "--logout"@
        &&& p.args@[1]@ == "--no-prompt"@
    } else if pending == action_code(PendingUserAction::Reboot) {
        &&& p.title@ == "Reboot required"@
        &&& p.body@ == "MUX switching is queued. Reboot now to apply it?"@
        &&& p.action_label@ == "Reboot"@
        &&& p.command@ == "systemctl"@
        &&& p.args@.len() == 1
        &&& p.args@[0]@ == "reboot"@
    } else {
        &&& pending == action_code(PendingUserAction::SwitchToIntegrated)
        &&& p.title@ == "Switch to Integrated first"@
        &&& p.body@ == "This mode requires switching to Integrated and logging out first. Log out now?"@
        &&& p.action_label@ == "Log Out"@
        &&& p.command@ == "gnome-session-quit"@
        &&& p.args@.len() == 2
        &&& p.args@[0]@ == "--logout"@
        &&& p.args@[1]@ == "--no-prompt"@
    }
}

/// Whether the action numbered `pending` needs a prompt: log out, reboot,
/// or switch to Integrated first.
pub open spec fn needs_prompt(pending: u32) -> bool {
    ||| pending == action_code(PendingUserAction::Logout)
    ||| pending == action_code(PendingUserAction::Reboot)
    ||| pending == action_code(PendingUserAction::SwitchToIntegrated)
}

/// The prompt for the action numbered `pending`, or `None` where the action
/// needs none.
pub fn pending_prompt(pending: u32) -> (r: Option<PendingPrompt>)
    ensures
        r is Some <==> needs_prompt(pending),
        r matches Some(p) ==> prompt_for(pending, p),
        r is Some <==> (pending == 0 || pending == 1 || pending == 2),
        r matches Some(p) ==> (p.action_label@ == "Log Out"@ <==> (pending == 0 || pending == 2)),
        r matches Some(p) ==> (p.action_label@ == "Reboot"@ <==> pending == 1),
        r matches Some(p) ==> (p.action_label@ == "Log Out"@ ==> logs_out(p)),
        r matches Some(p) ==> (p.action_label@ == "Reboot"@ ==> reboots(p)),
        pending == 0 ==> (r matches Some(p) && p.title@ == "Logout required"@ && logs_out(p)),
        pending == 1 ==> (r matches Some(p) && p.title@ == "Reboot required"@ && reboots(p)),
        pending == 2 ==> (r matches Some(p) && p.title@ == "Switch to Integrated first"@
            && logs_out(p)),
{
    proof {
        reveal_strlit("Log Out");
        reveal_strlit("Reboot");
        assert("Log Out"@.len() != "Reboot"@.len());
    }
    if pending == PendingUserAction::Logout.code() {
        Some(
            PendingPrompt {
                title: "Logout required",
                body: "GPU mode change is queued. Log out now to apply it?\n\nThe switch won't happen until every desktop session has ended.",
                action_label: "Log Out",
                command: "gnome-session-quit",
                args: vec!["--logout", "--no-prompt"],
            },
        )
    } else if pending == PendingUserAction::Reboot.code() {
        Some(
            PendingPrompt {
                title: "Reboot required",
                body: "MUX switching is queued. Reboot now to apply it?",
                action_label: "Reboot",
                command: "systemctl",
                args: vec!["reboot"],
            },
        )
    } else if pending == PendingUserAction::SwitchToIntegrated.code() {
        Some(
            PendingPrompt {
                title: "Switch to Integrated first",
                body: "This mode requires switching to Integrated and logging out first. Log out now?",
                action_label: "Log Out",
                command: "gnome-session-quit",
                args: vec!["--logout", "--no-prompt"],
            },
        )
    } else {
        None
    }
}

/// A prompt's button says what its confirmation does: every prompt for
/// the action numbered `pending` whose button says "Log Out" logs out, and
/// every one whose button says "Reboot" reboots. The two log-out actions
/// (0 and 2) and only they have a "Log Out" button.
pub proof fn lemma_button_matches_command(pending: u32, p: PendingPrompt)
    requires
        prompt_for(pending, p),
    ensures
        p.action_label@ == "Log Out"@ ==> logs_out(p),
        p.action_label@ == "Reboot"@ ==> reboots(p),
        p.action_label@ == "Log Out"@ <==> (pending == 0 || pending == 2),
        p.action_label@ == "Reboot"@ <==> pending == 1,
{
    reveal_strlit("Log Out");
    reveal_strlit("Reboot");
    assert("Log Out"@.len() != "Reboot"@.len());
}

} // verus!
