use rog_quickswitch::dbus::fancurves::{FanCurve, Profile};
use rog_quickswitch::dbus::supergfx::{Mode as GfxMode, PendingUserAction};
use rog_quickswitch::panels::aura::{brightness_label, fallback_basic_modes, fallback_brightness_levels};
use rog_quickswitch::panels::charge_limit::charge_entries;
use rog_quickswitch::panels::fan_curve::{
    apply_drag, curve_for_apply, is_cpu_fan, profile_from_platform_name, tuple_from,
};
use rog_quickswitch::panels::gpu_mode::{gpu_entries, pending_prompt, toggle_state};
use rog_quickswitch::panels::panel_overdrive::{switch_on, value_for};
use rog_quickswitch::panels::profile::{
    detect_mode, offers_integrated_switch, plan_for, Mode, FALLBACK_DEFAULT_PPT,
};
use rog_quickswitch::panels::telemetry::{fan_rpm_text, fan_slots, first_fan_host, temp_sensors, FAN_HOSTS};

#[test]
fn drag_moves_only_the_dragged_point() {
    let mut temps = [30, 49, 59, 66, 71, 80, 90, 100];
    let mut duty = [0, 0, 3, 12, 20, 28, 34, 41];
    apply_drag(&mut temps, &mut duty, 3, 110, 12);
    assert_eq!(temps, [30, 49, 59, 110, 71, 80, 90, 100]);
    assert_eq!(duty, [0, 0, 3, 12, 20, 28, 34, 41]);
    apply_drag(&mut temps, &mut duty, 3, 10, 12);
    assert_eq!(temps, [30, 49, 59, 10, 71, 80, 90, 100]);
    apply_drag(&mut temps, &mut duty, 0, 5, 0);
    assert_eq!(temps[0], 5);
    apply_drag(&mut temps, &mut duty, 7, 110, 41);
    assert_eq!(temps[7], 110);
}

#[test]
fn drag_up_leaves_hotter_points() {
    let mut temps = [30, 49, 59, 66, 71, 80, 90, 100];
    let mut duty = [0, 0, 3, 12, 20, 28, 34, 41];
    apply_drag(&mut temps, &mut duty, 2, 59, 30);
    assert_eq!(duty, [0, 0, 30, 12, 20, 28, 34, 41]);
}

#[test]
fn drag_down_leaves_cooler_points() {
    let mut temps = [30, 49, 59, 66, 71, 80, 90, 100];
    let mut duty = [0, 0, 3, 12, 20, 28, 34, 41];
    apply_drag(&mut temps, &mut duty, 6, 90, 10);
    assert_eq!(duty, [0, 0, 3, 12, 20, 28, 10, 41]);
}

#[test]
fn drag_keeps_a_non_monotonic_firmware_curve() {
    // Performance GPU curve as the firmware reports it: 255 then 135.
    let mut temps = [44, 49, 54, 59, 64, 69, 74, 74];
    let mut duty = [43, 66, 84, 104, 130, 150, 255, 135];
    apply_drag(&mut temps, &mut duty, 1, 49, 50);
    assert_eq!(duty, [43, 50, 84, 104, 130, 150, 255, 135]);
    assert_eq!(temps, [44, 49, 54, 59, 64, 69, 74, 74]);
}

#[test]
fn drag_twice_is_drag_once() {
    let mut temps = [44, 49, 54, 59, 64, 69, 74, 74];
    let mut duty = [43, 66, 84, 104, 130, 150, 255, 135];
    apply_drag(&mut temps, &mut duty, 4, 61, 90);
    let (t1, d1) = (temps, duty);
    apply_drag(&mut temps, &mut duty, 4, 61, 90);
    assert_eq!((temps, duty), (t1, d1));
}

#[test]
fn drag_changes_no_other_point_for_every_point() {
    for point in 0..8 {
        for t in [0u8, 40, 75, 110] {
            for d in [0u8, 50, 100] {
                let before_t = [30, 49, 59, 66, 71, 80, 90, 100];
                let before_d = [0, 0, 3, 12, 20, 28, 34, 41];
                let (mut temps, mut duty) = (before_t, before_d);
                apply_drag(&mut temps, &mut duty, point, t, d);
                for k in 0..8 {
                    if k == point {
                        assert_eq!((temps[k], duty[k]), (t, d));
                    } else {
                        assert_eq!((temps[k], duty[k]), (before_t[k], before_d[k]));
                    }
                }
            }
        }
    }
}

#[test]
fn apply_sends_an_enabled_curve_with_the_points() {
    let c = curve_for_apply(&"GPU".to_string(), &[1, 2, 3, 4, 5, 6, 7, 8], &[9, 10, 11, 12, 13, 14, 15, 16]);
    assert_eq!(c.name, "GPU");
    assert_eq!(c.temps, (1, 2, 3, 4, 5, 6, 7, 8));
    assert_eq!(c.duty, (9, 10, 11, 12, 13, 14, 15, 16));
    assert!(c.enabled);
}

#[test]
fn fan_curves_clone() {
    let c = FanCurve { name: "GPU".into(), temps: (1, 2, 3, 4, 5, 6, 7, 8), duty: (8, 7, 6, 5, 4, 3, 2, 1), enabled: false };
    let d = c.clone();
    assert_eq!((d.name, d.temps, d.duty, d.enabled), (c.name, c.temps, c.duty, c.enabled));
}

#[test]
fn points_and_octets_round_trip() {
    let c = FanCurve { name: "CPU".into(), temps: (0, 55, 59, 63, 67, 71, 75, 79), duty: (10, 25, 33, 53, 58, 76, 96, 119), enabled: true };
    assert_eq!(tuple_from(&c.temp_points()), c.temps);
    assert_eq!(tuple_from(&c.duty_points()), c.duty);
}

#[test]
fn fan_editor_opens_on_the_platform_profile() {
    assert_eq!(profile_from_platform_name("performance"), Profile::Performance);
    assert_eq!(profile_from_platform_name("quiet"), Profile::Quiet);
    assert_eq!(profile_from_platform_name("balanced"), Profile::Balanced);
    assert_eq!(profile_from_platform_name("low-power"), Profile::Balanced);
    assert_eq!(profile_from_platform_name(""), Profile::Balanced);
}

#[test]
fn cpu_fan_colour_choice() {
    assert!(is_cpu_fan("CPU"));
    assert!(is_cpu_fan("cpu"));
    assert!(!is_cpu_fan("GPU"));
    assert!(!is_cpu_fan("mid"));
}

#[test]
fn power_limits_per_mode() {
    assert_eq!(Mode::UltraEco.ppt_pl1(35), 15);
    assert_eq!(Mode::Quiet.ppt_pl1(35), 25);
    assert_eq!(Mode::Balanced.ppt_pl1(35), 35);
    assert_eq!(Mode::Performance.ppt_pl1(35), 35);
    assert_eq!(Mode::Quiet.ppt_pl1(40), 30);
    assert_eq!(Mode::Quiet.ppt_pl1(30), 20);
    assert_eq!(Mode::Quiet.ppt_pl1(26), 16);
    assert_eq!(Mode::Quiet.ppt_pl1(24), 15);
    assert_eq!(Mode::Quiet.ppt_pl1(20), 15);
    assert_eq!(Mode::Quiet.ppt_pl1(10), 15);
    assert_eq!(Mode::Quiet.ppt_pl1(i32::MIN), 15);
    assert_eq!(Mode::Quiet.ppt_pl1(i32::MAX), i32::MAX - 10);
    assert_eq!(FALLBACK_DEFAULT_PPT, 35);
}

#[test]
fn power_limits_at_the_documented_default() {
    assert_eq!(Mode::UltraEco.ppt_pl1(25), 15);
    assert_eq!(Mode::Quiet.ppt_pl1(25), 25);
    assert_eq!(Mode::Balanced.ppt_pl1(25), 25);
    assert_eq!(Mode::Performance.ppt_pl1(25), 25);
}

#[test]
fn platform_profiles_and_fan_profiles_per_mode() {
    assert_eq!(Mode::UltraEco.platform_profile(), 2);
    assert_eq!(Mode::Quiet.platform_profile(), 2);
    assert_eq!(Mode::Balanced.platform_profile(), 0);
    assert_eq!(Mode::Performance.platform_profile(), 1);
    assert_eq!(Mode::UltraEco.fan_profile(), Profile::Quiet);
    assert_eq!(Mode::Quiet.fan_profile(), Profile::Quiet);
    assert_eq!(Mode::Balanced.fan_profile(), Profile::Balanced);
    assert_eq!(Mode::Performance.fan_profile(), Profile::Performance);
    for m in Mode::ALL {
        assert_eq!(m.fan_profile().code(), m.platform_profile());
    }
    assert_eq!(Mode::UltraEco.label(), "Ultra Eco");
    assert_eq!(Mode::Performance.label(), "Performance");
}

#[test]
fn active_mode_detection() {
    assert_eq!(detect_mode("quiet", 15), Mode::UltraEco);
    assert_eq!(detect_mode("quiet", 10), Mode::UltraEco);
    assert_eq!(detect_mode("quiet", 25), Mode::Quiet);
    assert_eq!(detect_mode("performance", 15), Mode::Performance);
    assert_eq!(detect_mode("balanced", 15), Mode::Balanced);
    assert_eq!(detect_mode("", 35), Mode::Balanced);
}

#[test]
fn applied_mode_is_detected_again() {
    for m in Mode::ALL {
        let plan = plan_for(m, 35);
        let name = match plan.fan_profile {
            Profile::Quiet => "quiet",
            Profile::Balanced => "balanced",
            Profile::Performance => "performance",
        };
        assert_eq!(detect_mode(name, plan.ppt_pl1), m);
    }
    for default in [25, 26, 35] {
        assert_eq!(detect_mode("quiet", plan_for(Mode::Quiet, default).ppt_pl1), Mode::Quiet);
    }
    let quiet_low = plan_for(Mode::Quiet, 24);
    assert_eq!(detect_mode("quiet", quiet_low.ppt_pl1), Mode::UltraEco);
}

#[test]
fn only_ultra_eco_checks_the_gpu() {
    assert!(plan_for(Mode::UltraEco, 35).check_gpu);
    assert!(!plan_for(Mode::Quiet, 35).check_gpu);
    assert!(!plan_for(Mode::Balanced, 35).check_gpu);
    assert!(!plan_for(Mode::Performance, 35).check_gpu);
    assert!(!offers_integrated_switch(1));
    assert!(offers_integrated_switch(0));
    assert!(offers_integrated_switch(5));
}

#[test]
fn gpu_row_entries_and_states() {
    let entries = gpu_entries();
    assert_eq!(entries.len(), 3);
    assert_eq!(entries[0].label, "Integrated");
    assert_eq!(entries[0].mode, GfxMode::Integrated);
    assert_eq!(entries[2].label, "MUX → dGPU");
    let supported = vec![1, 0, 5];
    let s = toggle_state(GfxMode::Hybrid, 1, &supported);
    assert_eq!(s.value, 0);
    assert!(s.sensitive);
    assert!(!s.active);
    let s = toggle_state(GfxMode::Integrated, 1, &supported);
    assert!(s.active);
    let s = toggle_state(GfxMode::AsusMuxDgpu, 0, &vec![]);
    assert!(!s.sensitive);
}

#[test]
fn prompts_for_pending_actions() {
    let p = pending_prompt(PendingUserAction::Logout.code()).unwrap();
    assert_eq!(p.title, "Logout required");
    assert_eq!(p.command, "gnome-session-quit");
    assert_eq!(p.args, vec!["--logout", "--no-prompt"]);
    let p = pending_prompt(1).unwrap();
    assert_eq!(p.title, "Reboot required");
    assert_eq!(p.action_label, "Reboot");
    assert_eq!(p.command, "systemctl");
    assert_eq!(p.args, vec!["reboot"]);
    let p = pending_prompt(2).unwrap();
    assert_eq!(p.title, "Switch to Integrated first");
    assert_eq!(p.action_label, "Log Out");
    assert!(pending_prompt(3).is_none());
    assert!(pending_prompt(PendingUserAction::NoAction.code()).is_none());
    assert!(pending_prompt(99).is_none());
}

#[test]
fn charge_row_entries() {
    let e = charge_entries();
    assert_eq!(e.len(), 3);
    assert_eq!((e[0].label, e[0].value), ("Full", 0));
    assert_eq!((e[1].label, e[1].value), ("Balanced", 1));
    assert_eq!((e[2].label, e[2].value), ("Lifespan", 2));
}

#[test]
fn overdrive_switch() {
    assert!(switch_on(1));
    assert!(!switch_on(0));
    assert!(!switch_on(2));
    assert_eq!(value_for(true), 1);
    assert_eq!(value_for(false), 0);
    assert!(switch_on(value_for(true)));
    assert!(!switch_on(value_for(false)));
}

#[test]
fn aura_panel_labels_and_fallbacks() {
    assert_eq!(brightness_label(0), "Off");
    assert_eq!(brightness_label(1), "Low");
    assert_eq!(brightness_label(2), "Med");
    assert_eq!(brightness_label(3), "High");
    assert_eq!(brightness_label(4), "?");
    assert_eq!(fallback_brightness_levels(), vec![0, 1, 2, 3]);
    assert_eq!(fallback_basic_modes(), vec![0]);
}

#[test]
fn fan_reading_text() {
    assert_eq!(fan_rpm_text(0), "off");
    assert_eq!(fan_rpm_text(2400), "2400");
    assert_eq!(fan_rpm_text(1), "1");
}

#[test]
fn sensor_columns() {
    let t = temp_sensors();
    assert_eq!(t.len(), 3);
    assert_eq!((t[0].device, t[0].title, t[0].label), ("k10temp", "CPU", Some("Tctl")));
    assert_eq!((t[1].device, t[1].title, t[1].label), ("amdgpu", "iGPU", Some("edge")));
    assert_eq!((t[2].device, t[2].title, t[2].label), ("nvidia", "dGPU", None));
    assert_eq!(FAN_HOSTS, ["asus_custom_fan_curve", "asus", "asus-nb-wmi", "asus_wmi"]);
}

#[test]
fn fan_columns_per_host() {
    let both = fan_slots(true, true);
    assert_eq!(both.len(), 2);
    assert_eq!((both[0].idx, both[0].title), (1, "CPU rpm"));
    assert_eq!((both[1].idx, both[1].title), (2, "GPU rpm"));
    let gpu_only = fan_slots(false, true);
    assert_eq!(gpu_only.len(), 1);
    assert_eq!((gpu_only[0].idx, gpu_only[0].title), (2, "GPU rpm"));
    assert!(fan_slots(false, false).is_empty());
}

#[test]
fn first_fan_host_with_any_input() {
    assert_eq!(first_fan_host(&vec![(false, false), (false, true), (true, true)]), Some(1));
    assert_eq!(first_fan_host(&vec![(true, false)]), Some(0));
    assert_eq!(first_fan_host(&vec![(false, false), (false, false)]), None);
    assert_eq!(first_fan_host(&vec![]), None);
}
