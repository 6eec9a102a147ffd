use rog_quickswitch::dbus::asusd::{PROFILE_BALANCED, PROFILE_PERFORMANCE, PROFILE_QUIET};
use rog_quickswitch::dbus::aura::{device_path, device_path_from_introspection, first_node_name_of, led_mode_label};
use rog_quickswitch::dbus::fancurves::{FanCurve, Profile};
use rog_quickswitch::dbus::supergfx::{Mode, PendingUserAction};

fn curve(name: &str) -> FanCurve {
    FanCurve {
        name: name.to_string(),
        temps: (52, 56, 60, 64, 68, 72, 76, 76),
        duty: (53, 58, 76, 96, 119, 140, 255, 255),
        enabled: false,
    }
}

#[test]
fn fan_curve_points_unpack_in_order() {
    let c = curve("CPU");
    assert_eq!(c.temp_points(), [52, 56, 60, 64, 68, 72, 76, 76]);
    assert_eq!(c.duty_points(), [53, 58, 76, 96, 119, 140, 255, 255]);
}

#[test]
fn profile_numbers_follow_asusd() {
    assert_eq!(Profile::Balanced.code(), 0);
    assert_eq!(Profile::Performance.code(), 1);
    assert_eq!(Profile::Quiet.code(), 2);
    assert_eq!(Profile::Balanced.code(), PROFILE_BALANCED);
    assert_eq!(Profile::Performance.code(), PROFILE_PERFORMANCE);
    assert_eq!(Profile::Quiet.code(), PROFILE_QUIET);
}

#[test]
fn profile_labels_and_order() {
    assert_eq!(Profile::Quiet.label(), "Quiet");
    assert_eq!(Profile::Balanced.label(), "Balanced");
    assert_eq!(Profile::Performance.label(), "Performance");
    assert_eq!(Profile::ALL, [Profile::Quiet, Profile::Balanced, Profile::Performance]);
}

#[test]
fn gfx_mode_numbers_and_labels() {
    assert_eq!(Mode::Hybrid.code(), 0);
    assert_eq!(Mode::Integrated.code(), 1);
    assert_eq!(Mode::Vfio.code(), 3);
    assert_eq!(Mode::AsusEgpu.code(), 4);
    assert_eq!(Mode::AsusMuxDgpu.code(), 5);
    assert_eq!(Mode::Hybrid.label(), "Hybrid");
    assert_eq!(Mode::Integrated.label(), "Integrated");
    assert_eq!(Mode::Vfio.label(), "VFIO");
    assert_eq!(Mode::AsusEgpu.label(), "Asus eGPU");
    assert_eq!(Mode::AsusMuxDgpu.label(), "MUX → dGPU");
}

#[test]
fn pending_action_numbers() {
    assert_eq!(PendingUserAction::Logout.code(), 0);
    assert_eq!(PendingUserAction::Reboot.code(), 1);
    assert_eq!(PendingUserAction::SwitchToIntegrated.code(), 2);
    assert_eq!(PendingUserAction::AsusEgpuDisable.code(), 3);
    assert_eq!(PendingUserAction::NoAction.code(), 4);
}

#[test]
fn led_mode_labels() {
    assert_eq!(led_mode_label(0), "Static");
    assert_eq!(led_mode_label(1), "Breathe");
    assert_eq!(led_mode_label(2), "Rainbow");
    assert_eq!(led_mode_label(3), "Wave");
    assert_eq!(led_mode_label(10), "Pulse");
    assert_eq!(led_mode_label(4), "Mode 4");
    assert_eq!(led_mode_label(11), "Mode 11");
    assert_eq!(led_mode_label(u32::MAX), "Mode 4294967295");
}

const INTROSPECTION: &str = r#"<!DOCTYPE node PUBLIC "-//freedesktop//DTD D-BUS Object Introspection 1.0//EN"
 "http://www.freedesktop.org/standards/dbus/1.0/introspect.dtd">
<node>
  <interface name="org.freedesktop.DBus.Introspectable">
    <method name="Introspect">
      <arg type="s" direction="out"/>
    </method>
  </interface>
  <node name="19b6_2_3"/>
  <node name="second"/>
</node>
"#;

#[test]
fn introspection_gives_the_first_child() {
    assert_eq!(first_node_name_of(INTROSPECTION), Some("19b6_2_3".to_string()));
    assert_eq!(
        device_path_from_introspection(INTROSPECTION),
        Some("/xyz/ljones/aura/19b6_2_3".to_string())
    );
}

#[test]
fn introspection_without_children() {
    let xml = "<node>\n  <interface name=\"x\"/>\n</node>\n";
    assert_eq!(first_node_name_of(xml), None);
    assert_eq!(device_path_from_introspection(xml), None);
    assert_eq!(first_node_name_of(""), None);
}

#[test]
fn introspection_skips_unterminated_names_and_handles_crlf() {
    let xml = "<node>\r\n\t<node name=\"broken\r\n  <node name=\"kbd\"/>\r\n</node>";
    assert_eq!(first_node_name_of(xml), Some("kbd".to_string()));
    let last_line = "<node name=\"tail\"/>";
    assert_eq!(first_node_name_of(last_line), Some("tail".to_string()));
    let empty_name = "<node name=\"\"/>";
    assert_eq!(first_node_name_of(empty_name), Some(String::new()));
    let not_first = "x <node name=\"a\"/>";
    assert_eq!(first_node_name_of(not_first), None);
}

#[test]
fn device_path_joins_parent_and_name() {
    assert_eq!(device_path("abc"), "/xyz/ljones/aura/abc");
}
