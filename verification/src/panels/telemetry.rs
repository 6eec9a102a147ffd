//! The sensor grid: which hwmon devices feed which column, and how a fan
//! reading is shown.

use vstd::prelude::*;
use crate::text::{decimal, decimal_string};

verus! {

/// What a missing sensor shows.
pub const MISSING: &'static str = "—";

/// The names of the hwmon devices that may carry the fan inputs. Devices
/// with any of these names are tried in the order the hwmon directory lists
/// them; the first that has any fan input is used.
pub const FAN_HOSTS: [&'static str; 4] = ["asus_custom_fan_curve", "asus", "asus-nb-wmi", "asus_wmi"];

/// One temperature column: the hwmon device name, the column title, and the
/// sensor label searched for (the first input is read where it is absent).
pub struct TempSensor {
    pub device: &'static str,
    pub title: &'static str,
    pub label: Option<&'static str>,
}

/// The temperature columns, in order: CPU (k10temp, Tctl), iGPU (amdgpu,
/// edge), dGPU (nvidia).
pub fn temp_sensors() -> (r: Vec<TempSensor>)
    ensures
        r@.len() == 3,
        r@[0].device@ == "k10temp"@ && r@[0].title@ == "CPU"@,
        r@[0].label matches Some(l) && l@ == "Tctl"@,
        r@[1].device@ == "amdgpu"@ && r@[1].title@ == "iGPU"@,
        r@[1].label matches Some(l) && l@ == "edge"@,
        r@[2].device@ == "nvidia"@ && r@[2].title@ == "dGPU"@ && r@[2].label is None,
{
    vec![
        TempSensor { device: "k10temp", title: "CPU", label: Some("Tctl") },
        TempSensor { device: "amdgpu", title: "iGPU", label: Some("edge") },
        TempSensor { device: "nvidia", title: "dGPU", label: None },
    ]
}

/// One fan column: the fan input number and the column title.
pub struct FanSlot {
    pub idx: u32,
    pub title: &'static str,
}

/// The fan columns a host gives, given whether its `fan1_input` (CPU) and
/// `fan2_input` (GPU) exist.
pub fn fan_slots(has_fan1: bool, has_fan2: bool) -> (r: Vec<FanSlot>)
    ensures
        r@.len() == (if has_fan1 { 1nat } else { 0 }) + (if has_fan2 { 1nat } else { 0 }),
        has_fan1 ==> r@[0].idx == 1 && r@[0].title@ == "CPU rpm"@,
        has_fan2 ==> r@[r@.len() - 1].idx == 2 && r@[r@.len() - 1].title@ == "GPU rpm"@,
{
    let mut r: Vec<FanSlot> = Vec::new();
    if has_fan1 {
        r.push(FanSlot { idx: 1, title: "CPU rpm" });
    }
    if has_fan2 {
        r.push(FanSlot { idx: 2, title: "GPU rpm" });
    }
    r
}

/// The fan host the grid uses, given for each candidate, in order, whether
/// its `fan1_input` and `fan2_input` exist: the first that has either.
pub fn first_fan_host(hosts: &Vec<(bool, bool)>) -> (r: Option<usize>)
    ensures
        match r {
            Some(i) => {
                &&& i < hosts@.len()
                &&& (hosts@[i as int].0 || hosts@[i as int].1)
                &&& forall|j: int| 0 <= j < i ==> !(#[trigger] hosts@[j]).0 && !hosts@[j].1
            },
            None => forall|j: int| 0 <= j < hosts@.len() ==> !(#[trigger] hosts@[j]).0 && !hosts@[j].1,
        },
{
    let mut i: usize = 0;
    while i < hosts.len()
        invariant
            i <= hosts@.len(),
            forall|j: int| 0 <= j < i ==> !(#[trigger] hosts@[j]).0 && !hosts@[j].1,
        decreases hosts@.len() - i,
    {
        if hosts[i].0 || hosts[i].1 {
            return Some(i);
        }
        i = i + 1;
    }
    None
}

/// The text of a fan reading: "off" at 0 rpm, else the rpm in decimal.
pub fn fan_rpm_text(rpm: u32) -> (r: String)
    ensures
        rpm == 0 ==> r@ == "off"@,
        rpm != 0 ==> r@ == decimal(rpm as nat),
{
    if rpm == 0 {
        String::from_str("off")
    } else {
        decimal_string(rpm)
    }
}

} // verus!
