//! hwmon devices under `/sys/class/hwmon`: which ones are wanted by name,
//! which temperature input carries a label, and what a fan input reads.

use vstd::prelude::*;
use crate::text::{
    is_space, lemma_decimal_value, lemma_parse_decimal_roundtrip, trim_end, trim_start,
    decimal, eq_ignore_ascii_case, parse_u32, parse_u32_str, push_decimal, str_eq,
    str_eq_ignore_ascii_case, trim, trim_str,
};

verus! {

/// The directory that holds one subdirectory per hwmon device.
pub const ROOT: &'static str = "/sys/class/hwmon";

/// How many `tempN_label` files are searched for a label, from 1.
pub const LABEL_SLOTS: u32 = 8;

/// Whether a device whose `name` file holds `raw` is one of `wanted`.
pub open spec fn is_wanted_name(raw: Seq<char>, wanted: Seq<&str>) -> bool {
    exists|i: int| 0 <= i < wanted.len() && (#[trigger] wanted[i])@ == trim(raw)
}

/// Whether a device whose `name` file holds `raw` is one of `wanted`.
pub fn name_is_wanted(raw: &str, wanted: &[&str]) -> (r: bool)
    ensures
        r == is_wanted_name(raw@, wanted@),
{
    let name = trim_str(raw);
    let mut i: usize = 0;
    while i < wanted.len()
        invariant
            i <= wanted@.len(),
            name@ == trim(raw@),
            forall|k: int| 0 <= k < i ==> (#[trigger] wanted@[k])@ != trim(raw@),
        decreases wanted@.len() - i,
    {
        if str_eq(wanted[i], name) {
            return true;
        }
        i = i + 1;
    }
    false
}

/// Whether a `tempN_label` file holding `raw` names the sensor `label`,
/// ignoring ASCII case.
pub fn label_matches(raw: &str, label: &str) -> (r: bool)
    ensures
        r == eq_ignore_ascii_case(trim(raw@), label@),
{
    str_eq_ignore_ascii_case(trim_str(raw), label)
}

/// The temperature input read for the sensor `label`, given the contents of
/// `temp1_label` to `tempN_label` (`None` where a file could not be read):
/// the number of the first whose label matches, or `None`.
pub fn label_slot(labels: &Vec<Option<String>>, label: &str) -> (r: Option<u32>)
    requires
        labels@.len() <= LABEL_SLOTS,
    ensures
        match r {
            Some(n) => {
                &&& 1 <= n <= labels@.len()
                &&& labels@[n - 1] matches Some(raw) && eq_ignore_ascii_case(trim(raw@), label@)
                &&& forall|j: int|
                    0 <= j < n - 1 ==> !(#[trigger] labels@[j] matches Some(raw)
                        && eq_ignore_ascii_case(trim(raw@), label@))
            },
            None => forall|j: int|
                0 <= j < labels@.len() ==> !(#[trigger] labels@[j] matches Some(raw)
                    && eq_ignore_ascii_case(trim(raw@), label@)),
        },
{
    let mut i: usize = 0;
    while i < labels.len()
        invariant
            i <= labels@.len() <= LABEL_SLOTS,
            forall|j: int|
                0 <= j < i ==> !(#[trigger] labels@[j] matches Some(raw) && eq_ignore_ascii_case(
                    trim(raw@),
                    label@,
                )),
        decreases labels@.len() - i,
    {
        match &labels[i] {
            Some(raw) => {
                if label_matches(raw.as_str(), label) {
                    return Some((i + 1) as u32);
                }
            },
            None => {},
        }
        i = i + 1;
    }
    None
}

/// The reading of a `fanN_input` file holding `raw`, in rpm.
pub fn parse_fan_rpm(raw: &str) -> (r: Option<u32>)
    ensures
        r == parse_u32(trim(raw@)),
{
    parse_u32_str(trim_str(raw))
}

fn numbered_file(head: &str, idx: u32, tail: &str) -> (r: String)
    ensures
        r@ == head@ + decimal(idx as nat) + tail@,
{
    let mut s = String::from_str(head);
    push_decimal(&mut s, idx);
    s.append(tail);
    s
}

/// The name of the `idx`th temperature input file, `temp{idx}_input`.
pub fn temp_input_file(idx: u32) -> (r: String)
    ensures
        r@ == "temp"@ + decimal(idx as nat) + "_input"@,
{
    numbered_file("temp", idx, "_input")
}

/// The name of the `idx`th temperature label file, `temp{idx}_label`.
pub fn temp_label_file(idx: u32) -> (r: String)
    ensures
        r@ == "temp"@ + decimal(idx as nat) + "_label"@,
{
    numbered_file("temp", idx, "_label")
}

/// The name of the `idx`th fan input file, `fan{idx}_input`.
pub fn fan_input_file(idx: u32) -> (r: String)
    ensures
        r@ == "fan"@ + decimal(idx as nat) + "_input"@,
{
    numbered_file("fan", idx, "_input")
}

/// A fan input that holds a reading written in decimal, followed by the
/// newline sysfs ends it with, reads back as that reading.
pub proof fn lemma_fan_reading_roundtrip(rpm: u32)
    ensures
        parse_u32(trim(decimal(rpm as nat).push('\n'))) == Some(rpm),
{
    let d = decimal(rpm as nat);
    let s = d.push('\n');
    lemma_decimal_value(rpm as nat);
    lemma_parse_decimal_roundtrip(rpm);
    assert(!is_space(s[0])) by {
        assert(s[0] == d[0]);
    }
    assert(trim_start(s) == s);
    assert(s.drop_last() =~= d);
    assert(!is_space(d.last()));
    assert(trim_end(d) == d);
    assert(trim_end(s) == d);
}

} // verus!
