//! `/sys/firmware/acpi/platform_profile` and the list of choices beside it.

use vstd::prelude::*;
use crate::text::{split_words, trim, trimmed_string, words};

verus! {

pub const PATH: &'static str = "/sys/firmware/acpi/platform_profile";
pub const CHOICES: &'static str = "/sys/firmware/acpi/platform_profile_choices";

/// The active profile name in the contents of `platform_profile`.
pub fn parse_current(raw: &str) -> (r: String)
    ensures
        r@ == trim(raw@),
{
    trimmed_string(raw)
}

/// The profile names listed in the contents of `platform_profile_choices`.
pub fn parse_choices(raw: &str) -> (r: Vec<String>)
    ensures
        r@.map_values(|w: String| w@) == words(raw@),
{
    split_words(raw)
}

} // verus!
