//! What the panels read from sysfs: hwmon sensors and the ACPI platform
//! profile. The files are read by the caller; these modules decide what
//! the contents mean.

pub mod hwmon;
pub mod platform_profile;
