//! Verified core of a small control panel for ASUS ROG laptops: the value
//! mappings, parsers, formatters and editing rules behind each panel.

pub mod dbus;
pub mod panels;
pub mod sysfs;
pub mod text;
