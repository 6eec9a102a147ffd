//! The decisions behind each panel of the window.

pub mod aura;
pub mod charge_limit;
pub mod fan_curve;
pub mod gpu_mode;
pub mod panel_overdrive;
pub mod profile;
pub mod telemetry;
