//! The values that the asusd and supergfxd daemons exchange, and what the
//! panels make of them.

pub mod asusd;
pub mod aura;
pub mod fancurves;
pub mod supergfx;
