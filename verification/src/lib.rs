//! Driver core for a six-axis inertial sensor on a byte-oriented register bus,
//! with the small vector types that the flight controller shares.

pub mod math;
pub mod peripheral;
