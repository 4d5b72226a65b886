//! The BMI270 inertial measurement unit.

pub mod bus;
pub mod enable;
pub mod frame;
pub mod init;
mod ints;
pub mod regs;
pub mod sampler;
