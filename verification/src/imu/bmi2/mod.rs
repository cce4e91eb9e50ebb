//! The BMI270 motion sensor: how its registers are reached over the bus.

pub mod interface;

pub use self::interface::I2cAddr;
