//! The motion sensor of the badge.

pub mod bmi2;
