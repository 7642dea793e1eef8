//! A Wii Nunchuk seen through a gamepad transport, as a typed event stream:
//! two calibrated analog axes and the C and Z buttons.
//!
//! Axis readings and calibration factors are fixed-point numbers counted in
//! millionths, so that `1_000_000` stands for a full deflection of `1.0`.

pub mod calibration;
pub mod nunchuk;
