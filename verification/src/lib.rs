//! Driver core for an MPU-9150-family inertial measurement unit on an
//! I2C bus: device identification, configuration, atomic bulk register
//! reads, and decoding of the raw register block into signed counts.
//!
//! The bus itself is reached through the [`transport::Transport`]
//! capability, so the protocol logic is independent of the concrete
//! I2C implementation. Conversion of raw counts into floating-point
//! physical units is left to the caller, using the scale constants in
//! [`decode`].

pub mod decode;
pub mod protocol;
pub mod transport;
