//! Decoding of a radio-control PPM signal into per-channel pulse widths,
//! validation of decoded frames, and re-encoding of the throttle channel into
//! a double-buffered PWM duty command.

pub mod frame;
pub mod throttle;
pub mod pwm;
pub mod decoder;
pub mod receiver;
pub mod diagnostics;
