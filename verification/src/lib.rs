//! Verified core of an 8x8 LED-matrix demo: the HT16K33 wire format, two
//! built-in display patterns, and the joystick-driven dot/trail frame source.
//!
//! Everything here is pure logic on plain values. The hardware edges (the
//! two-wire bus writes, the analog reads, the busy-wait delays) live outside
//! this library and hand it bytes and readings.

pub mod bitmap;
pub mod driver;
pub mod joystick;
pub mod patterns;
