//! Driver for WS2812-family addressable RGB LED strips.
//!
//! [`color`] holds the per-LED color value, which knows the order in which a
//! chipset expects its channels on the wire. [`driver`] turns a strip's worth
//! of colors into one byte sequence and hands it to a transmission backend;
//! the backend here records what it would have sent.

pub mod color;
pub mod driver;
