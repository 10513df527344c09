//! Driver logic for WS2812 addressable RGB LED strips over a single
//! bit-banged GPIO line.
//!
//! The wire protocol is produced by toggling one output pin with
//! cycle-accurate busy-wait delays taken from a down-counting hardware
//! timer. This crate holds the verified protocol logic: how a byte, a
//! color and a frame become an ordered sequence of pin transitions and
//! delays, and how a requested cycle count becomes a sequence of timer
//! operations. A thin unverified runner performs those operations on
//! the actual pin and timer registers.

pub mod delay;
pub mod sender;
pub mod timing;
