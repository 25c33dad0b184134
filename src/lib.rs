//! Decision logic of a radio beacon firmware: one-time ownership of the
//! hardware handles, the ordered bring-up sequence, the transmit loop with its
//! fail-fast policy, and the fallback for the one-time register dump.
//!
//! The hardware itself (clock tree, pins, serial bus, radio driver, log
//! channel) is driven by the caller, which performs each action that the
//! controller asks for and reports back how it went.

pub mod controller;
pub mod diagnostics;
pub mod ownership;
