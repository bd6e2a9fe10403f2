//! Decision logic of a host-OS probe for keyboards with custom firmware.
//!
//! The crate decides which configured keyboard a USB arrival belongs to, which
//! HID interface of that keyboard accepts the control protocol, what bytes are
//! written to it, and how the surrounding process reacts to each outcome. It
//! reads the interfaces that a HID handle has listed and performs no I/O: a
//! driver feeds it events, has the handle enumerate, and carries out the
//! actions it hands back.

pub mod config;
pub mod connection;
pub mod hid;
pub mod interface;
pub mod report;
pub mod startup;
