//! Protocol cores of the peripheral drivers of a small e-paper watch: an
//! accelerometer, an e-paper display controller and a real-time clock, and
//! what the watch decides around them.
//!
//! Nothing in this crate touches a bus. Every driver is written as pure
//! functions and small state machines that say which bytes go over the wire
//! and what the answers mean; the caller owns the bus and performs the
//! transfers.

pub mod bma423;
pub mod buttons;
pub mod draw_buffer;
pub mod font;
pub mod gdeh0154d67;
pub mod pcf8563;
pub mod vibration_motor;
pub mod watchy;
