//! Measurement, calibration and control-protocol core of a BLE force
//! transmitter built around a 24-bit load-cell converter.
//!
//! Every function in this crate is verified. Hardware access, timing and the
//! radio live with the caller, which feeds the results of its I/O into the
//! functions defined here and carries out the actions they return.
pub mod binary32;
pub mod ble;
pub mod bytes;
pub mod hx711;
pub mod progressor;
pub mod tasks;
