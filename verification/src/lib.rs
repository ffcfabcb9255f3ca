//! Verified core of a radial selection overlay: the decisions behind device
//! and swap-chain setup, the double-buffered frame protocol, the per-frame
//! uniform record with its wire layout, and the polar hit test that maps a
//! cursor position to a menu segment.
//!
//! Everything here works on plain values. The graphics and windowing calls
//! themselves are made by the program around this library, which hands their
//! results in and carries the library's decisions out.

pub mod error;
pub mod overlay;
pub mod words;
pub mod uniform;
pub mod shader;
pub mod frame;
pub mod device;
pub mod surface;
pub mod teardown;
pub mod flags;
