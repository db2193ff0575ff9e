//! Driver library for an addressable LED strip behind a serial link.
//!
//! The library turns logical drawing operations into the device's byte
//! frames, records them (with the pauses between them) in a [`Controller`],
//! runs the lighting effects against it, and decides the lifecycle of a
//! device session. Performing the recorded actions on a real port is left to
//! the caller.
pub mod color;
pub mod protocol;
pub mod controller;
pub mod effect;
pub mod session;

pub use color::Color;
pub use protocol::Frame;
pub use controller::{Action, Controller};
