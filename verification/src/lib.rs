//! Driver layer for a small robot-car control system.
//!
//! The crate models the peripheral-driver abstraction of a cooperative,
//! single-core controller: a status LED heartbeat, a dual H-bridge motor
//! driver, an ultrasonic distance sensor, a servo, and a framed serial link.
//! Each driver owns its peripheral handles exclusively and exposes the pure
//! decision logic of its control loop; the timing and pin-level I/O around
//! these decisions is left to the runtime that drives the loops.

pub mod distance;
pub mod handles;
pub mod led;
pub mod link;
pub mod motor;
pub mod selftest;
pub mod servo;
