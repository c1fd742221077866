//! A typewriter-style text reveal engine.
//!
//! An animator holds a target string and a reveal speed; driven by a per-frame
//! time delta, it yields ever longer code-point-safe prefixes of the string,
//! optionally padded to a constant visible width, and reports exactly one
//! completion per finished reveal, optionally after a configurable delay.
//!
//! Time is measured in microseconds and speed in thousandths of a code point
//! per second, so all timing arithmetic is exact integer arithmetic.

pub mod model;
pub mod text;
pub mod animator;
pub mod laws;
