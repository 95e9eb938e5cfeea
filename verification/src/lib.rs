//! Verified utilities for games on periodic, wrap-around worlds.
//!
//! Coordinates are signed 64-bit integers, which suits grid worlds as well as
//! fixed-point positions. Every executable function carries a contract over
//! unbounded mathematical integers, and Verus proves that the code meets it
//! without overflow.

/// Bounded value.
pub mod bounded;
/// A possibly more convenient key enum.
pub mod key;
/// Two-component integer vectors and their mathematical view.
pub mod vector;
/// Drawing random integers.
pub mod rng;
/// Positions and cameras on a torus.
pub mod torus;
