//! Positions on a torus: a plane that wraps around along both axes.

/// Arithmetic along a single periodic axis.
pub mod axis;
/// Canonical positions and the shortest displacement between them.
pub mod position;
/// A camera that follows a position on the torus.
pub mod camera;
/// What holds of every position, delta and projection.
pub mod laws;
