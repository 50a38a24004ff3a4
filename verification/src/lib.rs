//! Core of an audio-reactive particle visualization.
//!
//! The crate models the real-time simulate-and-render pipeline of a desktop
//! background that composites a particle field over an optional background
//! image, with a visual intensity driven by a live audio signal.
//!
//! All scalar quantities that the renderer consumes as floating-point numbers
//! (intensities, gains, velocities, time deltas) are carried here as
//! fixed-point integers counted in millionths of a unit, so that every update
//! rule is an exact integer computation with a proved contract. The thin
//! process around this library converts to `f32` only at the GPU boundary.

pub mod geometry;
pub mod intensity;
pub mod particles;
pub mod pipeline;
pub mod state;
pub mod volume;
