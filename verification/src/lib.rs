//! Tick-driven simulation core for a small split-screen arena game:
//! closed-form drag integration of per-actor motion, asymmetric box-bound
//! collision resolution, ray-vs-capsule hitscan, and in-arena respawn.
//!
//! All scalars are fixed-point numbers: an `i64` counts millionths of a
//! world unit (or of a radian, or of a second). Transcendental inputs
//! (sines, cosines, the exponential drag factor) are computed by the
//! caller and handed in as fixed-point values; everything downstream of
//! them is exact integer arithmetic and is verified.

pub mod components;
pub mod constants;
pub mod fixed;
pub mod helpers;
pub mod systems;
pub mod vec3;
