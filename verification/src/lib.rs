//! Core of a real-time instanced scene renderer: camera and projection
//! matrices, frame-rate-independent input integration, light orbiting,
//! instance-grid generation and draw-call orchestration.
//!
//! Every scalar of the scene model is a fixed-point count of millionths of a
//! unit (`fixed::Fx`), so all of the arithmetic here is exact integer
//! arithmetic with a defined rounding. Values of transcendental functions
//! (sines, cosines, cotangents) cannot be computed in this model; the
//! functions that need them take them as arguments, and the embedding
//! program evaluates them and converts at the boundary.

pub mod fixed;
pub mod vec;
pub mod mat4;
pub mod camera;
pub mod controller;
pub mod light;
pub mod instance;
pub mod model;
pub mod scene;
