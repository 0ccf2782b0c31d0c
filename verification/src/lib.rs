//! A ray caster for scenes made of spheres lit by point lights.
//!
//! The crate holds the data model of a scene, the rules that pick the sphere
//! a ray meets first, the rules that decide how light travels across opaque,
//! mirror and transparent surfaces, and the pixel buffer the picture is
//! drawn into. Every function comes with a contract that is checked
//! mechanically.

pub mod geometry;
pub mod objects;
pub mod ppm;
pub mod transport;
pub mod vector;
