//! The decision core of a ray-casting renderer.
//!
//! Everything here works on whole numbers: the projection mode and the
//! field-of-view controls, the ordering of ray parameters held by their bit
//! patterns, the choice between the two roots of a sphere hit, the search for
//! the nearest visible hit in a scene, and materials. The program around this
//! crate does the real-number arithmetic and the drawing.

pub mod projection;
pub mod scalar;
pub mod contact;
pub mod controls;
pub mod frame;
pub mod material;
pub mod resolver;
