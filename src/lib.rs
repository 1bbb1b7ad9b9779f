//! An interactive two-dimensional rigid-body sandbox: the camera mapping
//! between window and world, the interaction state machine that tells a grab
//! from a sketch, the policy that sizes sketched shapes, and the geometry
//! that the renderer draws.
pub mod geometry;
pub mod camera;
pub mod shape;
pub mod game;
pub mod laws;
pub mod object;
pub mod draw;
pub mod constraint;
pub mod scene;
