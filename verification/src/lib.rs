//! The opening scene of a two-dimensional lunar lander game, described as
//! plain data: a camera, a strip of moon surface, and a lander assembled from
//! four flat meshes that share one material.
//!
//! A game engine works in floating point. This crate keeps every quantity as
//! an integer in a stated unit, and proves of the scene it builds that each
//! handle an entity holds refers to an asset that the scene has,
//! and that each shape is one the engine can build.

pub mod color;
pub mod geometry;
pub mod lander;
pub mod scene;
