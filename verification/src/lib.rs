//! A verified core for a 2D batched sprite renderer.
//!
//! The crate models the batching, texture-slot and camera logic of a small
//! game engine on plain integer data: geometry is 16.16 fixed point, camera
//! matrices are exact rationals. Everything device-facing (window, surface,
//! GPU queue) lives outside the library and consumes the flush packets this
//! core produces.

pub mod camera;
pub mod components;
pub mod fx;
pub mod geo;
pub mod geometry;
pub mod input;
pub mod laws;
pub mod renderer2d;
pub mod resource_manager;
pub mod texture;
pub mod window;
pub mod world;
