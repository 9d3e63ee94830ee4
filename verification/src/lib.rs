//! A small demonstration scene: a static floor, a dynamic compound cube that
//! can be reset with a key press, a light and a camera.
//!
//! The crate holds the scene description and the reset rule as plain data and
//! verified functions; an embedding binary hands both to a game engine and a
//! physics plugin, which own rendering, input and simulation.

pub mod geom;
pub mod reset;
pub mod scene;
