//! Rules of a small 2D game: one player ship that moves up and down on key
//! presses, the scene it lives in, and the collision layers it belongs to.
//!
//! The engine owns the frame loop, rendering and physics. This crate holds
//! what the game itself decides: what is spawned at startup, and which
//! velocity a frame's keyboard state commands.

pub mod vector;
pub mod layers;
pub mod ship;
pub mod control;
pub mod scene;
