//! Runtime core of a 2D arcade shooter: geometry, input tracking, animated
//! sprites, entity lifecycle, views and frame pacing.
//!
//! Positions and sizes are whole logical pixels; time is whole milliseconds.

pub mod geometry;
pub mod input;
pub mod sprite;
pub mod motion;
pub mod bullets;
pub mod entities;
pub mod collisions;
pub mod backdrop;
mod chance;
pub mod view;
pub mod menu;
pub mod game;
pub mod ship;
pub mod scheduler;
pub mod audio;
