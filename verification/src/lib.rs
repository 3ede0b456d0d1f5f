//! A small top-down action game as a deterministic fixed-point simulation:
//! a mode machine and the per-frame systems that move, shoot, expire and
//! chase, over an arena of entities.
//!
//! Lengths are whole micro-units, times whole microseconds, and speeds whole
//! units per second, so one microsecond at speed one covers one micro-unit.

pub mod assets;
pub mod components;
pub mod entity;
pub mod game;
pub mod laws;
pub mod modes;
pub mod rules;
pub mod systems;
pub mod units;
pub mod window;
pub mod world;
