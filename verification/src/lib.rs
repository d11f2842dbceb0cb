//! Simulation core of an asteroids arcade game, on integers.
//!
//! Positions are counted in millionths of an arena unit, directions in
//! thousandths, thrust in millionths, angles in thousandths of a degree and
//! time in milliseconds, so that one frame's motion is an exact integer.
//! Drawing, sound playback, key mapping and file access belong to the host:
//! the core takes plain values from it and hands plain values back.

pub mod alien;
pub mod arena;
pub mod asteroid;
pub mod clock;
pub mod collision;
pub mod constants;
pub mod frame;
pub mod game;
pub mod particle;
pub mod projectile;
pub mod random;
pub mod save;
pub mod score;
pub mod ship;
pub mod sounds;
pub mod vector;

