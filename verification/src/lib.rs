//! Simulation core of a vertical platformer: a player that accelerates, falls
//! and bounces on platforms, hazards that end the session on contact, and a
//! generator that keeps placing platforms and hazards above the highest point
//! the player has reached.
//!
//! All quantities are fixed-point integers. Lengths are counted in thousandths
//! of a world unit, speeds in thousandths of a world unit per second, and time
//! in nanoseconds.

pub mod geometry;
pub mod interpolation;
pub mod player;
mod random;
pub mod spawner;
pub mod systems;
pub mod units;
pub mod world;

pub use geometry::{Box, CollisionBox, Vec2};
pub use interpolation::{
    CycleTimer, Direction, InterpolationMode, Interpolator, Line, LineInterpolatorBundle,
};
pub use player::{Input, Player, Velocity};
pub use spawner::platform_spawner;
pub use systems::{
    keep_player_in_bounds, kill_player_on_damage, player_falling_jumping,
    player_horizontal_control, screen_tracking, step_interpolation, step_physics, tick,
};
pub use world::{DamageSource, LastPlatformSpawnHeight, Platform, ScreenHeight, World};
