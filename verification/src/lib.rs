//! Game rules of a twin-stick shooter: cooldown timers, sprite animation
//! rows, round bookkeeping, spawn planning and the outcome of contacts
//! between players, enemies, civilians and blaster shots.
//!
//! Entities are identified by their 64-bit ids; positions, velocities and
//! everything else measured in floating point stays with the engine.
use vstd::prelude::*;

pub mod utils;
pub mod states;
pub mod seq_util;
pub mod constants;
pub mod components;
pub mod resources;
pub mod projectile_collision;
pub mod blaster;
pub mod civilian;
pub mod player;
pub mod enemy;
pub mod rounds;
pub mod spawn_manager;
pub mod graphics;
pub mod gamepad;
pub mod game_over;
pub mod collision_groups;
