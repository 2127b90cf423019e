//! Rig, damage and checkpoint logic of a ragdoll vehicle game: a wheel, a
//! tube and a torso with detachable arms, driven by torque impulses, damaged
//! by contact forces, and respawned at the last activated checkpoint.
//!
//! All physical quantities are fixed-point integers: one world unit is
//! [`geometry::UNIT`] (a thousand steps). Torques are clockwise-positive, so a
//! positive torque on the wheel rolls the rig to the right.

pub mod limbs;
pub mod geometry;
pub mod collision;
pub mod config;
pub mod rig;
pub mod controller;
pub mod signal;
pub mod checkpoint;
pub mod damage;
pub mod state;
pub mod game;
pub mod game_time;
pub mod atlas_animation;
