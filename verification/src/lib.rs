//! Rules of a top-down arena shooter in which thrown guns spawn further guns.
//!
//! The library keeps the discrete state of a level: which entities exist, what
//! each weapon may still do, who is deleted by touching whom, and when the
//! level is won or lost. Continuous poses stay with the host, which reports
//! the overlaps it finds and is told what to spawn, relative to what.
//!
//! Entities live in an arena and are addressed by their index, their handle.
//! The lists of a world hold handles, so that one entity can be drawn,
//! stepped and collided with without being owned more than once.

pub mod bullet;
pub mod collidable;
pub mod collidable_object;
pub mod config;
pub mod enemy;
pub mod entity;
pub mod fps_counter;
pub mod game;
pub mod game_object;
pub mod game_state;
pub mod game_state_utils;
pub mod geometry;
pub mod ground;
pub mod gun;
pub mod gun_axe;
pub mod gun_behavior;
pub mod gun_strategy;
pub mod gun_strategy_util;
pub mod handles;
pub mod hand_gun;
pub mod input;
pub mod level;
pub mod menu_screen;
pub mod meta_gun;
pub mod object_type;
pub mod player;
pub mod renderable;
pub mod renderable_object;
pub mod shot_gun;
pub mod updatable;
pub mod victory_screen;
pub mod wall;
pub mod world;
pub mod world_req;
