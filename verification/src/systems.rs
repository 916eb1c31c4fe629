//! The gameplay systems, each a function over the tables it reads and writes.
pub mod animation;
pub mod clipping;
pub mod collision;
pub mod flag_reached;
pub mod gravity;
pub mod health;
pub mod physics;
pub mod player_animation;
pub mod player_movement;
pub mod player_pineapple;
pub mod points_ticking_down;
pub mod velocity;
