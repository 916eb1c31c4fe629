//! The component types: plain data that is attached to entities.
use vstd::prelude::*;

verus! {

/// A label for the eye. It has no effect on the game.
#[derive(Clone, Copy, Debug, PartialEq, Eq)]
pub struct Name {
    pub name: &'static str,
}

/// An image to draw, with its size and its place in the order of drawing.
#[derive(Clone, Copy, Debug, PartialEq, Eq)]
pub struct Sprite {
    pub texture_id: usize,
    pub render: bool,
    pub width_normalized: i64,
    pub height_normalized: i64,
    pub z: u32,
}

/// What an entity has left of its health.
#[derive(Clone, Copy, Debug, PartialEq, Eq)]
pub struct Health {
    pub health: u32,
}

/// A clip: a sequence of frames, each shown for the same time.
#[derive(Clone, Debug, PartialEq, Eq)]
pub struct Animation {
    pub animation_name: String,
    pub running: bool,
    pub sprites: Vec<Sprite>,
    pub time_per_frame_ms: u32,
    pub time_since_last_frame: u32,
    pub current_frame_index: usize,
}

/// Several named clips, of which one is selected. Where two clips share a
/// name, the first one is the clip of that name.
#[derive(Clone, Debug, PartialEq, Eq)]
pub struct AnimationMap {
    pub clips: Vec<Animation>,
    pub horiz_mirror: bool,
    pub current_animation_name: String,
}

/// Where an entity is: the top left corner of its box.
#[derive(Clone, Copy, Debug, PartialEq, Eq)]
pub struct Position {
    pub x: i64,
    pub y: i64,
}

/// Whether an entity falls.
#[derive(Clone, Copy, Debug, PartialEq, Eq)]
pub struct Gravity {
    pub affected_by_gravity: bool,
}

/// How fast an entity moves, in units per second. Down is positive.
#[derive(Clone, Copy, Debug, PartialEq, Eq)]
pub struct Velocity {
    pub vel_x: i64,
    pub vel_y: i64,
}

/// A score, and the time since it last changed.
#[derive(Clone, Copy, Debug, PartialEq, Eq)]
pub struct Points {
    pub points: u32,
    pub time_since_last_point_change_ms: u32,
}

/// The extent of an entity's box.
#[derive(Clone, Copy, Debug, PartialEq, Eq)]
pub struct RigidBody {
    pub width: i64,
    pub height: i64,
}

/// What an entity overlaps in this tick.
#[derive(Clone, Debug, PartialEq, Eq)]
pub struct CollisionList {
    pub list: Vec<Collision>,
}

/// The side of a box on which another box lies.
#[derive(Clone, Copy, Debug, PartialEq, Eq, Structural)]
pub enum CollisionSide {
    LEFT,
    RIGHT,
    TOP,
    BOTTOM,
}

/// One overlap: with whom, on which side, and how far along each axis.
#[derive(Clone, Copy, Debug, PartialEq, Eq)]
pub struct Collision {
    pub collided_with: usize,
    pub side: CollisionSide,
    pub x_diff: i64,
    pub y_diff: i64,
}

/// Marks terrain. The movement of bodies does not ask for it: every body blocks.
#[derive(Clone, Copy, Debug, PartialEq, Eq)]
pub struct BlocksMovement {
    pub blocks: bool,
}

/// What the player is doing. No system reads or changes it.
#[derive(Clone, Copy, Debug, PartialEq, Eq)]
pub struct PlayerState {
    pub state: PlayerStateKind,
}

/// The things a player can be doing.
#[derive(Clone, Copy, Debug, PartialEq, Eq, Structural)]
pub enum PlayerStateKind {
    Idle,
    RunningLeft,
    RunningRight,
    Falling,
}

/// What kind of thing an entity is.
#[derive(Clone, Copy, Debug, PartialEq, Eq, Structural)]
pub enum EntityType {
    Player,
    Static,
    Pineapple,
    EndFlag,
}

/// Whether an entity is to be deleted when the tick ends.
#[derive(Clone, Copy, Debug, PartialEq, Eq)]
pub struct MarkedForDeletion {
    pub marked: bool,
}

/// What an entity holds in a table: the table's entry at `i`, and nothing
/// where the table does not reach that far.
pub open spec fn slot<T>(table: Seq<Option<T>>, i: int) -> Option<T> {
    if 0 <= i < table.len() {
        table[i]
    } else {
        None
    }
}

} // verus!
