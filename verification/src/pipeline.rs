//! What one tick does to the tables, system by system, in the order in which
//! the systems run.
//!
//! A system takes each table that it changes by `&mut` and each table that it
//! only reads by `&`, for the length of its own run. So a table has one writer
//! or any number of readers at a time, and an access that would break this is
//! refused when the program is built: no tick can run into it.
//!
//! A table that does not exist stands for "no entity holds a component of
//! this type". A system runs on what there is, and finds nothing where a table
//! is missing.
use vstd::prelude::*;
use crate::components::{BlocksMovement, MarkedForDeletion, Position, RigidBody, Velocity};
use crate::input::KeyboardInput;
use crate::systems::animation::{animation_maps_advanced, animations_advanced};
use crate::systems::collision::collisions_refreshed;
use crate::systems::flag_reached::goal_reached;
use crate::systems::gravity::gravity_applied;
use crate::systems::health::health_decayed;
use crate::systems::physics::{STEPS, after_steps};
use crate::systems::player_animation::clip_selected;
use crate::systems::player_movement::steered;
use crate::systems::player_pineapple::collected;
use crate::systems::points_ticking_down::{out_of_points, points_ticked};
use crate::systems::animation::animation_system;
use crate::systems::collision::collision_system;
use crate::systems::flag_reached::flag_reached_system;
use crate::systems::gravity::gravity_system;
use crate::systems::health::health_system;
use crate::systems::physics::physics_system;
use crate::systems::player_animation::player_animation_system;
use crate::systems::player_movement::player_movement_system;
use crate::systems::player_pineapple::player_pineapple_system;
use crate::systems::points_ticking_down::points_ticking_down;
use crate::tables::{ComponentVectors, Tables};
use crate::units::elapsed_millis;

verus! {

/// The scenes of the game. A game begins in `Ingame` and ends in one of the
/// other two, which no tick leaves.
#[derive(Clone, Copy, Debug, PartialEq, Eq, Structural)]
pub enum Scenes {
    Ingame,
    GameOver,
    YouWon,
}

/// The slots of a table. A table that does not exist has none: no entity
/// holds a component of its type.
pub open spec fn entries<T>(column: Option<Seq<Option<T>>>) -> Seq<Option<T>> {
    match column {
        Some(s) => s,
        None => Seq::empty(),
    }
}

/// Health runs down, where a health table exists.
pub open spec fn health_stage(b: Tables, a: Tables) -> bool {
    &&& a == Tables { healths: a.healths, ..b }
    &&& match b.healths {
        Some(h) => a.healths is Some && health_decayed(h, a.healths.unwrap()),
        None => a.healths is None,
    }
}

/// The player is steered by the keys, where there is a player and a velocity table.
pub open spec fn movement_stage(
    b: Tables,
    a: Tables,
    player: Option<usize>,
    keys: Seq<KeyboardInput>,
) -> bool {
    a == Tables {
        velocities: match (b.velocities, player) {
            (Some(v), Some(p)) => Some(steered(v, p, keys)),
            _ => b.velocities,
        },
        ..b
    }
}

/// Clips and sets of clips advance.
pub open spec fn animation_stage(b: Tables, a: Tables, millis: int) -> bool {
    &&& a == Tables { animations: a.animations, animation_maps: a.animation_maps, ..b }
    &&& animations_advanced(b.animations, a.animations, millis)
    &&& animation_maps_advanced(b.animation_maps, a.animation_maps, millis)
}

/// Gravity pulls, where a gravity table and a velocity table exist.
pub open spec fn gravity_stage(b: Tables, a: Tables, millis: int) -> bool {
    &&& a == Tables { velocities: a.velocities, ..b }
    &&& match (b.gravities, b.velocities) {
        (Some(g), Some(v)) => a.velocities is Some && gravity_applied(
            g,
            v,
            a.velocities.unwrap(),
            millis,
        ),
        _ => a.velocities == b.velocities,
    }
}

/// Entities move, where tables of velocities, positions and bodies exist.
/// Whether anything is marked as blocking is not asked.
pub open spec fn physics_stage(b: Tables, a: Tables, millis: int) -> bool {
    &&& a == Tables { velocities: a.velocities, positions: a.positions, ..b }
    &&& match (b.velocities, b.positions, b.rigid_bodies) {
        (Some(v), Some(p), Some(r)) => {
            &&& a.velocities == Some(after_steps(v, p, r, millis, STEPS as nat).0)
            &&& a.positions == Some(after_steps(v, p, r, millis, STEPS as nat).1)
        },
        _ => a.velocities == b.velocities && a.positions == b.positions,
    }
}

/// Collisions are found anew, where a table of collision lists exists. Where
/// no table of positions or of bodies exists, no entity has one, and every
/// list ends up empty.
pub open spec fn collision_stage(b: Tables, a: Tables) -> bool {
    &&& a == Tables { collision_lists: a.collision_lists, ..b }
    &&& match b.collision_lists {
        Some(l) => a.collision_lists is Some && collisions_refreshed(
            l,
            a.collision_lists.unwrap(),
            entries(b.positions),
            entries(b.rigid_bodies),
        ),
        None => a.collision_lists is None,
    }
}

/// The player's clip is chosen, where there is a player and tables of
/// velocities and of clip sets.
pub open spec fn player_animation_stage(b: Tables, a: Tables, player: Option<usize>) -> bool {
    &&& a == Tables { animation_maps: a.animation_maps, ..b }
    &&& match (b.velocities, b.animation_maps, player) {
        (Some(v), Some(m), Some(p)) => a.animation_maps is Some && clip_selected(
            v,
            m,
            a.animation_maps.unwrap(),
            p,
        ),
        _ => a.animation_maps == b.animation_maps,
    }
}

/// The player collects, where tables of collision lists, entity types and
/// scores exist. Where no table of deletion marks exists, no entity has a
/// mark, and none is set.
pub open spec fn pickup_stage(b: Tables, a: Tables, player: Option<usize>) -> bool {
    &&& a == Tables { marked_for_deletion: a.marked_for_deletion, points: a.points, ..b }
    &&& (a.marked_for_deletion is Some <==> b.marked_for_deletion is Some)
    &&& match (b.collision_lists, b.entity_types, b.points) {
        (Some(l), Some(t), Some(s)) => a.points is Some && collected(
            l,
            t,
            entries(b.marked_for_deletion),
            entries(a.marked_for_deletion),
            s,
            a.points.unwrap(),
            player,
        ),
        _ => a.marked_for_deletion == b.marked_for_deletion && a.points == b.points,
    }
}

/// The player's score runs down, where a score table exists.
pub open spec fn points_stage(b: Tables, a: Tables, player: Option<usize>, millis: int) -> bool {
    a == Tables {
        points: match b.points {
            Some(s) => Some(points_ticked(s, player, millis)),
            None => None,
        },
        ..b
    }
}

/// Whether the player has reached the goal, as far as the tables can tell.
pub open spec fn won(tables: Tables, player: Option<usize>) -> bool {
    match (tables.collision_lists, tables.entity_types) {
        (Some(l), Some(t)) => goal_reached(l, t, player),
        _ => false,
    }
}

/// Whether the player's score had run out before this tick took its share.
pub open spec fn lost(tables: Tables, player: Option<usize>) -> bool {
    match tables.points {
        Some(s) => out_of_points(s, player),
        None => false,
    }
}

/// The scene that a tick asks for, judged when the player has collected: the
/// lost game where the score has run out, else the won game where the goal is
/// reached, else none.
pub open spec fn scene_requested(tables: Tables, player: Option<usize>) -> Option<Scenes> {
    if lost(tables, player) {
        Some(Scenes::GameOver)
    } else if won(tables, player) {
        Some(Scenes::YouWon)
    } else {
        None
    }
}

/// The tables as they pass through the systems of one tick, from `s0` before
/// the first system to `s9` after the last.
pub open spec fn systems_run(
    s0: Tables,
    s1: Tables,
    s2: Tables,
    s3: Tables,
    s4: Tables,
    s5: Tables,
    s6: Tables,
    s7: Tables,
    s8: Tables,
    s9: Tables,
    player: Option<usize>,
    keys: Seq<KeyboardInput>,
    millis: int,
) -> bool {
    &&& health_stage(s0, s1)
    &&& movement_stage(s1, s2, player, keys)
    &&& animation_stage(s2, s3, millis)
    &&& gravity_stage(s3, s4, millis)
    &&& physics_stage(s4, s5, millis)
    &&& collision_stage(s5, s6)
    &&& player_animation_stage(s6, s7, player)
    &&& pickup_stage(s7, s8, player)
    &&& points_stage(s8, s9, player, millis)
}

/// Runs the health system on the tables.
pub fn run_health(tables: &mut ComponentVectors)
    ensures
        health_stage(old(tables)@, final(tables)@),
{
    match &mut tables.healths {
        Some(health_components) => {
            health_system(health_components);
        },
        None => {},
    }
}

/// Runs the player movement system on the tables.
pub fn run_player_movement(
    tables: &mut ComponentVectors,
    player_index: Option<usize>,
    keyboard_inputs_frame: &Vec<KeyboardInput>,
)
    ensures
        movement_stage(old(tables)@, final(tables)@, player_index, keyboard_inputs_frame@),
{
    if let Some(player) = player_index {
        match &mut tables.velocities {
            Some(velocity_components) => {
                player_movement_system(velocity_components, player, keyboard_inputs_frame);
            },
            None => {},
        }
    }
}

/// Runs the animation system on the tables.
pub fn run_animation(tables: &mut ComponentVectors, time_passed: u128)
    ensures
        animation_stage(old(tables)@, final(tables)@, elapsed_millis(time_passed)),
{
    animation_system(&mut tables.animations, &mut tables.animation_maps, time_passed);
}

/// Runs the gravity system on the tables.
pub fn run_gravity(tables: &mut ComponentVectors, time_passed: u128)
    ensures
        gravity_stage(old(tables)@, final(tables)@, elapsed_millis(time_passed)),
{
    match &mut tables.gravities {
        Some(gravity_components) => match &mut tables.velocities {
            Some(velocity_components) => {
                gravity_system(gravity_components, velocity_components, time_passed);
            },
            None => {},
        },
        None => {},
    }
}

/// Runs the physics system on the tables.
pub fn run_physics(tables: &mut ComponentVectors, time_passed: u128)
    ensures
        physics_stage(old(tables)@, final(tables)@, elapsed_millis(time_passed)),
{
    match &mut tables.velocities {
        Some(velocity_components) => match &mut tables.positions {
            Some(position_components) => match &mut tables.rigid_bodies {
                Some(rigid_body_components) => match &mut tables.blocks_movement {
                    Some(blocks_movement) => {
                        physics_system(
                            velocity_components,
                            position_components,
                            rigid_body_components,
                            blocks_movement,
                            time_passed,
                        );
                    },
                    None => {
                        let mut blocks_movement: Vec<Option<BlocksMovement>> = Vec::new();
                        physics_system(
                            velocity_components,
                            position_components,
                            rigid_body_components,
                            &mut blocks_movement,
                            time_passed,
                        );
                    },
                },
                None => {},
            },
            None => {},
        },
        None => {},
    }
}

/// Runs the collision system on the tables.
pub fn run_collision(tables: &mut ComponentVectors, time_passed: u128)
    ensures
        collision_stage(old(tables)@, final(tables)@),
{
    match &mut tables.collision_lists {
        Some(collision_list_components) => {
            let mut no_positions: Vec<Option<Position>> = Vec::new();
            let mut no_rigid_bodies: Vec<Option<RigidBody>> = Vec::new();
            let position_components = match &mut tables.positions {
                Some(position_components) => position_components,
                None => &mut no_positions,
            };
            let rigid_body_components = match &mut tables.rigid_bodies {
                Some(rigid_body_components) => rigid_body_components,
                None => &mut no_rigid_bodies,
            };
            collision_system(
                position_components,
                rigid_body_components,
                collision_list_components,
                time_passed,
            );
        },
        None => {},
    }
}

/// Runs the player animation system on the tables.
pub fn run_player_animation(tables: &mut ComponentVectors, player_index: Option<usize>)
    ensures
        player_animation_stage(old(tables)@, final(tables)@, player_index),
{
    if let Some(player) = player_index {
        match &mut tables.velocities {
            Some(velocity_components) => match &mut tables.animation_maps {
                Some(animation_map_components) => {
                    player_animation_system(velocity_components, animation_map_components, player);
                },
                None => {},
            },
            None => {},
        }
    }
}

/// Runs the pickup of pineapples on the tables.
pub fn run_player_pineapple(tables: &mut ComponentVectors, player_index: Option<usize>)
    ensures
        pickup_stage(old(tables)@, final(tables)@, player_index),
{
    match &tables.collision_lists {
        Some(collision_list_components) => match &tables.entity_types {
            Some(entity_type_components) => match &mut tables.points {
                Some(points_components) => {
                    let mut no_marks: Vec<Option<MarkedForDeletion>> = Vec::new();
                    let marked_for_deletion_components = match &mut tables.marked_for_deletion {
                        Some(marked_for_deletion_components) => marked_for_deletion_components,
                        None => &mut no_marks,
                    };
                    player_pineapple_system(
                        collision_list_components,
                        marked_for_deletion_components,
                        entity_type_components,
                        points_components,
                        player_index,
                    );
                },
                None => {},
            },
            None => {},
        },
        None => {},
    }
}

/// Asks the tables whether the player has reached the goal.
pub fn run_flag_reached(tables: &ComponentVectors, player_index: Option<usize>) -> (reached: bool)
    ensures
        reached == won(tables@, player_index),
{
    match &tables.collision_lists {
        Some(collision_list_components) => match &tables.entity_types {
            Some(entity_type_components) => flag_reached_system(
                collision_list_components,
                entity_type_components,
                player_index,
            ),
            None => false,
        },
        None => false,
    }
}

/// Lets the player's score in the tables run down, and says whether it had run out.
pub fn run_points_ticking_down(
    tables: &mut ComponentVectors,
    time_passed: u128,
    player_index: Option<usize>,
) -> (game_over: bool)
    ensures
        game_over == lost(old(tables)@, player_index),
        points_stage(old(tables)@, final(tables)@, player_index, elapsed_millis(time_passed)),
{
    match &mut tables.points {
        Some(points_components) => points_ticking_down(
            points_components,
            time_passed,
            player_index,
        ),
        None => false,
    }
}

/// The systems make and drop no slot: tables that have one slot for each of
/// `n` entities before a tick have so after every system.
pub proof fn lemma_systems_keep_sizes(
    s0: Tables,
    s1: Tables,
    s2: Tables,
    s3: Tables,
    s4: Tables,
    s5: Tables,
    s6: Tables,
    s7: Tables,
    s8: Tables,
    s9: Tables,
    player: Option<usize>,
    keys: Seq<KeyboardInput>,
    millis: int,
    n: nat,
)
    requires
        systems_run(s0, s1, s2, s3, s4, s5, s6, s7, s8, s9, player, keys, millis),
        s0.sized(n),
    ensures
        s1.sized(n),
        s2.sized(n),
        s3.sized(n),
        s4.sized(n),
        s5.sized(n),
        s6.sized(n),
        s7.sized(n),
        s8.sized(n),
        s9.sized(n),
{
    match (s4.velocities, s4.positions, s4.rigid_bodies) {
        (Some(v), Some(p), Some(r)) => {
            lemma_steps_keep_sizes(v, p, r, millis, STEPS as nat);
        },
        _ => {},
    }
}

/// Moving keeps the number of velocities and of positions.
pub proof fn lemma_steps_keep_sizes(
    velocities: Seq<Option<Velocity>>,
    positions: Seq<Option<Position>>,
    rigid_bodies: Seq<Option<RigidBody>>,
    millis: int,
    steps: nat,
)
    ensures
        after_steps(velocities, positions, rigid_bodies, millis, steps).0.len() == velocities.len(),
        after_steps(velocities, positions, rigid_bodies, millis, steps).1.len() == positions.len(),
    decreases steps,
{
    if steps > 0 {
        lemma_steps_keep_sizes(velocities, positions, rigid_bodies, millis, (steps - 1) as nat);
    }
}

/// The sweep makes and drops no slot.
pub proof fn lemma_swept_sized(before: Tables, after: Tables, n: nat)
    requires
        before.swept(after),
    ensures
        before.sized(n) ==> after.sized(n),
{
}

} // verus!
