//! What holds of the entities and their tables whatever is done with them.
use vstd::prelude::*;
use crate::components::{Position, RigidBody, Velocity, slot};
use crate::game::{GameState, attached, tick_trace, ticked};
use crate::pipeline::{Scenes, lemma_swept_sized, lemma_systems_keep_sizes, scene_requested};
use crate::systems::collision::collisions_among;
use crate::systems::physics::{
    AcceptMovement, collides, hits, movement_allowed, moves, position_after_step,
    velocity_after_step,
};
use crate::systems::player_pineapple::picked;
use crate::systems::points_ticking_down::player_entry;
use crate::tables::{Component, Tables, doomed, entry};
use crate::units::elapsed_millis;

verus! {

/// Making an entity keeps the tables in step: where every table had one slot
/// for each of `n` entities, every table has one for each of `n + 1` after.
pub proof fn lemma_new_entity_keeps_sizes(before: Tables, after: Tables, n: nat)
    requires
        before.sized(n),
        before.grown(after),
    ensures
        after.sized(n + 1),
        after.vacant(n as int),
{
}

/// A component that was attached to an entity is what a query for that entity
/// finds, unchanged, and attaching keeps the tables in step.
pub proof fn lemma_attach_then_query<C: Component>(tables: Tables, n: nat, e: int, component: C)
    requires
        tables.sized(n),
        0 <= e < n,
    ensures
        entry(
            C::column(C::with_column(tables, Some(attached(C::column(tables), n, e, component)))),
            e,
        ) == Some(component),
        C::with_column(tables, Some(attached(C::column(tables), n, e, component))).sized(n),
{
    let put = Some(attached(C::column(tables), n, e, component));
    C::lemma_sized(tables, put, n);
    C::lemma_column(tables, put, put);
}

/// After an entity was deleted, a query for it finds nothing, whatever the
/// type of component asked for.
pub proof fn lemma_deleted_holds_nothing<C: Component>(before: Tables, after: Tables, e: int)
    requires
        before.cleared(after, e),
    ensures
        after.vacant(e),
        entry(C::column(after), e) is None,
{
    C::lemma_vacant(after, e);
}

/// Deleting one entity takes nothing from another.
pub proof fn lemma_delete_spares_others(before: Tables, after: Tables, e: int, other: int)
    requires
        before.cleared(after, e),
        other != e,
    ensures
        entry(after.positions, other) == entry(before.positions, other),
        entry(after.velocities, other) == entry(before.velocities, other),
        entry(after.healths, other) == entry(before.healths, other),
        entry(after.points, other) == entry(before.points, other),
        entry(after.entity_types, other) == entry(before.entity_types, other),
{
}

/// A scene that has just begun holds no entity and no table: no id resolves
/// to any data, whatever the type of component asked for.
pub proof fn lemma_new_scene_holds_nothing<C: Component>(
    target_resolution: [u32; 2],
    scene: Scenes,
    e: int,
)
    ensures
        GameState::empty(target_resolution, scene).entities == 0,
        GameState::empty(target_resolution, scene).tables == Tables::none(),
        GameState::empty(target_resolution, scene).component::<C>(e) is None,
        GameState::empty(target_resolution, scene).wf(),
{
    C::lemma_vacant(Tables::none(), e);
}

/// A tick changes the scene only to end the game, and the scene that it
/// begins is empty.
pub proof fn lemma_tick_changes_scene_to_end(before: GameState, after: GameState, time_passed: u128)
    requires
        ticked(before, after, time_passed),
    ensures
        after.scene == before.scene || after.scene == Scenes::GameOver || after.scene
            == Scenes::YouWon,
        after.scene != before.scene ==> after == GameState::empty(
            before.target_resolution,
            after.scene,
        ),
        after.keys.len() == 0,
        after.target_resolution == before.target_resolution,
        after == GameState::empty(before.target_resolution, after.scene) || (after.entities
            == before.entities && after.player == before.player && after.scene == before.scene),
{
    let (s1, s2, s3, s4, s5, s6, s7, s8, s9) = choose|
        s1: Tables,
        s2: Tables,
        s3: Tables,
        s4: Tables,
        s5: Tables,
        s6: Tables,
        s7: Tables,
        s8: Tables,
        s9: Tables,
    | #[trigger]
        tick_trace(before, s1, s2, s3, s4, s5, s6, s7, s8, s9, after, time_passed);
}

/// The sweep at the end of a tick leaves nothing to an entity whose deletion
/// mark was set: no position and no body among the rest, so that the next
/// tick finds no collision with it and gives no point for it again.
pub proof fn lemma_swept_entity_holds_nothing(before: Tables, after: Tables, e: int)
    requires
        before.swept(after),
        doomed(before.marked_for_deletion, e),
    ensures
        after.vacant(e),
{
}

/// The sweep takes nothing from an entity whose deletion mark is not set.
pub proof fn lemma_sweep_spares_the_unmarked(before: Tables, after: Tables, e: int)
    requires
        before.swept(after),
        !doomed(before.marked_for_deletion, e),
    ensures
        entry(after.positions, e) == entry(before.positions, e),
        entry(after.rigid_bodies, e) == entry(before.rigid_bodies, e),
        entry(after.velocities, e) == entry(before.velocities, e),
        entry(after.points, e) == entry(before.points, e),
        entry(after.healths, e) == entry(before.healths, e),
        entry(after.entity_types, e) == entry(before.entity_types, e),
        entry(after.collision_lists, e) == entry(before.collision_lists, e),
        entry(after.marked_for_deletion, e) == entry(before.marked_for_deletion, e),
{
}

/// A collision list names each entity at most once, in the order of the ids,
/// names only entities that have a position and a body, and never the entity
/// whose list it is. (The table of positions is one that a `Vec` can hold.)
pub proof fn lemma_collisions_name_each_body_once(
    a: int,
    pa: Position,
    ra: RigidBody,
    positions: Seq<Option<Position>>,
    rigid_bodies: Seq<Option<RigidBody>>,
    n: int,
)
    requires
        positions.len() <= usize::MAX,
    ensures
        forall|k: int|
            0 <= k < collisions_among(a, pa, ra, positions, rigid_bodies, n).len() ==> {
                let other = (#[trigger] collisions_among(
                    a,
                    pa,
                    ra,
                    positions,
                    rigid_bodies,
                    n,
                )[k]).collided_with as int;
                &&& 0 <= other < n
                &&& other != a
                &&& slot(positions, other) is Some
                &&& slot(rigid_bodies, other) is Some
            },
        forall|j: int, k: int|
            0 <= j < k < collisions_among(a, pa, ra, positions, rigid_bodies, n).len()
                ==> collisions_among(a, pa, ra, positions, rigid_bodies, n)[j].collided_with
                < collisions_among(a, pa, ra, positions, rigid_bodies, n)[k].collided_with,
    decreases n,
{
    if n > 0 {
        lemma_collisions_name_each_body_once(a, pa, ra, positions, rigid_bodies, n - 1);
        let shorter = collisions_among(a, pa, ra, positions, rigid_bodies, n - 1);
        let longer = collisions_among(a, pa, ra, positions, rigid_bodies, n);
        if hits(a, pa, ra, positions, rigid_bodies, n - 1) {
            assert forall|k: int| 0 <= k < longer.len() implies {
                let other = (#[trigger] longer[k]).collided_with as int;
                &&& 0 <= other < n
                &&& other != a
                &&& slot(positions, other) is Some
                &&& slot(rigid_bodies, other) is Some
            } by {
                if k < shorter.len() {
                    assert(longer[k] == shorter[k]);
                }
            }
            assert forall|j: int, k: int| 0 <= j < k < longer.len() implies longer[j].collided_with
                < longer[k].collided_with by {
                assert(longer[j] == shorter[j]);
                if k < shorter.len() {
                    assert(longer[k] == shorter[k]);
                }
            }
        }
    }
}

/// No set deletion mark outlasts a tick: what was marked is swept, its mark
/// with it.
pub proof fn lemma_no_mark_outlasts_a_tick(
    before: GameState,
    after: GameState,
    time_passed: u128,
    e: int,
)
    requires
        ticked(before, after, time_passed),
    ensures
        !doomed(after.tables.marked_for_deletion, e),
{
    let (s1, s2, s3, s4, s5, s6, s7, s8, s9) = choose|
        s1: Tables,
        s2: Tables,
        s3: Tables,
        s4: Tables,
        s5: Tables,
        s6: Tables,
        s7: Tables,
        s8: Tables,
        s9: Tables,
    | #[trigger]
        tick_trace(before, s1, s2, s3, s4, s5, s6, s7, s8, s9, after, time_passed);
}

/// What the player collects in a tick is gone when the tick ends: an entity
/// that carries a deletion mark, and that one of the player's collisions of
/// this tick shows to be a pineapple, holds nothing afterwards. So it has no
/// body for the next tick to collide with, and gives its point once.
pub proof fn lemma_collected_entity_is_gone(
    before: GameState,
    s1: Tables,
    s2: Tables,
    s3: Tables,
    s4: Tables,
    s5: Tables,
    s6: Tables,
    s7: Tables,
    s8: Tables,
    s9: Tables,
    after: GameState,
    time_passed: u128,
    e: int,
)
    requires
        tick_trace(before, s1, s2, s3, s4, s5, s6, s7, s8, s9, after, time_passed),
        s7.collision_lists is Some,
        s7.entity_types is Some,
        s7.points is Some,
        player_entry(s7.collision_lists.unwrap(), before.player) is Some,
        player_entry(s7.points.unwrap(), before.player) is Some,
        picked(
            player_entry(s7.collision_lists.unwrap(), before.player).unwrap().list@,
            s7.entity_types.unwrap(),
            e,
            player_entry(s7.collision_lists.unwrap(), before.player).unwrap().list@.len() as int,
        ),
        entry(s7.marked_for_deletion, e) is Some,
    ensures
        after.tables.vacant(e),
{
    assert(doomed(s8.marked_for_deletion, e));
    assert(doomed(s9.marked_for_deletion, e));
}

/// A tick makes and drops no slot: where every table had one slot for each
/// entity before it, every table has one for each entity after it.
pub proof fn lemma_tick_keeps_tables_in_step(before: GameState, after: GameState, time_passed: u128)
    requires
        ticked(before, after, time_passed),
        before.wf(),
    ensures
        after.wf(),
{
    let (s1, s2, s3, s4, s5, s6, s7, s8, s9) = choose|
        s1: Tables,
        s2: Tables,
        s3: Tables,
        s4: Tables,
        s5: Tables,
        s6: Tables,
        s7: Tables,
        s8: Tables,
        s9: Tables,
    | #[trigger]
        tick_trace(before, s1, s2, s3, s4, s5, s6, s7, s8, s9, after, time_passed);
    lemma_systems_keep_sizes(
        before.tables,
        s1,
        s2,
        s3,
        s4,
        s5,
        s6,
        s7,
        s8,
        s9,
        before.player,
        before.keys,
        elapsed_millis(time_passed),
        before.entities,
    );
    if scene_requested(s8, before.player) is None {
        lemma_swept_sized(s9, after.tables, before.entities);
    }
}

/// A body moves only into the clear, and stops where it cannot: the place
/// that a moving entity takes in one part of a tick overlaps no other body as
/// the bodies stood when the part began, unless the entity stayed where it
/// was; and an entity that stayed where it was has lost its velocity.
pub proof fn lemma_moves_keep_clear(
    i: int,
    velocities: Seq<Option<Velocity>>,
    positions: Seq<Option<Position>>,
    rigid_bodies: Seq<Option<RigidBody>>,
    millis: int,
)
    requires
        moves(i, velocities, positions, rigid_bodies),
    ensures
        position_after_step(i, velocities, positions, rigid_bodies, millis) is Some,
        movement_allowed(i, velocities, positions, rigid_bodies, millis) != AcceptMovement::Neither
            ==> !collides(
            i,
            position_after_step(i, velocities, positions, rigid_bodies, millis).unwrap(),
            slot(rigid_bodies, i).unwrap(),
            positions,
            rigid_bodies,
        ),
        movement_allowed(i, velocities, positions, rigid_bodies, millis) == AcceptMovement::Neither
            ==> position_after_step(i, velocities, positions, rigid_bodies, millis) == slot(
            positions,
            i,
        ) && velocity_after_step(i, velocities, positions, rigid_bodies, millis) == Some(
            Velocity { vel_x: 0, vel_y: 0 },
        ),
{
}

} // verus!
