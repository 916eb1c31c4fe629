use vstd::prelude::*;
use crate::components::{Collision, CollisionList, EntityType, MarkedForDeletion, Points};
use crate::systems::flag_reached::{is_kind, touches};
use crate::systems::points_ticking_down::player_entry;

verus! {

/// How many of the first `n` recorded collisions are with a pineapple.
pub open spec fn pickups(list: Seq<Collision>, entity_types: Seq<Option<EntityType>>, n: int) -> int
    decreases n,
{
    if n <= 0 {
        0
    } else if touches(list, entity_types, EntityType::Pineapple, n - 1) {
        pickups(list, entity_types, n - 1) + 1
    } else {
        pickups(list, entity_types, n - 1)
    }
}

/// Whether collision `k` is with the pineapple `entity`.
pub open spec fn picks(
    list: Seq<Collision>,
    entity_types: Seq<Option<EntityType>>,
    entity: int,
    k: int,
) -> bool {
    touches(list, entity_types, EntityType::Pineapple, k) && list[k].collided_with == entity
}

/// Whether one of the first `n` recorded collisions is with the pineapple `entity`.
pub open spec fn picked(
    list: Seq<Collision>,
    entity_types: Seq<Option<EntityType>>,
    entity: int,
    n: int,
) -> bool {
    exists|k: int| k < n && #[trigger] picks(list, entity_types, entity, k)
}

/// A score raised by `count`, held at `u32::MAX`.
pub open spec fn raised(p: Points, count: int) -> Points {
    Points {
        points: if p.points + count > u32::MAX as int {
            u32::MAX
        } else {
            (p.points + count) as u32
        },
        time_since_last_point_change_ms: p.time_since_last_point_change_ms,
    }
}

/// The deletion mark of `entity` after the pickups: set where the entity has a
/// mark and was picked, else as before.
pub open spec fn mark_after(
    before: Option<MarkedForDeletion>,
    list: Seq<Collision>,
    entity_types: Seq<Option<EntityType>>,
    entity: int,
    n: int,
) -> Option<MarkedForDeletion> {
    if before is Some && picked(list, entity_types, entity, n) {
        Some(MarkedForDeletion { marked: true })
    } else {
        before
    }
}

/// Whether the scores and the deletion marks `after` are those `before` once
/// the player has collected what it touches.
pub open spec fn collected(
    collision_lists: Seq<Option<CollisionList>>,
    entity_types: Seq<Option<EntityType>>,
    marks_before: Seq<Option<MarkedForDeletion>>,
    marks_after: Seq<Option<MarkedForDeletion>>,
    points_before: Seq<Option<Points>>,
    points_after: Seq<Option<Points>>,
    player_index: Option<usize>,
) -> bool {
    match (player_entry(collision_lists, player_index), player_entry(points_before, player_index)) {
        (Some(collisions), Some(p)) => {
            &&& points_after == points_before.update(
                player_index.unwrap() as int,
                Some(raised(p, pickups(collisions.list@, entity_types, collisions.list@.len() as int))),
            )
            &&& marks_after.len() == marks_before.len()
            &&& forall|e: int|
                0 <= e < marks_before.len() ==> #[trigger] marks_after[e] == mark_after(
                    marks_before[e],
                    collisions.list@,
                    entity_types,
                    e,
                    collisions.list@.len() as int,
                )
        },
        _ => points_after == points_before && marks_after == marks_before,
    }
}

/// Gives the player one point for every collision with a pineapple, and marks
/// each such pineapple for deletion. Without a player, a collision list for it
/// or a score for it nothing happens.
pub fn player_pineapple_system(
    collision_list_component_vector: &Vec<Option<CollisionList>>,
    marked_for_deletion_component_vector: &mut Vec<Option<MarkedForDeletion>>,
    entity_type_component_vector: &Vec<Option<EntityType>>,
    points_component_vector: &mut Vec<Option<Points>>,
    player_index: Option<usize>,
)
    ensures
        collected(
            collision_list_component_vector@,
            entity_type_component_vector@,
            old(marked_for_deletion_component_vector)@,
            final(marked_for_deletion_component_vector)@,
            old(points_component_vector)@,
            final(points_component_vector)@,
            player_index,
        ),
{
    if let Some(player) = player_index {
        if player < collision_list_component_vector.len() && player < points_component_vector.len() {
            if let Some(collision_list) = &collision_list_component_vector[player] {
                if let Some(start) = points_component_vector[player] {
                    let mut points: u32 = start.points;
                    let ghost marks = marked_for_deletion_component_vector@;
                    let ghost list = collision_list.list@;
                    let ghost kinds = entity_type_component_vector@;
                    let mut k: usize = 0;
                    while k < collision_list.list.len()
                        invariant
                            k <= list.len(),
                            list == collision_list.list@,
                            kinds == entity_type_component_vector@,
                            points == raised(start, pickups(list, kinds, k as int)).points,
                            pickups(list, kinds, k as int) >= 0,
                            marked_for_deletion_component_vector@.len() == marks.len(),
                            forall|e: int|
                                0 <= e < marks.len()
                                    ==> #[trigger] marked_for_deletion_component_vector@[e]
                                    == mark_after(marks[e], list, kinds, e, k as int),
                        decreases list.len() - k,
                    {
                        let other: usize = collision_list.list[k].collided_with;
                        let ghost previous = marked_for_deletion_component_vector@;
                        if is_kind(entity_type_component_vector, other, EntityType::Pineapple) {
                            points = points.saturating_add(1);
                            if other < marked_for_deletion_component_vector.len() {
                                match &mut marked_for_deletion_component_vector[other] {
                                    Some(marked_for_deletion) => {
                                        marked_for_deletion.marked = true;
                                    },
                                    None => {},
                                }
                            }
                            assert(picks(list, kinds, other as int, k as int));
                        }
                        assert forall|e: int| 0 <= e < marks.len() implies (
                        #[trigger] marked_for_deletion_component_vector@[e]) == mark_after(
                            marks[e],
                            list,
                            kinds,
                            e,
                            k + 1,
                        ) by {
                            if picked(list, kinds, e, k + 1) {
                                let w = choose|w: int| w < k + 1 && #[trigger] picks(list, kinds, e, w);
                                if w < k {
                                    assert(picked(list, kinds, e, k as int));
                                }
                            }
                            if picked(list, kinds, e, k as int) {
                                let w = choose|w: int| w < k && #[trigger] picks(list, kinds, e, w);
                                assert(w < k + 1 && picks(list, kinds, e, w));
                            }
                        }
                        k += 1;
                    }
                    points_component_vector[player] = Some(
                        Points {
                            points,
                            time_since_last_point_change_ms: start.time_since_last_point_change_ms,
                        },
                    );
                    return ;
                }
            }
        }
    }
}

} // verus!
