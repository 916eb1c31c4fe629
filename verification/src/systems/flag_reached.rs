use vstd::prelude::*;
use crate::components::{CollisionList, EntityType, slot};
use crate::systems::points_ticking_down::player_entry;

verus! {

/// Whether one of the recorded collisions is with an entity of type `kind`.
pub open spec fn touches(
    list: Seq<crate::components::Collision>,
    entity_types: Seq<Option<EntityType>>,
    kind: EntityType,
    k: int,
) -> bool {
    0 <= k < list.len() && slot(entity_types, list[k].collided_with as int) == Some(kind)
}

/// Whether the player's collisions of this tick include the goal.
pub open spec fn goal_reached(
    collision_lists: Seq<Option<CollisionList>>,
    entity_types: Seq<Option<EntityType>>,
    player_index: Option<usize>,
) -> bool {
    player_entry(collision_lists, player_index) is Some && exists|k: int| #[trigger]
        touches(
            player_entry(collision_lists, player_index).unwrap().list@,
            entity_types,
            EntityType::EndFlag,
            k,
        )
}

/// Whether `entity` has the type `kind`.
pub fn is_kind(entity_type_component_vector: &Vec<Option<EntityType>>, entity: usize, kind: EntityType) -> (r: bool)
    ensures
        r == (slot(entity_type_component_vector@, entity as int) == Some(kind)),
{
    if entity < entity_type_component_vector.len() {
        match entity_type_component_vector[entity] {
            Some(found) => found == kind,
            None => false,
        }
    } else {
        false
    }
}

/// Reports whether the player touches the goal. Without a player, or without a
/// collision list for it, the answer is no.
pub fn flag_reached_system(
    collision_list_component_vector: &Vec<Option<CollisionList>>,
    entity_type_component_vector: &Vec<Option<EntityType>>,
    player_index: Option<usize>,
) -> (reached: bool)
    ensures
        reached == goal_reached(
            collision_list_component_vector@,
            entity_type_component_vector@,
            player_index,
        ),
{
    if let Some(player) = player_index {
        if player < collision_list_component_vector.len() {
            if let Some(collision_list) = &collision_list_component_vector[player] {
                let mut k: usize = 0;
                while k < collision_list.list.len()
                    invariant
                        k <= collision_list.list@.len(),
                        player_index == Some(player),
                        player < collision_list_component_vector@.len(),
                        collision_list_component_vector@[player as int] == Some(*collision_list),
                        forall|j: int|
                            0 <= j < k ==> !#[trigger] touches(
                                collision_list.list@,
                                entity_type_component_vector@,
                                EntityType::EndFlag,
                                j,
                            ),
                    decreases collision_list.list@.len() - k,
                {
                    if is_kind(
                        entity_type_component_vector,
                        collision_list.list[k].collided_with,
                        EntityType::EndFlag,
                    ) {
                        assert(touches(
                            player_entry(collision_list_component_vector@, player_index).unwrap().list@,
                            entity_type_component_vector@,
                            EntityType::EndFlag,
                            k as int,
                        ));
                        return true;
                    }
                    k += 1;
                }
            }
        }
    }
    false
}

} // verus!
