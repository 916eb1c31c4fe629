use vstd::prelude::*;
use crate::components::{CollisionList, Position, RigidBody};

verus! {

/// The pass that would push a body out of the bodies it has run into. It is
/// switched off: bodies are kept apart when they move, and this pass changes
/// nothing.
pub fn clipping_system(
    position_component_vector: &mut Vec<Option<Position>>,
    rigid_body_component_vector: &mut Vec<Option<RigidBody>>,
    collision_list_component_vector: &mut Vec<Option<CollisionList>>,
)
    ensures
        *final(position_component_vector) == *old(position_component_vector),
        *final(rigid_body_component_vector) == *old(rigid_body_component_vector),
        *final(collision_list_component_vector) == *old(collision_list_component_vector),
{
}

} // verus!
