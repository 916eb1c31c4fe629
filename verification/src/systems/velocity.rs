use vstd::prelude::*;
use crate::components::{Position, Velocity, slot};
use crate::units::{distance, elapsed_millis, moved, offset, tick_millis, travelled};

verus! {

/// A position after a whole tick at the entity's velocity, with nothing in the way.
pub open spec fn position_after_velocity(
    velocity: Option<Velocity>,
    position: Option<Position>,
    millis: int,
) -> Option<Position> {
    match (velocity, position) {
        (Some(v), Some(p)) => Some(
            Position {
                x: moved(p.x as int, travelled(v.vel_x as int, millis, 1)) as i64,
                y: moved(p.y as int, travelled(v.vel_y as int, millis, 1)) as i64,
            },
        ),
        _ => position,
    }
}

/// Moves every entity that has a velocity and a position by what it covers in
/// the tick, whatever stands in its way.
pub fn velocity_system(
    velocity_component_vector: &mut Vec<Option<Velocity>>,
    position_component_vector: &mut Vec<Option<Position>>,
    time_passed: u128,
)
    ensures
        final(velocity_component_vector)@ == old(velocity_component_vector)@,
        final(position_component_vector)@.len() == old(position_component_vector)@.len(),
        forall|i: int|
            0 <= i < old(position_component_vector)@.len() ==> #[trigger] final(position_component_vector)@[i] == position_after_velocity(
                slot(old(velocity_component_vector)@, i),
                old(position_component_vector)@[i],
                elapsed_millis(time_passed),
            ),
{
    let millis: u32 = tick_millis(time_passed);
    let n: usize = position_component_vector.len();
    let mut i: usize = 0;
    while i < n
        invariant
            i <= n,
            n == old(position_component_vector)@.len(),
            position_component_vector@.len() == n,
            velocity_component_vector@ == old(velocity_component_vector)@,
            millis as int == elapsed_millis(time_passed),
            forall|j: int|
                0 <= j < i ==> #[trigger] position_component_vector@[j] == position_after_velocity(
                    slot(old(velocity_component_vector)@, j),
                    old(position_component_vector)@[j],
                    millis as int,
                ),
            forall|j: int|
                i <= j < n ==> #[trigger] position_component_vector@[j] == old(position_component_vector)@[j],
        decreases n - i,
    {
        if i < velocity_component_vector.len() {
            if let Some(velocity) = velocity_component_vector[i] {
                if let Some(position) = position_component_vector[i] {
                    position_component_vector[i] = Some(
                        Position {
                            x: offset(position.x, distance(velocity.vel_x, millis, 1)),
                            y: offset(position.y, distance(velocity.vel_y, millis, 1)),
                        },
                    );
                }
            }
        }
        i += 1;
    }
}

} // verus!
