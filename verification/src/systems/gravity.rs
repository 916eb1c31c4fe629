use vstd::prelude::*;
use crate::components::{Gravity, Velocity, slot};
use crate::units::{elapsed_millis, tick_millis};

verus! {

/// The fastest an entity falls: one unit per second.
pub const MAX_DOWNWARD_VELOCITY: i64 = 1_000_000;

/// What each millisecond of falling adds to the downward velocity.
pub const VELOCITY_GAIN_PER_MS: i64 = 5_000;

/// The downward velocity after falling for `millis` milliseconds.
pub open spec fn fallen(vel_y: int, millis: int) -> int {
    if vel_y + VELOCITY_GAIN_PER_MS * millis > MAX_DOWNWARD_VELOCITY {
        MAX_DOWNWARD_VELOCITY as int
    } else {
        vel_y + VELOCITY_GAIN_PER_MS * millis
    }
}

/// An entity's velocity after a tick of gravity: changed only where the entity
/// has a `Gravity` that is switched on.
pub open spec fn velocity_after_gravity(
    gravity: Option<Gravity>,
    velocity: Option<Velocity>,
    millis: int,
) -> Option<Velocity> {
    match (gravity, velocity) {
        (Some(g), Some(v)) => if g.affected_by_gravity {
            Some(Velocity { vel_x: v.vel_x, vel_y: fallen(v.vel_y as int, millis) as i64 })
        } else {
            Some(v)
        },
        _ => velocity,
    }
}

/// Falling from rest gives the gain times the time, up to the maximum; falling
/// in two parts gives what falling for the whole time gives; and at the
/// maximum more time adds nothing.
pub proof fn lemma_fall_accumulates(first: nat, second: nat)
    ensures
        fallen(0, first as int) == if VELOCITY_GAIN_PER_MS * first > MAX_DOWNWARD_VELOCITY {
            MAX_DOWNWARD_VELOCITY as int
        } else {
            VELOCITY_GAIN_PER_MS * first
        },
        fallen(fallen(0, first as int), second as int) == fallen(0, (first + second) as int),
        fallen(MAX_DOWNWARD_VELOCITY as int, second as int) == MAX_DOWNWARD_VELOCITY,
{
}

/// Whether `after` is the velocity table `before` after `millis`
/// milliseconds of gravity.
pub open spec fn gravity_applied(
    gravities: Seq<Option<Gravity>>,
    before: Seq<Option<Velocity>>,
    after: Seq<Option<Velocity>>,
    millis: int,
) -> bool {
    &&& after.len() == before.len()
    &&& forall|i: int|
        0 <= i < before.len() ==> #[trigger] after[i] == velocity_after_gravity(
            slot(gravities, i),
            before[i],
            millis,
        )
}

/// Lets every entity with gravity switched on fall faster, up to the maximum.
pub fn gravity_system(
    gravity_component_vector: &mut Vec<Option<Gravity>>,
    velocity_component_vector: &mut Vec<Option<Velocity>>,
    time_passed: u128,
)
    ensures
        final(gravity_component_vector)@ == old(gravity_component_vector)@,
        gravity_applied(
            old(gravity_component_vector)@,
            old(velocity_component_vector)@,
            final(velocity_component_vector)@,
            elapsed_millis(time_passed),
        ),
{
    let millis: u32 = tick_millis(time_passed);
    let n: usize = velocity_component_vector.len();
    let mut i: usize = 0;
    while i < n
        invariant
            i <= n,
            n == old(velocity_component_vector)@.len(),
            velocity_component_vector@.len() == n,
            gravity_component_vector@ == old(gravity_component_vector)@,
            millis as int == elapsed_millis(time_passed),
            forall|j: int|
                0 <= j < i ==> #[trigger] velocity_component_vector@[j] == velocity_after_gravity(
                    slot(old(gravity_component_vector)@, j),
                    old(velocity_component_vector)@[j],
                    millis as int,
                ),
            forall|j: int|
                i <= j < n ==> #[trigger] velocity_component_vector@[j] == old(velocity_component_vector)@[j],
        decreases n - i,
    {
        if i < gravity_component_vector.len() {
            if let Some(gravity) = gravity_component_vector[i] {
                if gravity.affected_by_gravity {
                    match &mut velocity_component_vector[i] {
                        Some(velocity) => {
                            let gained: i128 = velocity.vel_y as i128 + (VELOCITY_GAIN_PER_MS as i128) * (
                            millis as i128);
                            if gained > MAX_DOWNWARD_VELOCITY as i128 {
                                velocity.vel_y = MAX_DOWNWARD_VELOCITY;
                            } else {
                                velocity.vel_y = gained as i64;
                            }
                        },
                        None => {},
                    }
                }
            }
        }
        i += 1;
    }
}

} // verus!
