use vstd::prelude::*;
use crate::components::Health;

verus! {

/// Health after one tick: one less, and never below zero.
pub open spec fn health_after_tick(entry: Option<Health>) -> Option<Health> {
    match entry {
        Some(h) => Some(Health { health: if h.health > 0 { (h.health - 1) as u32 } else { 0 } }),
        None => None,
    }
}

/// Whether `after` is the health table `before` one tick later.
pub open spec fn health_decayed(before: Seq<Option<Health>>, after: Seq<Option<Health>>) -> bool {
    &&& after.len() == before.len()
    &&& forall|i: int| 0 <= i < before.len() ==> #[trigger] after[i] == health_after_tick(before[i])
}

/// Takes one off every health above zero, however long the tick was.
pub fn health_system(health_component_vector: &mut Vec<Option<Health>>)
    ensures
        health_decayed(old(health_component_vector)@, final(health_component_vector)@),
{
    let n: usize = health_component_vector.len();
    let mut i: usize = 0;
    while i < n
        invariant
            i <= n,
            n == old(health_component_vector)@.len(),
            health_component_vector@.len() == n,
            forall|j: int|
                0 <= j < i ==> #[trigger] health_component_vector@[j] == health_after_tick(
                    old(health_component_vector)@[j],
                ),
            forall|j: int|
                i <= j < n ==> #[trigger] health_component_vector@[j] == old(health_component_vector)@[j],
        decreases n - i,
    {
        match &mut health_component_vector[i] {
            Some(health) => {
                if health.health > 0 {
                    health.health -= 1;
                }
            },
            None => {},
        }
        i += 1;
    }
}

} // verus!
