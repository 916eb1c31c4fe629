use vstd::prelude::*;
use crate::components::{Points, slot};
use crate::units::{elapsed_millis, tick_millis};

verus! {

/// The milliseconds after which one point is lost.
pub const POINT_LIFETIME_MS: u32 = 1000;

/// The player's score after `millis` more milliseconds. A score of zero stays
/// as it is. Otherwise the time is added to the time waited so far (which
/// stops at `u32::MAX`), and a full second of it is traded for one point.
pub open spec fn points_after(p: Points, millis: int) -> Points {
    if p.points == 0 {
        p
    } else {
        let waited = if p.time_since_last_point_change_ms + millis > u32::MAX as int {
            u32::MAX as int
        } else {
            p.time_since_last_point_change_ms + millis
        };
        if waited >= 1000 {
            Points {
                points: (p.points - 1) as u32,
                time_since_last_point_change_ms: (waited - 1000) as u32,
            }
        } else {
            Points { points: p.points, time_since_last_point_change_ms: waited as u32 }
        }
    }
}

/// The player's entry in a table, if there is a player and it has one.
pub open spec fn player_entry<T>(table: Seq<Option<T>>, player_index: Option<usize>) -> Option<T> {
    match player_index {
        Some(i) => slot(table, i as int),
        None => None,
    }
}

/// Whether the player's score has run out.
pub open spec fn out_of_points(points: Seq<Option<Points>>, player_index: Option<usize>) -> bool {
    match player_entry(points, player_index) {
        Some(p) => p.points == 0,
        None => false,
    }
}

/// The score table after `millis` more milliseconds: only the player's score
/// runs down.
pub open spec fn points_ticked(
    before: Seq<Option<Points>>,
    player_index: Option<usize>,
    millis: int,
) -> Seq<Option<Points>> {
    match player_entry(before, player_index) {
        Some(p) => before.update(player_index.unwrap() as int, Some(points_after(p, millis))),
        None => before,
    }
}

/// Lets the player's score run down with time. Returns whether the score had
/// already reached zero, which ends the game.
pub fn points_ticking_down(
    points_component_vector: &mut Vec<Option<Points>>,
    time_passed: u128,
    player_index: Option<usize>,
) -> (game_over: bool)
    ensures
        game_over == out_of_points(old(points_component_vector)@, player_index),
        final(points_component_vector)@ == points_ticked(
            old(points_component_vector)@,
            player_index,
            elapsed_millis(time_passed),
        ),
{
    let millis: u32 = tick_millis(time_passed);
    if let Some(index) = player_index {
        if index < points_component_vector.len() {
            if let Some(p) = points_component_vector[index] {
                if p.points == 0 {
                    assert(points_component_vector@ =~= old(points_component_vector)@.update(
                        index as int,
                        Some(p),
                    ));
                    return true;
                }
                let waited: u32 = p.time_since_last_point_change_ms.saturating_add(millis);
                let next = if waited >= POINT_LIFETIME_MS {
                    Points {
                        points: p.points - 1,
                        time_since_last_point_change_ms: waited - POINT_LIFETIME_MS,
                    }
                } else {
                    Points { points: p.points, time_since_last_point_change_ms: waited }
                };
                points_component_vector[index] = Some(next);
            }
        }
    }
    false
}

} // verus!
