use vstd::prelude::*;
use crate::components::{Velocity, slot};
use crate::input::{ElementState, KeyboardInput, VirtualKeyCode};

verus! {

/// A tenth of a unit per second.
pub const PLAYER_SPEED: i64 = 100_000;

/// The upward speed of a jump.
pub const PLAYER_VERTICAL_SPEED: i64 = 2_000_000;

/// The speed of a run to either side.
pub const PLAYER_HORIZONTAL_SPEED: i64 = 500_000;

/// The player's velocity after one key event. `W` pressed starts a jump, but
/// only while the player does not move vertically. `A` and `D` pressed start a
/// run to the left and to the right. `A` and `D` released stop a run in their
/// own direction. Every other event changes nothing.
pub open spec fn velocity_after_key(v: Velocity, key: KeyboardInput) -> Velocity {
    match (key.state, key.virtual_keycode) {
        (ElementState::Pressed, Some(VirtualKeyCode::W)) => if v.vel_y == 0 {
            Velocity { vel_x: v.vel_x, vel_y: (-PLAYER_VERTICAL_SPEED) as i64 }
        } else {
            v
        },
        (ElementState::Pressed, Some(VirtualKeyCode::A)) => Velocity {
            vel_x: (-PLAYER_HORIZONTAL_SPEED) as i64,
            vel_y: v.vel_y,
        },
        (ElementState::Pressed, Some(VirtualKeyCode::D)) => Velocity {
            vel_x: PLAYER_HORIZONTAL_SPEED,
            vel_y: v.vel_y,
        },
        (ElementState::Released, Some(VirtualKeyCode::A)) => if v.vel_x < 0 {
            Velocity { vel_x: 0, vel_y: v.vel_y }
        } else {
            v
        },
        (ElementState::Released, Some(VirtualKeyCode::D)) => if v.vel_x > 0 {
            Velocity { vel_x: 0, vel_y: v.vel_y }
        } else {
            v
        },
        _ => v,
    }
}

/// The player's velocity after the first `n` key events, taken in order.
pub open spec fn velocity_after_keys(v: Velocity, keys: Seq<KeyboardInput>, n: int) -> Velocity
    decreases n,
{
    if n <= 0 {
        v
    } else {
        velocity_after_key(velocity_after_keys(v, keys, n - 1), keys[n - 1])
    }
}

/// Applies one key event to the player's velocity.
pub fn apply_key(v: Velocity, key: KeyboardInput) -> (r: Velocity)
    ensures
        r == velocity_after_key(v, key),
{
    let mut velocity = v;
    match key.state {
        ElementState::Pressed => match key.virtual_keycode {
            Some(VirtualKeyCode::W) => {
                if velocity.vel_y == 0 {
                    velocity.vel_y = -PLAYER_VERTICAL_SPEED;
                }
            },
            Some(VirtualKeyCode::A) => {
                velocity.vel_x = -PLAYER_HORIZONTAL_SPEED;
            },
            Some(VirtualKeyCode::D) => {
                velocity.vel_x = PLAYER_HORIZONTAL_SPEED;
            },
            _ => {},
        },
        ElementState::Released => match key.virtual_keycode {
            Some(VirtualKeyCode::A) => {
                if velocity.vel_x < 0 {
                    velocity.vel_x = 0;
                }
            },
            Some(VirtualKeyCode::D) => {
                if velocity.vel_x > 0 {
                    velocity.vel_x = 0;
                }
            },
            _ => {},
        },
    }
    velocity
}

/// The velocity table after the player was steered by the tick's key events.
pub open spec fn steered(
    before: Seq<Option<Velocity>>,
    player_index: usize,
    keys: Seq<KeyboardInput>,
) -> Seq<Option<Velocity>> {
    match slot(before, player_index as int) {
        Some(v) => before.update(
            player_index as int,
            Some(velocity_after_keys(v, keys, keys.len() as int)),
        ),
        None => before,
    }
}

/// Turns the tick's key events into the player's velocity. Without a velocity
/// for the player nothing happens.
pub fn player_movement_system(
    velocity_component_vector: &mut Vec<Option<Velocity>>,
    player_index: usize,
    keyboard_inputs_frame: &Vec<KeyboardInput>,
)
    ensures
        final(velocity_component_vector)@ == steered(
            old(velocity_component_vector)@,
            player_index,
            keyboard_inputs_frame@,
        ),
{
    if player_index < velocity_component_vector.len() {
        if let Some(start) = velocity_component_vector[player_index] {
            let mut velocity = start;
            let mut k: usize = 0;
            while k < keyboard_inputs_frame.len()
                invariant
                    k <= keyboard_inputs_frame@.len(),
                    velocity == velocity_after_keys(start, keyboard_inputs_frame@, k as int),
                decreases keyboard_inputs_frame@.len() - k,
            {
                velocity = apply_key(velocity, keyboard_inputs_frame[k]);
                k += 1;
            }
            velocity_component_vector[player_index] = Some(velocity);
        }
    }
}

} // verus!
