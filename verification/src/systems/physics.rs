use vstd::prelude::*;
use crate::components::{BlocksMovement, Position, RigidBody, Velocity, slot};
use crate::units::{distance, elapsed_millis, moved, offset, tick_millis, travelled};

verus! {

/// The number of equal parts a tick's movement is made in.
pub const STEPS: u8 = 4;

/// Which part of a wanted move is free of other bodies.
#[derive(Clone, Copy, Debug, PartialEq, Eq, Structural)]
pub enum AcceptMovement {
    OnX,
    OnY,
    Both,
    Neither,
}

/// Whether two boxes overlap. Boxes that only touch do not.
pub open spec fn overlaps(
    position_a: Position,
    rigid_body_a: RigidBody,
    position_b: Position,
    rigid_body_b: RigidBody,
) -> bool {
    &&& position_a.x < position_b.x + rigid_body_b.width
    &&& position_a.x + rigid_body_a.width > position_b.x
    &&& position_a.y < position_b.y + rigid_body_b.height
    &&& position_a.y + rigid_body_a.height > position_b.y
}

/// Whether entity `b` is a body other than `index_a` that a box at
/// `position_a` overlaps.
pub open spec fn hits(
    index_a: int,
    position_a: Position,
    rigid_body_a: RigidBody,
    all_positions: Seq<Option<Position>>,
    all_rigid_bodies: Seq<Option<RigidBody>>,
    b: int,
) -> bool {
    &&& 0 <= b < all_positions.len()
    &&& b < all_rigid_bodies.len()
    &&& b != index_a
    &&& all_positions[b] is Some
    &&& all_rigid_bodies[b] is Some
    &&& overlaps(position_a, rigid_body_a, all_positions[b].unwrap(), all_rigid_bodies[b].unwrap())
}

/// Whether a box at `position_a` overlaps the body of any entity but `index_a`.
pub open spec fn collides(
    index_a: int,
    position_a: Position,
    rigid_body_a: RigidBody,
    all_positions: Seq<Option<Position>>,
    all_rigid_bodies: Seq<Option<RigidBody>>,
) -> bool {
    exists|b: int| #[trigger]
        hits(index_a, position_a, rigid_body_a, all_positions, all_rigid_bodies, b)
}

/// A position after one part of a tick at velocity `v`, moved along x only.
pub open spec fn stepped_x(p: Position, v: Velocity, millis: int) -> Position {
    Position { x: moved(p.x as int, travelled(v.vel_x as int, millis, STEPS as int)) as i64, y: p.y }
}

/// A position after one part of a tick at velocity `v`, moved along y only.
pub open spec fn stepped_y(p: Position, v: Velocity, millis: int) -> Position {
    Position { x: p.x, y: moved(p.y as int, travelled(v.vel_y as int, millis, STEPS as int)) as i64 }
}

/// A position after one part of a tick at velocity `v`, moved along both axes.
pub open spec fn stepped_both(p: Position, v: Velocity, millis: int) -> Position {
    Position { x: stepped_x(p, v, millis).x, y: stepped_y(p, v, millis).y }
}

/// What a body may do: the whole move where that is free; else the move
/// along x where that is free; else the move along y where that is free; else
/// nothing.
pub open spec fn choice(accept_x: bool, accept_y: bool, accept_both: bool) -> AcceptMovement {
    if accept_both {
        AcceptMovement::Both
    } else if accept_x {
        AcceptMovement::OnX
    } else if accept_y {
        AcceptMovement::OnY
    } else {
        AcceptMovement::Neither
    }
}

/// What entity `i` may do in one part of a tick, if it is one that moves.
pub open spec fn movement_allowed(
    i: int,
    velocities: Seq<Option<Velocity>>,
    positions: Seq<Option<Position>>,
    rigid_bodies: Seq<Option<RigidBody>>,
    millis: int,
) -> AcceptMovement {
    match (slot(velocities, i), slot(positions, i), slot(rigid_bodies, i)) {
        (Some(v), Some(p), Some(r)) => choice(
            !collides(i, stepped_x(p, v, millis), r, positions, rigid_bodies),
            !collides(i, stepped_y(p, v, millis), r, positions, rigid_bodies),
            !collides(i, stepped_both(p, v, millis), r, positions, rigid_bodies),
        ),
        _ => AcceptMovement::Neither,
    }
}

/// A position after a move of which `allowed` was accepted.
pub open spec fn position_moved(p: Position, v: Velocity, allowed: AcceptMovement, millis: int) -> Position {
    match allowed {
        AcceptMovement::Both => stepped_both(p, v, millis),
        AcceptMovement::OnX => stepped_x(p, v, millis),
        AcceptMovement::OnY => stepped_y(p, v, millis),
        AcceptMovement::Neither => p,
    }
}

/// A velocity after a move of which `allowed` was accepted: zero along each
/// axis that could not move.
pub open spec fn velocity_moved(v: Velocity, allowed: AcceptMovement) -> Velocity {
    match allowed {
        AcceptMovement::Both => v,
        AcceptMovement::OnX => Velocity { vel_x: v.vel_x, vel_y: 0 },
        AcceptMovement::OnY => Velocity { vel_x: 0, vel_y: v.vel_y },
        AcceptMovement::Neither => Velocity { vel_x: 0, vel_y: 0 },
    }
}

/// Whether entity `i` is one that moves: it has a velocity, a position and a body.
pub open spec fn moves(
    i: int,
    velocities: Seq<Option<Velocity>>,
    positions: Seq<Option<Position>>,
    rigid_bodies: Seq<Option<RigidBody>>,
) -> bool {
    slot(velocities, i) is Some && slot(positions, i) is Some && slot(rigid_bodies, i) is Some
}

/// The position of entity `i` after one part of a tick. Only an entity with a
/// velocity, a position and a body moves.
pub open spec fn position_after_step(
    i: int,
    velocities: Seq<Option<Velocity>>,
    positions: Seq<Option<Position>>,
    rigid_bodies: Seq<Option<RigidBody>>,
    millis: int,
) -> Option<Position> {
    if moves(i, velocities, positions, rigid_bodies) {
        Some(
            position_moved(
                slot(positions, i).unwrap(),
                slot(velocities, i).unwrap(),
                movement_allowed(i, velocities, positions, rigid_bodies, millis),
                millis,
            ),
        )
    } else {
        slot(positions, i)
    }
}

/// The velocity of entity `i` after one part of a tick.
pub open spec fn velocity_after_step(
    i: int,
    velocities: Seq<Option<Velocity>>,
    positions: Seq<Option<Position>>,
    rigid_bodies: Seq<Option<RigidBody>>,
    millis: int,
) -> Option<Velocity> {
    if moves(i, velocities, positions, rigid_bodies) {
        Some(
            velocity_moved(
                slot(velocities, i).unwrap(),
                movement_allowed(i, velocities, positions, rigid_bodies, millis),
            ),
        )
    } else {
        slot(velocities, i)
    }
}

/// All positions after one part of a tick. Every entity decides by where the
/// bodies stood when the part began.
pub open spec fn positions_after_step(
    velocities: Seq<Option<Velocity>>,
    positions: Seq<Option<Position>>,
    rigid_bodies: Seq<Option<RigidBody>>,
    millis: int,
) -> Seq<Option<Position>> {
    Seq::new(
        positions.len(),
        |i: int| position_after_step(i, velocities, positions, rigid_bodies, millis),
    )
}

/// All velocities after one part of a tick.
pub open spec fn velocities_after_step(
    velocities: Seq<Option<Velocity>>,
    positions: Seq<Option<Position>>,
    rigid_bodies: Seq<Option<RigidBody>>,
    millis: int,
) -> Seq<Option<Velocity>> {
    Seq::new(
        velocities.len(),
        |i: int| velocity_after_step(i, velocities, positions, rigid_bodies, millis),
    )
}

/// Velocities and positions after `steps` parts of a tick of `millis` milliseconds.
pub open spec fn after_steps(
    velocities: Seq<Option<Velocity>>,
    positions: Seq<Option<Position>>,
    rigid_bodies: Seq<Option<RigidBody>>,
    millis: int,
    steps: nat,
) -> (Seq<Option<Velocity>>, Seq<Option<Position>>)
    decreases steps,
{
    if steps == 0 {
        (velocities, positions)
    } else {
        let before = after_steps(velocities, positions, rigid_bodies, millis, (steps - 1) as nat);
        (
            velocities_after_step(before.0, before.1, rigid_bodies, millis),
            positions_after_step(before.0, before.1, rigid_bodies, millis),
        )
    }
}

/// Tests two boxes for overlap. Boxes that only touch do not overlap.
pub fn aabb_overlap(
    position_a: &Position,
    rigid_body_a: &RigidBody,
    position_b: &Position,
    rigid_body_b: &RigidBody,
) -> (r: bool)
    ensures
        r == overlaps(*position_a, *rigid_body_a, *position_b, *rigid_body_b),
{
    let min_x_a: i128 = position_a.x as i128;
    let min_y_a: i128 = position_a.y as i128;
    let max_x_a: i128 = position_a.x as i128 + rigid_body_a.width as i128;
    let max_y_a: i128 = position_a.y as i128 + rigid_body_a.height as i128;
    let min_x_b: i128 = position_b.x as i128;
    let min_y_b: i128 = position_b.y as i128;
    let max_x_b: i128 = position_b.x as i128 + rigid_body_b.width as i128;
    let max_y_b: i128 = position_b.y as i128 + rigid_body_b.height as i128;
    min_x_a < max_x_b && max_x_a > min_x_b && min_y_a < max_y_b && max_y_a > min_y_b
}

/// Whether a box of entity `index_a`, put at `position_a`, overlaps the body
/// of another entity.
pub fn collides_with_another_rb(
    index_a: usize,
    position_a: &Position,
    rigid_body_a: &RigidBody,
    all_positions: &Vec<Option<Position>>,
    all_rigid_bodies: &Vec<Option<RigidBody>>,
) -> (r: bool)
    ensures
        r == collides(index_a as int, *position_a, *rigid_body_a, all_positions@, all_rigid_bodies@),
{
    let n: usize = if all_positions.len() < all_rigid_bodies.len() {
        all_positions.len()
    } else {
        all_rigid_bodies.len()
    };
    let mut b: usize = 0;
    while b < n
        invariant
            b <= n,
            n <= all_positions@.len(),
            n <= all_rigid_bodies@.len(),
            n == all_positions@.len() || n == all_rigid_bodies@.len(),
            forall|c: int|
                0 <= c < b ==> !#[trigger] hits(
                    index_a as int,
                    *position_a,
                    *rigid_body_a,
                    all_positions@,
                    all_rigid_bodies@,
                    c,
                ),
        decreases n - b,
    {
        if b != index_a {
            if let Some(position_b) = &all_positions[b] {
                if let Some(rigid_body_b) = &all_rigid_bodies[b] {
                    if aabb_overlap(position_a, rigid_body_a, position_b, rigid_body_b) {
                        assert(hits(
                            index_a as int,
                            *position_a,
                            *rigid_body_a,
                            all_positions@,
                            all_rigid_bodies@,
                            b as int,
                        ));
                        return true;
                    }
                }
            }
        }
        b += 1;
    }
    false
}

/// Decides what part of a move is made, from what is free.
pub fn choose_movement(accept_x: bool, accept_y: bool, accept_both: bool) -> (r: AcceptMovement)
    ensures
        r == choice(accept_x, accept_y, accept_both),
{
    if accept_both {
        AcceptMovement::Both
    } else if accept_x {
        AcceptMovement::OnX
    } else if accept_y {
        AcceptMovement::OnY
    } else {
        AcceptMovement::Neither
    }
}

fn decide(
    velocities: &Vec<Option<Velocity>>,
    positions: &Vec<Option<Position>>,
    rigid_bodies: &Vec<Option<RigidBody>>,
    millis: u32,
) -> (allowed: Vec<AcceptMovement>)
    ensures
        allowed@.len() == positions@.len(),
        forall|i: int|
            0 <= i < positions@.len() ==> #[trigger] allowed@[i] == movement_allowed(
                i,
                velocities@,
                positions@,
                rigid_bodies@,
                millis as int,
            ),
{
    let n: usize = positions.len();
    let mut allowed: Vec<AcceptMovement> = Vec::new();
    let mut i: usize = 0;
    while i < n
        invariant
            i <= n,
            n == positions@.len(),
            allowed@.len() == i,
            forall|j: int|
                0 <= j < i ==> #[trigger] allowed@[j] == movement_allowed(
                    j,
                    velocities@,
                    positions@,
                    rigid_bodies@,
                    millis as int,
                ),
        decreases n - i,
    {
        let mut accept = AcceptMovement::Neither;
        if i < velocities.len() && i < rigid_bodies.len() {
            if let Some(velocity) = velocities[i] {
                if let Some(position) = positions[i] {
                    if let Some(rigid_body) = rigid_bodies[i] {
                        let new_x: i64 = offset(position.x, distance(velocity.vel_x, millis, STEPS));
                        let new_y: i64 = offset(position.y, distance(velocity.vel_y, millis, STEPS));
                        let accept_x = !collides_with_another_rb(
                            i,
                            &Position { x: new_x, y: position.y },
                            &rigid_body,
                            positions,
                            rigid_bodies,
                        );
                        let accept_y = !collides_with_another_rb(
                            i,
                            &Position { x: position.x, y: new_y },
                            &rigid_body,
                            positions,
                            rigid_bodies,
                        );
                        let accept_both = !collides_with_another_rb(
                            i,
                            &Position { x: new_x, y: new_y },
                            &rigid_body,
                            positions,
                            rigid_bodies,
                        );
                        accept = choose_movement(accept_x, accept_y, accept_both);
                    }
                }
            }
        }
        allowed.push(accept);
        i += 1;
    }
    allowed
}

/// Moves every entity that has a velocity, a position and a body, in four
/// equal parts of the tick. In each part an entity keeps clear of every other body: it
/// makes the part of its move that is free, and loses its velocity along each
/// axis on which it could not move.
pub fn physics_system(
    velocity_component_vector: &mut Vec<Option<Velocity>>,
    position_component_vector: &mut Vec<Option<Position>>,
    rigid_body_component_vector: &mut Vec<Option<RigidBody>>,
    blocks_movement_component_vector: &mut Vec<Option<BlocksMovement>>,
    time_passed: u128,
)
    ensures
        final(rigid_body_component_vector)@ == old(rigid_body_component_vector)@,
        final(blocks_movement_component_vector)@ == old(blocks_movement_component_vector)@,
        (final(velocity_component_vector)@, final(position_component_vector)@) == after_steps(
            old(velocity_component_vector)@,
            old(position_component_vector)@,
            old(rigid_body_component_vector)@,
            elapsed_millis(time_passed),
            STEPS as nat,
        ),
{
    let millis: u32 = tick_millis(time_passed);
    let mut step: u8 = 0;
    while step < STEPS
        invariant
            step <= STEPS,
            millis as int == elapsed_millis(time_passed),
            rigid_body_component_vector@ == old(rigid_body_component_vector)@,
            blocks_movement_component_vector@ == old(blocks_movement_component_vector)@,
            (velocity_component_vector@, position_component_vector@) == after_steps(
                old(velocity_component_vector)@,
                old(position_component_vector)@,
                old(rigid_body_component_vector)@,
                millis as int,
                step as nat,
            ),
        decreases STEPS - step,
    {
        let movement_allowed_vector = decide(
            velocity_component_vector,
            position_component_vector,
            rigid_body_component_vector,
            millis,
        );
        let ghost velocities = velocity_component_vector@;
        let ghost positions = position_component_vector@;
        let ghost rigid_bodies = rigid_body_component_vector@;
        let n: usize = if velocity_component_vector.len() < position_component_vector.len() {
            velocity_component_vector.len()
        } else {
            position_component_vector.len()
        };
        let mut i: usize = 0;
        while i < n
            invariant
                i <= n,
                n <= velocities.len(),
                n <= positions.len(),
                n == velocities.len() || n == positions.len(),
                velocity_component_vector@.len() == velocities.len(),
                position_component_vector@.len() == positions.len(),
                movement_allowed_vector@.len() == positions.len(),
                rigid_body_component_vector@ == rigid_bodies,
                forall|j: int|
                    0 <= j < positions.len() ==> #[trigger] movement_allowed_vector@[j]
                        == movement_allowed(j, velocities, positions, rigid_bodies, millis as int),
                forall|j: int|
                    0 <= j < i ==> #[trigger] velocity_component_vector@[j] == velocity_after_step(
                        j,
                        velocities,
                        positions,
                        rigid_bodies,
                        millis as int,
                    ),
                forall|j: int|
                    0 <= j < i ==> #[trigger] position_component_vector@[j] == position_after_step(
                        j,
                        velocities,
                        positions,
                        rigid_bodies,
                        millis as int,
                    ),
                forall|j: int|
                    i <= j < velocities.len() ==> #[trigger] velocity_component_vector@[j]
                        == velocities[j],
                forall|j: int|
                    i <= j < positions.len() ==> #[trigger] position_component_vector@[j]
                        == positions[j],
            decreases n - i,
        {
            let has_body: bool = i < rigid_body_component_vector.len()
                && rigid_body_component_vector[i].is_some();
            if let Some(velocity) = velocity_component_vector[i] {
                if let (Some(position), true) = (position_component_vector[i], has_body) {
                    let dx: i128 = distance(velocity.vel_x, millis, STEPS);
                    let dy: i128 = distance(velocity.vel_y, millis, STEPS);
                    match movement_allowed_vector[i] {
                        AcceptMovement::Both => {
                            position_component_vector[i] = Some(
                                Position { x: offset(position.x, dx), y: offset(position.y, dy) },
                            );
                        },
                        AcceptMovement::OnX => {
                            position_component_vector[i] = Some(
                                Position { x: offset(position.x, dx), y: position.y },
                            );
                            velocity_component_vector[i] = Some(
                                Velocity { vel_x: velocity.vel_x, vel_y: 0 },
                            );
                        },
                        AcceptMovement::OnY => {
                            position_component_vector[i] = Some(
                                Position { x: position.x, y: offset(position.y, dy) },
                            );
                            velocity_component_vector[i] = Some(
                                Velocity { vel_x: 0, vel_y: velocity.vel_y },
                            );
                        },
                        AcceptMovement::Neither => {
                            velocity_component_vector[i] = Some(Velocity { vel_x: 0, vel_y: 0 });
                        },
                    }
                }
            }
            i += 1;
        }
        assert(velocity_component_vector@ =~= velocities_after_step(
            velocities,
            positions,
            rigid_bodies,
            millis as int,
        ));
        assert(position_component_vector@ =~= positions_after_step(
            velocities,
            positions,
            rigid_bodies,
            millis as int,
        ));
        step += 1;
    }
}

} // verus!
