use vstd::prelude::*;
use crate::components::{Collision, CollisionList, CollisionSide, Position, RigidBody, slot};
use crate::systems::physics::{aabb_overlap, hits};
use crate::units::clamp_i64;

verus! {

/// The smaller of two integers.
pub open spec fn least(a: int, b: int) -> int {
    if a < b {
        a
    } else {
        b
    }
}

/// The larger of two integers.
pub open spec fn most(a: int, b: int) -> int {
    if a > b {
        a
    } else {
        b
    }
}

/// How far two boxes reach into each other along x: from the larger of their
/// left edges to the smaller of their right edges.
pub open spec fn overlap_x(pa: Position, ra: RigidBody, pb: Position, rb: RigidBody) -> int {
    clamp_i64(least(pa.x + ra.width, pb.x + rb.width) - most(pa.x as int, pb.x as int))
}

/// How far two boxes reach into each other along y.
pub open spec fn overlap_y(pa: Position, ra: RigidBody, pb: Position, rb: RigidBody) -> int {
    clamp_i64(least(pa.y + ra.height, pb.y + rb.height) - most(pa.y as int, pb.y as int))
}

/// The side of box a on which box b lies. The axis is the one along which the
/// boxes reach less far into each other, x where they reach equally far; on
/// that axis b is on the left (or on top) where it begins before a.
pub open spec fn side_of(pa: Position, ra: RigidBody, pb: Position, rb: RigidBody) -> CollisionSide {
    if overlap_x(pa, ra, pb, rb) <= overlap_y(pa, ra, pb, rb) {
        if pb.x < pa.x {
            CollisionSide::LEFT
        } else {
            CollisionSide::RIGHT
        }
    } else {
        if pb.y < pa.y {
            CollisionSide::TOP
        } else {
            CollisionSide::BOTTOM
        }
    }
}

/// The record of box a overlapping the box of entity `other`.
pub open spec fn record_of(
    other: int,
    pa: Position,
    ra: RigidBody,
    pb: Position,
    rb: RigidBody,
) -> Collision {
    Collision {
        collided_with: other as usize,
        side: side_of(pa, ra, pb, rb),
        x_diff: overlap_x(pa, ra, pb, rb) as i64,
        y_diff: overlap_y(pa, ra, pb, rb) as i64,
    }
}

/// The records of entity `a` against the first `n` entities, in the order of
/// their ids: one for every other entity whose body overlaps the body of `a`.
pub open spec fn collisions_among(
    a: int,
    pa: Position,
    ra: RigidBody,
    positions: Seq<Option<Position>>,
    rigid_bodies: Seq<Option<RigidBody>>,
    n: int,
) -> Seq<Collision>
    decreases n,
{
    if n <= 0 {
        Seq::empty()
    } else if hits(a, pa, ra, positions, rigid_bodies, n - 1) {
        collisions_among(a, pa, ra, positions, rigid_bodies, n - 1).push(
            record_of(n - 1, pa, ra, positions[n - 1].unwrap(), rigid_bodies[n - 1].unwrap()),
        )
    } else {
        collisions_among(a, pa, ra, positions, rigid_bodies, n - 1)
    }
}

/// What entity `a` collides with: nothing unless it has a position and a
/// body, else every other body that overlaps its own.
pub open spec fn collisions_of(
    a: int,
    positions: Seq<Option<Position>>,
    rigid_bodies: Seq<Option<RigidBody>>,
) -> Seq<Collision> {
    match (slot(positions, a), slot(rigid_bodies, a)) {
        (Some(pa), Some(ra)) => collisions_among(
            a,
            pa,
            ra,
            positions,
            rigid_bodies,
            least(positions.len() as int, rigid_bodies.len() as int),
        ),
        _ => Seq::empty(),
    }
}

/// Whether `after` is the collision list of entity `a` for this tick: no list
/// where the entity had none, else exactly what the entity collides with now.
pub open spec fn refreshed(
    a: int,
    before: Option<CollisionList>,
    after: Option<CollisionList>,
    positions: Seq<Option<Position>>,
    rigid_bodies: Seq<Option<RigidBody>>,
) -> bool {
    match before {
        Some(_) => after is Some && after.unwrap().list@ == collisions_of(a, positions, rigid_bodies),
        None => after is None,
    }
}

/// Whether `after` holds the collision lists of this tick.
pub open spec fn collisions_refreshed(
    before: Seq<Option<CollisionList>>,
    after: Seq<Option<CollisionList>>,
    positions: Seq<Option<Position>>,
    rigid_bodies: Seq<Option<RigidBody>>,
) -> bool {
    &&& after.len() == before.len()
    &&& forall|a: int|
        0 <= a < before.len() ==> refreshed(a, before[a], #[trigger] after[a], positions, rigid_bodies)
}

/// Makes the record of box a overlapping the box of entity `other`.
pub fn collision_record(
    other: usize,
    position_a: &Position,
    rigid_body_a: &RigidBody,
    position_b: &Position,
    rigid_body_b: &RigidBody,
) -> (r: Collision)
    ensures
        r == record_of(other as int, *position_a, *rigid_body_a, *position_b, *rigid_body_b),
{
    let max_x_a: i128 = position_a.x as i128 + rigid_body_a.width as i128;
    let max_y_a: i128 = position_a.y as i128 + rigid_body_a.height as i128;
    let max_x_b: i128 = position_b.x as i128 + rigid_body_b.width as i128;
    let max_y_b: i128 = position_b.y as i128 + rigid_body_b.height as i128;
    let right: i128 = if max_x_a < max_x_b { max_x_a } else { max_x_b };
    let left: i128 = if position_a.x > position_b.x { position_a.x as i128 } else { position_b.x as i128 };
    let bottom: i128 = if max_y_a < max_y_b { max_y_a } else { max_y_b };
    let top: i128 = if position_a.y > position_b.y { position_a.y as i128 } else { position_b.y as i128 };
    let x_diff: i64 = saturate(right - left);
    let y_diff: i64 = saturate(bottom - top);
    let side = if x_diff <= y_diff {
        if position_b.x < position_a.x {
            CollisionSide::LEFT
        } else {
            CollisionSide::RIGHT
        }
    } else {
        if position_b.y < position_a.y {
            CollisionSide::TOP
        } else {
            CollisionSide::BOTTOM
        }
    };
    Collision { collided_with: other, side, x_diff, y_diff }
}

fn saturate(v: i128) -> (r: i64)
    ensures
        r as int == clamp_i64(v as int),
{
    if v < i64::MIN as i128 {
        i64::MIN
    } else if v > i64::MAX as i128 {
        i64::MAX
    } else {
        v as i64
    }
}

fn collect_collisions(
    a: usize,
    position_a: &Position,
    rigid_body_a: &RigidBody,
    positions: &Vec<Option<Position>>,
    rigid_bodies: &Vec<Option<RigidBody>>,
) -> (list: Vec<Collision>)
    ensures
        list@ == collisions_among(
            a as int,
            *position_a,
            *rigid_body_a,
            positions@,
            rigid_bodies@,
            least(positions@.len() as int, rigid_bodies@.len() as int),
        ),
{
    let n: usize = if positions.len() < rigid_bodies.len() {
        positions.len()
    } else {
        rigid_bodies.len()
    };
    let mut list: Vec<Collision> = Vec::new();
    let mut b: usize = 0;
    while b < n
        invariant
            b <= n,
            n as int == least(positions@.len() as int, rigid_bodies@.len() as int),
            list@ == collisions_among(
                a as int,
                *position_a,
                *rigid_body_a,
                positions@,
                rigid_bodies@,
                b as int,
            ),
        decreases n - b,
    {
        if b != a {
            if let Some(position_b) = &positions[b] {
                if let Some(rigid_body_b) = &rigid_bodies[b] {
                    if aabb_overlap(position_a, rigid_body_a, position_b, rigid_body_b) {
                        list.push(
                            collision_record(b, position_a, rigid_body_a, position_b, rigid_body_b),
                        );
                    }
                }
            }
        }
        b += 1;
    }
    list
}

/// Renews every collision list: each one is emptied, and the list of an entity
/// with a position and a body is filled with one record for every other body
/// that overlaps it. Entities without a list are tested against, but get none.
pub fn collision_system(
    position_component_vector: &mut Vec<Option<Position>>,
    rigid_body_component_vector: &mut Vec<Option<RigidBody>>,
    collision_list_component_vector: &mut Vec<Option<CollisionList>>,
    time_passed: u128,
)
    ensures
        final(position_component_vector)@ == old(position_component_vector)@,
        final(rigid_body_component_vector)@ == old(rigid_body_component_vector)@,
        collisions_refreshed(
            old(collision_list_component_vector)@,
            final(collision_list_component_vector)@,
            old(position_component_vector)@,
            old(rigid_body_component_vector)@,
        ),
{
    let n: usize = collision_list_component_vector.len();
    let mut a: usize = 0;
    while a < n
        invariant
            a <= n,
            n == old(collision_list_component_vector)@.len(),
            collision_list_component_vector@.len() == n,
            position_component_vector@ == old(position_component_vector)@,
            rigid_body_component_vector@ == old(rigid_body_component_vector)@,
            forall|j: int|
                0 <= j < a ==> refreshed(
                    j,
                    old(collision_list_component_vector)@[j],
                    #[trigger] collision_list_component_vector@[j],
                    position_component_vector@,
                    rigid_body_component_vector@,
                ),
            forall|j: int|
                a <= j < n ==> #[trigger] collision_list_component_vector@[j] == old(collision_list_component_vector)@[j],
        decreases n - a,
    {
        match &mut collision_list_component_vector[a] {
            Some(collision_list) => {
                let mut found: Vec<Collision> = Vec::new();
                if a < position_component_vector.len() && a < rigid_body_component_vector.len() {
                    if let Some(position_a) = &position_component_vector[a] {
                        if let Some(rigid_body_a) = &rigid_body_component_vector[a] {
                            found = collect_collisions(
                                a,
                                position_a,
                                rigid_body_a,
                                position_component_vector,
                                rigid_body_component_vector,
                            );
                        }
                    }
                }
                collision_list.list = found;
            },
            None => {},
        }
        a += 1;
    }
}

} // verus!
