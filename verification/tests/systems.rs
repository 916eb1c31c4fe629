use platformer::components::{
    Animation, AnimationMap, BlocksMovement, Collision, CollisionList, CollisionSide, EntityType,
    Gravity, Health, MarkedForDeletion, Points, Position, RigidBody, Sprite, Velocity,
};
use platformer::input::{ElementState, KeyboardInput, VirtualKeyCode};
use platformer::systems::animation::{advance, animation_system, find_clip};
use platformer::systems::clipping::clipping_system;
use platformer::systems::collision::{collision_record, collision_system};
use platformer::systems::flag_reached::{flag_reached_system, is_kind};
use platformer::systems::gravity::{gravity_system, MAX_DOWNWARD_VELOCITY, VELOCITY_GAIN_PER_MS};
use platformer::systems::health::health_system;
use platformer::systems::physics::{
    aabb_overlap, choose_movement, collides_with_another_rb, physics_system, AcceptMovement,
};
use platformer::systems::player_animation::{
    disable_current_animation, enable_animation, player_animation_system,
};
use platformer::systems::player_movement::{
    apply_key, player_movement_system, PLAYER_HORIZONTAL_SPEED, PLAYER_SPEED,
    PLAYER_VERTICAL_SPEED,
};
use platformer::systems::player_pineapple::player_pineapple_system;
use platformer::systems::points_ticking_down::points_ticking_down;
use platformer::systems::velocity::velocity_system;
use platformer::units::{distance, offset, tick_millis, UNIT};

fn sprite(texture_id: usize, z: u32) -> Sprite {
    Sprite { texture_id, render: true, width_normalized: 50_000, height_normalized: 88_888, z }
}

fn clip(name: &str, frames: usize, per_frame: u32) -> Animation {
    let mut sprites = Vec::new();
    for i in 0..frames {
        sprites.push(sprite(i, 1));
    }
    Animation {
        animation_name: name.to_string(),
        running: true,
        sprites,
        time_per_frame_ms: per_frame,
        time_since_last_frame: 0,
        current_frame_index: 0,
    }
}

fn key(state: ElementState, code: VirtualKeyCode) -> KeyboardInput {
    KeyboardInput { state, virtual_keycode: Some(code) }
}

#[test]
fn units_are_millionths() {
    assert_eq!(UNIT, 1_000_000);
    assert_eq!(MAX_DOWNWARD_VELOCITY, UNIT);
    assert_eq!(VELOCITY_GAIN_PER_MS * 1000, 5 * UNIT);
    assert_eq!(PLAYER_SPEED * 10, UNIT);
    assert_eq!(PLAYER_VERTICAL_SPEED, PLAYER_SPEED * 20);
    assert_eq!(PLAYER_HORIZONTAL_SPEED, PLAYER_SPEED * 5);
}

#[test]
fn tick_millis_stops_at_the_counter_range() {
    assert_eq!(tick_millis(0), 0);
    assert_eq!(tick_millis(16), 16);
    assert_eq!(tick_millis(u32::MAX as u128), u32::MAX);
    assert_eq!(tick_millis(u32::MAX as u128 + 1), u32::MAX);
    assert_eq!(tick_millis(u128::MAX), u32::MAX);
}

#[test]
fn distance_rounds_toward_zero() {
    assert_eq!(distance(400_000, 1000, 4), 100_000);
    assert_eq!(distance(400_000, 1000, 1), 400_000);
    assert_eq!(distance(1, 3999, 4), 0);
    assert_eq!(distance(-1, 3999, 4), 0);
    assert_eq!(distance(-7, 1000, 1), -7);
    assert_eq!(distance(-4001, 1, 1), -4);
    assert_eq!(distance(4001, 1, 1), 4);
    assert_eq!(distance(0, 1000, 4), 0);
    assert_eq!(
        distance(i64::MIN, u32::MAX, 1),
        -((1i128 << 63) * (u32::MAX as i128) / 1000)
    );
}

#[test]
fn offset_stays_in_range() {
    assert_eq!(offset(10, 5), 15);
    assert_eq!(offset(10, -25), -15);
    assert_eq!(offset(i64::MAX, 1), i64::MAX);
    assert_eq!(offset(i64::MIN, -1), i64::MIN);
    assert_eq!(offset(i64::MAX - 3, 3), i64::MAX);
    assert_eq!(offset(0, 1i128 << 90), i64::MAX);
    assert_eq!(offset(0, -(1i128 << 90)), i64::MIN);
}

#[test]
fn health_runs_down_by_one_and_stops_at_zero() {
    let mut healths = vec![Some(Health { health: 5 }), None, Some(Health { health: 0 }), Some(Health { health: 1 })];
    health_system(&mut healths);
    assert_eq!(
        healths,
        vec![Some(Health { health: 4 }), None, Some(Health { health: 0 }), Some(Health { health: 0 })]
    );
}

#[test]
fn gravity_gains_with_time_up_to_the_maximum() {
    let mut gravities = vec![Some(Gravity { affected_by_gravity: true })];
    let mut velocities = vec![Some(Velocity { vel_x: 3, vel_y: 0 })];
    gravity_system(&mut gravities, &mut velocities, 100);
    assert_eq!(velocities[0], Some(Velocity { vel_x: 3, vel_y: 500_000 }));
    gravity_system(&mut gravities, &mut velocities, 50);
    assert_eq!(velocities[0], Some(Velocity { vel_x: 3, vel_y: 750_000 }));
    gravity_system(&mut gravities, &mut velocities, 300);
    assert_eq!(velocities[0], Some(Velocity { vel_x: 3, vel_y: 1_000_000 }));
    gravity_system(&mut gravities, &mut velocities, 1000);
    assert_eq!(velocities[0], Some(Velocity { vel_x: 3, vel_y: 1_000_000 }));
    assert_eq!(gravities, vec![Some(Gravity { affected_by_gravity: true })]);
}

#[test]
fn gravity_reaches_the_maximum_exactly_at_two_hundred_ms() {
    let mut gravities = vec![Some(Gravity { affected_by_gravity: true })];
    let mut velocities = vec![Some(Velocity { vel_x: 0, vel_y: 0 })];
    gravity_system(&mut gravities, &mut velocities, 199);
    assert_eq!(velocities[0], Some(Velocity { vel_x: 0, vel_y: 995_000 }));
    let mut velocities = vec![Some(Velocity { vel_x: 0, vel_y: 0 })];
    gravity_system(&mut gravities, &mut velocities, 200);
    assert_eq!(velocities[0], Some(Velocity { vel_x: 0, vel_y: 1_000_000 }));
    let mut velocities = vec![Some(Velocity { vel_x: 0, vel_y: 0 })];
    gravity_system(&mut gravities, &mut velocities, u128::MAX);
    assert_eq!(velocities[0], Some(Velocity { vel_x: 0, vel_y: 1_000_000 }));
}

#[test]
fn gravity_slows_a_jump() {
    let mut gravities = vec![Some(Gravity { affected_by_gravity: true })];
    let mut velocities = vec![Some(Velocity { vel_x: 0, vel_y: -2_000_000 })];
    gravity_system(&mut gravities, &mut velocities, 16);
    assert_eq!(velocities[0], Some(Velocity { vel_x: 0, vel_y: -1_920_000 }));
}

#[test]
fn gravity_spares_those_it_is_switched_off_for() {
    let mut gravities = vec![
        Some(Gravity { affected_by_gravity: false }),
        None,
        Some(Gravity { affected_by_gravity: true }),
    ];
    let mut velocities = vec![
        Some(Velocity { vel_x: 1, vel_y: 2 }),
        Some(Velocity { vel_x: 3, vel_y: 4 }),
        None,
        Some(Velocity { vel_x: 5, vel_y: 6 }),
    ];
    gravity_system(&mut gravities, &mut velocities, 100);
    assert_eq!(
        velocities,
        vec![
            Some(Velocity { vel_x: 1, vel_y: 2 }),
            Some(Velocity { vel_x: 3, vel_y: 4 }),
            None,
            Some(Velocity { vel_x: 5, vel_y: 6 }),
        ]
    );
}

#[test]
fn animation_advances_by_whole_frames_and_keeps_the_rest() {
    let mut a = clip("idle", 4, 50);
    advance(&mut a, 230);
    assert_eq!(a.current_frame_index, 0);
    assert_eq!(a.time_since_last_frame, 30);
    let mut b = clip("idle", 4, 50);
    advance(&mut b, 60);
    assert_eq!(b.current_frame_index, 1);
    assert_eq!(b.time_since_last_frame, 10);
    advance(&mut b, 39);
    assert_eq!(b.current_frame_index, 1);
    assert_eq!(b.time_since_last_frame, 49);
    advance(&mut b, 1);
    assert_eq!(b.current_frame_index, 2);
    assert_eq!(b.time_since_last_frame, 0);
    advance(&mut b, 100);
    assert_eq!(b.current_frame_index, 0);
    assert_eq!(b.time_since_last_frame, 0);
}

#[test]
fn animation_at_rest_does_not_advance() {
    let mut stopped = clip("idle", 4, 50);
    stopped.running = false;
    let before = stopped.clone();
    advance(&mut stopped, 230);
    assert_eq!(stopped, before);
    let mut empty = clip("idle", 0, 50);
    let before = empty.clone();
    advance(&mut empty, 230);
    assert_eq!(empty, before);
    let mut timeless = clip("idle", 4, 0);
    let before = timeless.clone();
    advance(&mut timeless, 230);
    assert_eq!(timeless, before);
}

#[test]
fn animation_with_a_stray_index_comes_back_into_its_frames() {
    let mut a = clip("idle", 4, 50);
    a.current_frame_index = 9;
    advance(&mut a, 50);
    assert_eq!(a.current_frame_index, 2);
    assert_eq!(a.time_since_last_frame, 0);
    let mut b = clip("idle", 3, 1);
    b.time_since_last_frame = u32::MAX;
    advance(&mut b, u32::MAX);
    assert_eq!(b.time_since_last_frame, 0);
    assert_eq!(b.current_frame_index, ((2 * (u32::MAX as u64)) % 3) as usize);
}

#[test]
fn animation_system_advances_clips_and_selected_clips() {
    let mut animations = Some(vec![Some(clip("spin", 4, 50)), None]);
    let set = AnimationMap {
        clips: vec![clip("idle", 2, 250), clip("jump", 3, 50)],
        horiz_mirror: true,
        current_animation_name: "jump".to_string(),
    };
    let mut sets = Some(vec![None, Some(set)]);
    animation_system(&mut animations, &mut sets, 120);
    let animations = animations.unwrap();
    assert_eq!(animations[0].as_ref().unwrap().current_frame_index, 2);
    assert_eq!(animations[0].as_ref().unwrap().time_since_last_frame, 20);
    assert_eq!(animations[1], None);
    let sets = sets.unwrap();
    let set = sets[1].as_ref().unwrap();
    assert_eq!(set.clips[0], clip("idle", 2, 250));
    assert_eq!(set.clips[1].current_frame_index, 2);
    assert_eq!(set.clips[1].time_since_last_frame, 20);
    assert!(set.horiz_mirror);
    assert_eq!(set.current_animation_name, "jump");
}

#[test]
fn animation_system_takes_missing_tables() {
    let mut animations: Option<Vec<Option<Animation>>> = None;
    let mut sets: Option<Vec<Option<AnimationMap>>> = None;
    animation_system(&mut animations, &mut sets, 120);
    assert!(animations.is_none());
    assert!(sets.is_none());
}

#[test]
fn a_set_with_an_unknown_selection_does_not_advance() {
    let set = AnimationMap {
        clips: vec![clip("idle", 2, 250)],
        horiz_mirror: false,
        current_animation_name: "".to_string(),
    };
    let mut animations: Option<Vec<Option<Animation>>> = None;
    let mut sets = Some(vec![Some(set.clone())]);
    animation_system(&mut animations, &mut sets, 1000);
    assert_eq!(sets, Some(vec![Some(set)]));
}

#[test]
fn find_clip_gives_the_first_of_a_name() {
    let clips = vec![clip("idle", 1, 50), clip("jump", 1, 50), clip("jump", 2, 50)];
    assert_eq!(find_clip(&clips, &"idle".to_string()), Some(0));
    assert_eq!(find_clip(&clips, &"jump".to_string()), Some(1));
    assert_eq!(find_clip(&clips, &"fall".to_string()), None);
    assert_eq!(find_clip(&Vec::new(), &"idle".to_string()), None);
}

#[test]
fn overlapping_boxes_collide_and_touching_boxes_do_not() {
    let size = RigidBody { width: 10, height: 10 };
    let origin = Position { x: 0, y: 0 };
    assert!(aabb_overlap(&origin, &size, &Position { x: 5, y: 5 }, &size));
    assert!(!aabb_overlap(&origin, &size, &Position { x: 10, y: 0 }, &size));
    assert!(!aabb_overlap(&origin, &size, &Position { x: 0, y: 10 }, &size));
    assert!(!aabb_overlap(&origin, &size, &Position { x: -10, y: 0 }, &size));
    assert!(!aabb_overlap(&origin, &size, &Position { x: 0, y: -10 }, &size));
    assert!(aabb_overlap(&origin, &size, &Position { x: 9, y: 9 }, &size));
    assert!(aabb_overlap(&origin, &size, &Position { x: -9, y: -9 }, &size));
    let far = Position { x: i64::MAX, y: i64::MAX };
    let huge = RigidBody { width: i64::MAX, height: i64::MAX };
    assert!(aabb_overlap(&far, &huge, &far, &huge));
    assert!(!aabb_overlap(&origin, &size, &far, &huge));
}

#[test]
fn a_body_collides_with_others_but_not_with_itself() {
    let size = RigidBody { width: 10, height: 10 };
    let positions = vec![Some(Position { x: 0, y: 0 }), Some(Position { x: 5, y: 5 })];
    let bodies = vec![Some(size), Some(size)];
    assert!(collides_with_another_rb(0, &Position { x: 0, y: 0 }, &size, &positions, &bodies));
    let positions = vec![Some(Position { x: 0, y: 0 }), Some(Position { x: 10, y: 0 })];
    assert!(!collides_with_another_rb(0, &Position { x: 0, y: 0 }, &size, &positions, &bodies));
    let alone = vec![Some(Position { x: 0, y: 0 })];
    assert!(!collides_with_another_rb(0, &Position { x: 0, y: 0 }, &size, &alone, &bodies));
    assert!(collides_with_another_rb(1, &Position { x: 0, y: 0 }, &size, &alone, &bodies));
    let no_body = vec![Some(size), None];
    let positions = vec![Some(Position { x: 0, y: 0 }), Some(Position { x: 5, y: 5 })];
    assert!(!collides_with_another_rb(0, &Position { x: 0, y: 0 }, &size, &positions, &no_body));
}

#[test]
fn movement_choice_prefers_both_then_x_then_y() {
    assert_eq!(choose_movement(true, true, true), AcceptMovement::Both);
    assert_eq!(choose_movement(false, false, true), AcceptMovement::Both);
    assert_eq!(choose_movement(true, true, false), AcceptMovement::OnX);
    assert_eq!(choose_movement(true, false, false), AcceptMovement::OnX);
    assert_eq!(choose_movement(false, true, false), AcceptMovement::OnY);
    assert_eq!(choose_movement(false, false, false), AcceptMovement::Neither);
}

#[test]
fn a_free_body_moves_by_its_velocity() {
    let mut velocities = vec![Some(Velocity { vel_x: 400_000, vel_y: -200_000 })];
    let mut positions = vec![Some(Position { x: 100_000, y: 500_000 })];
    let mut bodies = vec![Some(RigidBody { width: 50_000, height: 50_000 })];
    let mut blocks = vec![None];
    physics_system(&mut velocities, &mut positions, &mut bodies, &mut blocks, 1000);
    assert_eq!(positions[0], Some(Position { x: 500_000, y: 300_000 }));
    assert_eq!(velocities[0], Some(Velocity { vel_x: 400_000, vel_y: -200_000 }));
    physics_system(&mut velocities, &mut positions, &mut bodies, &mut blocks, 10);
    assert_eq!(positions[0], Some(Position { x: 504_000, y: 298_000 }));
}

#[test]
fn a_tick_moves_in_four_rounded_parts() {
    let mut velocities = vec![Some(Velocity { vel_x: 1_000, vel_y: 0 })];
    let mut positions = vec![Some(Position { x: 0, y: 0 })];
    let mut bodies = vec![Some(RigidBody { width: 1, height: 1 })];
    let mut blocks = vec![None];
    physics_system(&mut velocities, &mut positions, &mut bodies, &mut blocks, 7);
    assert_eq!(positions[0], Some(Position { x: 4, y: 0 }));
}

#[test]
fn a_falling_body_stops_on_the_floor_and_keeps_running() {
    let mut velocities = vec![Some(Velocity { vel_x: 100_000, vel_y: 1_000_000 }), None];
    let mut positions = vec![
        Some(Position { x: 0, y: 0 }),
        Some(Position { x: 0, y: 100_000 }),
    ];
    let mut bodies = vec![
        Some(RigidBody { width: 50_000, height: 50_000 }),
        Some(RigidBody { width: 1_000_000, height: 50_000 }),
    ];
    let mut blocks = vec![None, Some(BlocksMovement { blocks: true })];
    physics_system(&mut velocities, &mut positions, &mut bodies, &mut blocks, 400);
    assert_eq!(positions[0], Some(Position { x: 40_000, y: 0 }));
    assert_eq!(velocities[0], Some(Velocity { vel_x: 100_000, vel_y: 0 }));
    assert_eq!(positions[1], Some(Position { x: 0, y: 100_000 }));
    assert_eq!(bodies[1], Some(RigidBody { width: 1_000_000, height: 50_000 }));
    assert_eq!(blocks[1], Some(BlocksMovement { blocks: true }));
}

#[test]
fn a_body_against_a_wall_loses_its_sideways_velocity() {
    let mut velocities = vec![Some(Velocity { vel_x: 1_000_000, vel_y: 100_000 }), None];
    let mut positions = vec![
        Some(Position { x: 0, y: 0 }),
        Some(Position { x: 60_000, y: -500_000 }),
    ];
    let mut bodies = vec![
        Some(RigidBody { width: 50_000, height: 50_000 }),
        Some(RigidBody { width: 50_000, height: 2_000_000 }),
    ];
    let mut blocks = vec![None, None];
    physics_system(&mut velocities, &mut positions, &mut bodies, &mut blocks, 400);
    assert_eq!(positions[0], Some(Position { x: 0, y: 40_000 }));
    assert_eq!(velocities[0], Some(Velocity { vel_x: 0, vel_y: 100_000 }));
}

#[test]
fn a_boxed_in_body_stops() {
    let mut velocities = vec![Some(Velocity { vel_x: 1_000_000, vel_y: 1_000_000 }), None, None];
    let mut positions = vec![
        Some(Position { x: 0, y: 0 }),
        Some(Position { x: 60_000, y: -500_000 }),
        Some(Position { x: -500_000, y: 60_000 }),
    ];
    let mut bodies = vec![
        Some(RigidBody { width: 50_000, height: 50_000 }),
        Some(RigidBody { width: 50_000, height: 2_000_000 }),
        Some(RigidBody { width: 2_000_000, height: 50_000 }),
    ];
    let mut blocks = vec![None, None, None];
    physics_system(&mut velocities, &mut positions, &mut bodies, &mut blocks, 400);
    assert_eq!(positions[0], Some(Position { x: 0, y: 0 }));
    assert_eq!(velocities[0], Some(Velocity { vel_x: 0, vel_y: 0 }));
}

#[test]
fn an_entity_without_a_body_is_left_alone() {
    let mut velocities = vec![
        Some(Velocity { vel_x: 1_000_000, vel_y: 1_000_000 }),
        Some(Velocity { vel_x: 1, vel_y: 2 }),
        Some(Velocity { vel_x: 3, vel_y: 4 }),
    ];
    let mut positions = vec![Some(Position { x: 7, y: 8 }), None];
    let mut bodies = vec![None, Some(RigidBody { width: 1, height: 1 })];
    let mut blocks = vec![None];
    physics_system(&mut velocities, &mut positions, &mut bodies, &mut blocks, 400);
    assert_eq!(positions, vec![Some(Position { x: 7, y: 8 }), None]);
    assert_eq!(
        velocities,
        vec![
            Some(Velocity { vel_x: 1_000_000, vel_y: 1_000_000 }),
            Some(Velocity { vel_x: 1, vel_y: 2 }),
            Some(Velocity { vel_x: 3, vel_y: 4 }),
        ]
    );
}

#[test]
fn positions_stop_at_the_end_of_the_range() {
    let mut velocities = vec![Some(Velocity { vel_x: i64::MAX, vel_y: i64::MIN })];
    let mut positions = vec![Some(Position { x: i64::MAX - 5, y: i64::MIN + 5 })];
    let mut bodies = vec![Some(RigidBody { width: 1, height: 1 })];
    let mut blocks = vec![None];
    physics_system(&mut velocities, &mut positions, &mut bodies, &mut blocks, u128::MAX);
    assert_eq!(positions[0], Some(Position { x: i64::MAX, y: i64::MIN }));
}

#[test]
fn velocity_system_moves_through_everything() {
    let mut velocities = vec![
        Some(Velocity { vel_x: 400_000, vel_y: -200_000 }),
        None,
        Some(Velocity { vel_x: 1, vel_y: 1 }),
    ];
    let mut positions = vec![Some(Position { x: 0, y: 0 }), Some(Position { x: 1, y: 1 }), None];
    velocity_system(&mut velocities, &mut positions, 500);
    assert_eq!(
        positions,
        vec![Some(Position { x: 200_000, y: -100_000 }), Some(Position { x: 1, y: 1 }), None]
    );
    assert_eq!(velocities[0], Some(Velocity { vel_x: 400_000, vel_y: -200_000 }));
}

#[test]
fn collision_record_measures_the_overlap() {
    let size = RigidBody { width: 10, height: 10 };
    let a = Position { x: 0, y: 0 };
    assert_eq!(
        collision_record(3, &a, &size, &Position { x: 5, y: 2 }, &size),
        Collision { collided_with: 3, side: CollisionSide::RIGHT, x_diff: 5, y_diff: 8 }
    );
    assert_eq!(
        collision_record(3, &a, &size, &Position { x: -5, y: 2 }, &size),
        Collision { collided_with: 3, side: CollisionSide::LEFT, x_diff: 5, y_diff: 8 }
    );
    assert_eq!(
        collision_record(4, &a, &size, &Position { x: 1, y: 7 }, &size),
        Collision { collided_with: 4, side: CollisionSide::BOTTOM, x_diff: 9, y_diff: 3 }
    );
    assert_eq!(
        collision_record(4, &a, &size, &Position { x: 1, y: -7 }, &size),
        Collision { collided_with: 4, side: CollisionSide::TOP, x_diff: 9, y_diff: 3 }
    );
    assert_eq!(
        collision_record(5, &a, &size, &Position { x: 5, y: 5 }, &size),
        Collision { collided_with: 5, side: CollisionSide::RIGHT, x_diff: 5, y_diff: 5 }
    );
}

#[test]
fn collision_lists_are_renewed_every_tick() {
    let size = RigidBody { width: 10, height: 10 };
    let mut positions = vec![
        Some(Position { x: 0, y: 0 }),
        Some(Position { x: 5, y: 5 }),
        Some(Position { x: 10, y: 0 }),
        Some(Position { x: -3, y: -3 }),
        None,
    ];
    let mut bodies = vec![Some(size), Some(size), Some(size), Some(size), Some(size)];
    let stale = Collision { collided_with: 9, side: CollisionSide::TOP, x_diff: 1, y_diff: 1 };
    let mut lists = vec![
        Some(CollisionList { list: vec![stale] }),
        None,
        Some(CollisionList { list: vec![stale, stale] }),
        None,
        Some(CollisionList { list: vec![stale] }),
    ];
    collision_system(&mut positions, &mut bodies, &mut lists, 16);
    assert_eq!(
        lists[0],
        Some(CollisionList {
            list: vec![
                Collision { collided_with: 1, side: CollisionSide::RIGHT, x_diff: 5, y_diff: 5 },
                Collision { collided_with: 3, side: CollisionSide::LEFT, x_diff: 7, y_diff: 7 },
            ]
        })
    );
    assert_eq!(lists[1], None);
    assert_eq!(
        lists[2],
        Some(CollisionList {
            list: vec![Collision {
                collided_with: 1,
                side: CollisionSide::LEFT,
                x_diff: 5,
                y_diff: 5
            }]
        })
    );
    assert_eq!(lists[3], None);
    assert_eq!(lists[4], Some(CollisionList { list: vec![] }));
    assert_eq!(positions[1], Some(Position { x: 5, y: 5 }));
    assert_eq!(bodies[4], Some(size));
}

#[test]
fn keys_steer_the_player() {
    let rest = Velocity { vel_x: 0, vel_y: 0 };
    assert_eq!(
        apply_key(rest, key(ElementState::Pressed, VirtualKeyCode::W)),
        Velocity { vel_x: 0, vel_y: -2_000_000 }
    );
    assert_eq!(
        apply_key(Velocity { vel_x: 0, vel_y: 1 }, key(ElementState::Pressed, VirtualKeyCode::W)),
        Velocity { vel_x: 0, vel_y: 1 }
    );
    assert_eq!(
        apply_key(rest, key(ElementState::Pressed, VirtualKeyCode::A)),
        Velocity { vel_x: -500_000, vel_y: 0 }
    );
    assert_eq!(
        apply_key(rest, key(ElementState::Pressed, VirtualKeyCode::D)),
        Velocity { vel_x: 500_000, vel_y: 0 }
    );
    assert_eq!(
        apply_key(Velocity { vel_x: -500_000, vel_y: 3 }, key(ElementState::Released, VirtualKeyCode::A)),
        Velocity { vel_x: 0, vel_y: 3 }
    );
    assert_eq!(
        apply_key(Velocity { vel_x: 500_000, vel_y: 3 }, key(ElementState::Released, VirtualKeyCode::A)),
        Velocity { vel_x: 500_000, vel_y: 3 }
    );
    assert_eq!(
        apply_key(Velocity { vel_x: 500_000, vel_y: 3 }, key(ElementState::Released, VirtualKeyCode::D)),
        Velocity { vel_x: 0, vel_y: 3 }
    );
    assert_eq!(
        apply_key(Velocity { vel_x: -500_000, vel_y: 3 }, key(ElementState::Released, VirtualKeyCode::D)),
        Velocity { vel_x: -500_000, vel_y: 3 }
    );
    assert_eq!(apply_key(rest, key(ElementState::Pressed, VirtualKeyCode::S)), rest);
    assert_eq!(apply_key(rest, key(ElementState::Released, VirtualKeyCode::W)), rest);
    assert_eq!(apply_key(rest, key(ElementState::Pressed, VirtualKeyCode::Escape)), rest);
    assert_eq!(
        apply_key(rest, KeyboardInput { state: ElementState::Pressed, virtual_keycode: None }),
        rest
    );
}

#[test]
fn key_events_apply_in_order_to_the_player_only() {
    let mut velocities = vec![
        Some(Velocity { vel_x: 9, vel_y: 9 }),
        Some(Velocity { vel_x: 0, vel_y: 0 }),
    ];
    let keys = vec![
        key(ElementState::Pressed, VirtualKeyCode::D),
        key(ElementState::Pressed, VirtualKeyCode::W),
        key(ElementState::Pressed, VirtualKeyCode::W),
        key(ElementState::Released, VirtualKeyCode::D),
        key(ElementState::Pressed, VirtualKeyCode::A),
    ];
    player_movement_system(&mut velocities, 1, &keys);
    assert_eq!(velocities[0], Some(Velocity { vel_x: 9, vel_y: 9 }));
    assert_eq!(velocities[1], Some(Velocity { vel_x: -500_000, vel_y: -2_000_000 }));
    player_movement_system(&mut velocities, 7, &keys);
    assert_eq!(velocities[1], Some(Velocity { vel_x: -500_000, vel_y: -2_000_000 }));
    let mut nobody = vec![None, Some(Velocity { vel_x: 0, vel_y: 0 })];
    player_movement_system(&mut nobody, 0, &keys);
    assert_eq!(nobody, vec![None, Some(Velocity { vel_x: 0, vel_y: 0 })]);
}

fn player_clips() -> AnimationMap {
    let mut idle = clip("idle", 2, 250);
    idle.current_frame_index = 1;
    idle.time_since_last_frame = 77;
    AnimationMap {
        clips: vec![idle, clip("running_right", 12, 50), clip("jump", 1, 50), clip("fall", 1, 50)],
        horiz_mirror: false,
        current_animation_name: "idle".to_string(),
    }
}

#[test]
fn the_player_clip_follows_the_velocity() {
    let mut velocities = vec![Some(Velocity { vel_x: -1, vel_y: -5 })];
    let mut sets = vec![Some(player_clips())];
    player_animation_system(&mut velocities, &mut sets, 0);
    let set = sets[0].as_ref().unwrap();
    assert_eq!(set.current_animation_name, "jump");
    assert!(set.horiz_mirror);
    assert!(!set.clips[0].running);
    assert_eq!(set.clips[0].current_frame_index, 0);
    assert_eq!(set.clips[0].time_since_last_frame, 0);
    assert!(set.clips[2].running);
    assert_eq!(velocities[0], Some(Velocity { vel_x: -1, vel_y: -5 }));

    velocities[0] = Some(Velocity { vel_x: 0, vel_y: 5 });
    player_animation_system(&mut velocities, &mut sets, 0);
    let set = sets[0].as_ref().unwrap();
    assert_eq!(set.current_animation_name, "fall");
    assert!(!set.horiz_mirror);
    assert!(!set.clips[2].running);
    assert!(set.clips[3].running);

    velocities[0] = Some(Velocity { vel_x: 5, vel_y: 0 });
    player_animation_system(&mut velocities, &mut sets, 0);
    assert_eq!(sets[0].as_ref().unwrap().current_animation_name, "running_right");
    assert!(!sets[0].as_ref().unwrap().horiz_mirror);

    velocities[0] = Some(Velocity { vel_x: -5, vel_y: 0 });
    player_animation_system(&mut velocities, &mut sets, 0);
    assert_eq!(sets[0].as_ref().unwrap().current_animation_name, "running_right");
    assert!(sets[0].as_ref().unwrap().horiz_mirror);

    velocities[0] = Some(Velocity { vel_x: 0, vel_y: 0 });
    player_animation_system(&mut velocities, &mut sets, 0);
    let set = sets[0].as_ref().unwrap();
    assert_eq!(set.current_animation_name, "idle");
    assert!(set.horiz_mirror);
    assert!(set.clips[0].running);
    assert!(!set.clips[1].running);
}

#[test]
fn a_selected_clip_is_not_started_over() {
    let mut velocities = vec![Some(Velocity { vel_x: 0, vel_y: 0 })];
    let mut sets = vec![Some(player_clips())];
    player_animation_system(&mut velocities, &mut sets, 0);
    assert_eq!(sets[0], Some(player_clips()));
}

#[test]
fn a_missing_clip_leaves_the_selection_but_stops_the_clip() {
    let mut set = player_clips();
    set.clips.truncate(2);
    let mut velocities = vec![Some(Velocity { vel_x: 0, vel_y: -1 })];
    let mut sets = vec![Some(set)];
    player_animation_system(&mut velocities, &mut sets, 0);
    let set = sets[0].as_ref().unwrap();
    assert_eq!(set.current_animation_name, "idle");
    assert!(!set.clips[0].running);
    assert_eq!(set.clips[0].current_frame_index, 0);
}

#[test]
fn player_animation_needs_a_velocity_and_a_set() {
    let mut velocities = vec![None];
    let mut sets = vec![Some(player_clips())];
    player_animation_system(&mut velocities, &mut sets, 0);
    assert_eq!(sets[0], Some(player_clips()));
    let mut velocities = vec![Some(Velocity { vel_x: 0, vel_y: -1 })];
    player_animation_system(&mut velocities, &mut sets, 3);
    assert_eq!(sets[0], Some(player_clips()));
}

#[test]
fn disable_and_enable_rewind_the_clip() {
    let mut set = player_clips();
    disable_current_animation(&mut set);
    assert!(!set.clips[0].running);
    assert_eq!(set.clips[0].current_frame_index, 0);
    assert_eq!(set.clips[0].time_since_last_frame, 0);
    assert_eq!(set.current_animation_name, "idle");
    set.clips[1].current_frame_index = 5;
    set.clips[1].running = false;
    enable_animation(&mut set, &"running_right".to_string());
    assert!(set.clips[1].running);
    assert_eq!(set.clips[1].current_frame_index, 0);
    assert_eq!(set.current_animation_name, "running_right");
    enable_animation(&mut set, &"swim".to_string());
    assert_eq!(set.current_animation_name, "running_right");
}

fn touching(others: &[usize]) -> CollisionList {
    CollisionList {
        list: others
            .iter()
            .map(|&other| Collision {
                collided_with: other,
                side: CollisionSide::RIGHT,
                x_diff: 1,
                y_diff: 1,
            })
            .collect(),
    }
}

#[test]
fn pineapples_give_points_and_are_marked() {
    let lists = vec![Some(touching(&[1, 2, 3, 4, 9]))];
    let mut marks = vec![
        None,
        Some(MarkedForDeletion { marked: false }),
        Some(MarkedForDeletion { marked: false }),
        None,
        Some(MarkedForDeletion { marked: false }),
    ];
    let types = vec![
        Some(EntityType::Player),
        Some(EntityType::Pineapple),
        Some(EntityType::Static),
        Some(EntityType::Pineapple),
        None,
    ];
    let mut points = vec![Some(Points { points: 10, time_since_last_point_change_ms: 123 })];
    player_pineapple_system(&lists, &mut marks, &types, &mut points, Some(0));
    assert_eq!(points[0], Some(Points { points: 12, time_since_last_point_change_ms: 123 }));
    assert_eq!(
        marks,
        vec![
            None,
            Some(MarkedForDeletion { marked: true }),
            Some(MarkedForDeletion { marked: false }),
            None,
            Some(MarkedForDeletion { marked: false }),
        ]
    );
}

#[test]
fn points_stop_at_the_counter_range() {
    let lists = vec![Some(touching(&[1, 1]))];
    let mut marks = vec![None, None];
    let types = vec![None, Some(EntityType::Pineapple)];
    let mut points = vec![Some(Points { points: u32::MAX - 1, time_since_last_point_change_ms: 0 })];
    player_pineapple_system(&lists, &mut marks, &types, &mut points, Some(0));
    assert_eq!(points[0], Some(Points { points: u32::MAX, time_since_last_point_change_ms: 0 }));
}

#[test]
fn pickup_needs_a_player_with_a_list_and_a_score() {
    let lists = vec![Some(touching(&[1]))];
    let types = vec![None, Some(EntityType::Pineapple)];
    let mut marks = vec![None, Some(MarkedForDeletion { marked: false })];
    let mut points = vec![Some(Points { points: 1, time_since_last_point_change_ms: 0 })];
    player_pineapple_system(&lists, &mut marks, &types, &mut points, None);
    assert_eq!(points[0], Some(Points { points: 1, time_since_last_point_change_ms: 0 }));
    assert_eq!(marks[1], Some(MarkedForDeletion { marked: false }));
    player_pineapple_system(&lists, &mut marks, &types, &mut points, Some(1));
    assert_eq!(marks[1], Some(MarkedForDeletion { marked: false }));
    let mut no_points = vec![None];
    player_pineapple_system(&lists, &mut marks, &types, &mut no_points, Some(0));
    assert_eq!(marks[1], Some(MarkedForDeletion { marked: false }));
    assert_eq!(no_points, vec![None]);
}

#[test]
fn the_goal_is_reached_by_touching_the_flag() {
    let types = vec![
        Some(EntityType::Player),
        Some(EntityType::Static),
        Some(EntityType::EndFlag),
        Some(EntityType::Pineapple),
    ];
    assert!(flag_reached_system(&vec![Some(touching(&[1, 2]))], &types, Some(0)));
    assert!(!flag_reached_system(&vec![Some(touching(&[1, 3, 7]))], &types, Some(0)));
    assert!(!flag_reached_system(&vec![Some(touching(&[]))], &types, Some(0)));
    assert!(!flag_reached_system(&vec![Some(touching(&[2]))], &types, None));
    assert!(!flag_reached_system(&vec![Some(touching(&[2]))], &types, Some(1)));
    assert!(!flag_reached_system(&vec![None, Some(touching(&[2]))], &types, Some(0)));
    assert!(flag_reached_system(&vec![None, Some(touching(&[2]))], &types, Some(1)));
}

#[test]
fn is_kind_reads_the_type_table() {
    let types = vec![Some(EntityType::Player), None];
    assert!(is_kind(&types, 0, EntityType::Player));
    assert!(!is_kind(&types, 0, EntityType::EndFlag));
    assert!(!is_kind(&types, 1, EntityType::Player));
    assert!(!is_kind(&types, 2, EntityType::Player));
}

#[test]
fn points_run_down_once_a_second() {
    let mut points = vec![Some(Points { points: 1, time_since_last_point_change_ms: 0 })];
    assert!(!points_ticking_down(&mut points, 999, Some(0)));
    assert_eq!(points[0], Some(Points { points: 1, time_since_last_point_change_ms: 999 }));
    assert!(!points_ticking_down(&mut points, 2, Some(0)));
    assert_eq!(points[0], Some(Points { points: 0, time_since_last_point_change_ms: 1 }));
    assert!(points_ticking_down(&mut points, 2, Some(0)));
    assert_eq!(points[0], Some(Points { points: 0, time_since_last_point_change_ms: 1 }));
}

#[test]
fn a_long_tick_costs_one_point_and_keeps_the_rest_of_the_time() {
    let mut points = vec![Some(Points { points: 10, time_since_last_point_change_ms: 500 })];
    assert!(!points_ticking_down(&mut points, 3000, Some(0)));
    assert_eq!(points[0], Some(Points { points: 9, time_since_last_point_change_ms: 2500 }));
    assert!(!points_ticking_down(&mut points, 0, Some(0)));
    assert_eq!(points[0], Some(Points { points: 8, time_since_last_point_change_ms: 1500 }));
    let mut points = vec![Some(Points { points: 10, time_since_last_point_change_ms: u32::MAX })];
    assert!(!points_ticking_down(&mut points, u128::MAX, Some(0)));
    assert_eq!(
        points[0],
        Some(Points { points: 9, time_since_last_point_change_ms: u32::MAX - 1000 })
    );
}

#[test]
fn points_need_a_player() {
    let mut points = vec![Some(Points { points: 0, time_since_last_point_change_ms: 0 }), None];
    assert!(!points_ticking_down(&mut points, 5000, None));
    assert!(!points_ticking_down(&mut points, 5000, Some(1)));
    assert!(!points_ticking_down(&mut points, 5000, Some(2)));
    assert_eq!(
        points,
        vec![Some(Points { points: 0, time_since_last_point_change_ms: 0 }), None]
    );
}

#[test]
fn a_clip_set_holds_one_clip_per_name() {
    let mut set = AnimationMap::new();
    assert!(set.clips.is_empty());
    assert!(!set.horiz_mirror);
    assert_eq!(set.current_animation_name, "");
    assert!(set.get(&"idle".to_string()).is_none());
    set.insert(clip("idle", 2, 250));
    set.insert(clip("jump", 1, 50));
    assert_eq!(set.clips.len(), 2);
    assert_eq!(set.get(&"jump".to_string()), Some(&clip("jump", 1, 50)));
    set.insert(clip("idle", 5, 10));
    assert_eq!(set.clips.len(), 2);
    assert_eq!(set.clips[0], clip("idle", 5, 10));
    assert_eq!(set.clips[1], clip("jump", 1, 50));
    assert_eq!(set.get(&"idle".to_string()), Some(&clip("idle", 5, 10)));
    assert!(set.get(&"fall".to_string()).is_none());
}

#[test]
fn the_clipping_pass_changes_nothing() {
    let mut positions = vec![Some(Position { x: 0, y: 0 }), Some(Position { x: 5, y: 5 })];
    let mut bodies = vec![
        Some(RigidBody { width: 10, height: 10 }),
        Some(RigidBody { width: 10, height: 10 }),
    ];
    let mut lists = vec![Some(touching(&[1])), None];
    clipping_system(&mut positions, &mut bodies, &mut lists);
    assert_eq!(positions, vec![Some(Position { x: 0, y: 0 }), Some(Position { x: 5, y: 5 })]);
    assert_eq!(lists, vec![Some(touching(&[1])), None]);
    assert_eq!(bodies.len(), 2);
}
