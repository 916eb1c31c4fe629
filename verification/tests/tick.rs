use platformer::components::{
    Animation, AnimationMap, BlocksMovement, Collision, CollisionList, CollisionSide, EntityType,
    Gravity, Health, MarkedForDeletion, Points, Position, RigidBody, Sprite, Velocity,
};
use platformer::game::{points_label, Game};
use platformer::input::{ElementState, KeyboardInput, VirtualKeyCode};
use platformer::pipeline::{
    run_flag_reached, run_gravity, run_health, run_physics, run_player_movement,
    run_points_ticking_down, Scenes,
};
use platformer::renderer::{
    find_insertion_index, get_world_renderables, label, render_sprite, Renderable, RenderableText,
};
use platformer::tables::ComponentVectors;

fn body(width: i64, height: i64) -> RigidBody {
    RigidBody { width, height }
}

fn player_with_score(game: &mut Game, x: i64, y: i64, points: u32) -> usize {
    let player = game.add_entity();
    game.set_player_index(Some(player));
    game.add_component_to_entity(player, Position { x, y });
    game.add_component_to_entity(player, body(50_000, 50_000));
    game.add_component_to_entity(player, CollisionList { list: Vec::new() });
    game.add_component_to_entity(player, EntityType::Player);
    game.add_component_to_entity(player, Points { points, time_since_last_point_change_ms: 0 });
    player
}

fn pineapple(game: &mut Game, x: i64, y: i64) -> usize {
    let e = game.add_entity();
    game.add_component_to_entity(e, Position { x, y });
    game.add_component_to_entity(e, body(50_000, 50_000));
    game.add_component_to_entity(e, MarkedForDeletion { marked: false });
    game.add_component_to_entity(e, EntityType::Pineapple);
    e
}

fn touching_one() -> CollisionList {
    CollisionList {
        list: vec![Collision {
            collided_with: 1,
            side: CollisionSide::TOP,
            x_diff: 1,
            y_diff: 1,
        }],
    }
}

fn score(game: &Game, player: usize) -> Option<Points> {
    game.borrow_component_vector::<Points>().unwrap()[player]
}

#[test]
fn a_pineapple_is_collected_once() {
    let mut game = Game::new([1280, 720]);
    let player = player_with_score(&mut game, 0, 0, 10);
    let fruit = pineapple(&mut game, 20_000, 20_000);
    let far = pineapple(&mut game, 900_000, 900_000);
    assert!(!game.update(16));
    assert_eq!(score(&game, player), Some(Points { points: 11, time_since_last_point_change_ms: 16 }));
    assert_eq!(game.borrow_component_vector::<Position>().unwrap()[fruit], None);
    assert_eq!(game.borrow_component_vector::<RigidBody>().unwrap()[fruit], None);
    assert_eq!(game.borrow_component_vector::<EntityType>().unwrap()[fruit], None);
    assert_eq!(game.borrow_component_vector::<MarkedForDeletion>().unwrap()[fruit], None);
    assert_eq!(
        game.borrow_component_vector::<EntityType>().unwrap()[far],
        Some(EntityType::Pineapple)
    );
    assert_eq!(game.entity_count(), 3);
    assert!(!game.update(16));
    assert_eq!(score(&game, player), Some(Points { points: 11, time_since_last_point_change_ms: 32 }));
    assert!(!game.update(16));
    assert_eq!(score(&game, player), Some(Points { points: 11, time_since_last_point_change_ms: 48 }));
    assert_eq!(
        game.borrow_component_vector::<CollisionList>().unwrap()[player],
        Some(CollisionList { list: Vec::new() })
    );
    assert_eq!(game.current_scene(), Scenes::Ingame);
}

#[test]
fn touching_the_flag_wins_the_game() {
    let mut game = Game::new([1280, 720]);
    player_with_score(&mut game, 0, 0, 10);
    let flag = game.add_entity();
    game.add_component_to_entity(flag, Position { x: 10_000, y: 10_000 });
    game.add_component_to_entity(flag, body(100_000, 100_000));
    game.add_component_to_entity(flag, EntityType::EndFlag);
    assert!(!game.update(16));
    assert_eq!(game.current_scene(), Scenes::YouWon);
    assert_eq!(game.entity_count(), 0);
    assert_eq!(game.player_index(), None);
    assert!(game.borrow_component_vector::<Position>().is_none());
    assert!(game.borrow_component_vector::<Points>().is_none());
    assert!(!game.update(16));
    assert_eq!(game.current_scene(), Scenes::YouWon);
}

#[test]
fn a_score_of_zero_ends_the_game_on_the_next_tick() {
    let mut game = Game::new([1280, 720]);
    let player = player_with_score(&mut game, 0, 0, 1);
    game.update(999);
    assert_eq!(score(&game, player), Some(Points { points: 1, time_since_last_point_change_ms: 999 }));
    game.update(2);
    assert_eq!(score(&game, player), Some(Points { points: 0, time_since_last_point_change_ms: 1 }));
    assert_eq!(game.current_scene(), Scenes::Ingame);
    game.update(2);
    assert_eq!(game.current_scene(), Scenes::GameOver);
    assert_eq!(game.entity_count(), 0);
    assert!(game.borrow_component_vector::<Points>().is_none());
}

#[test]
fn losing_goes_before_winning() {
    let mut game = Game::new([1280, 720]);
    player_with_score(&mut game, 0, 0, 0);
    let flag = game.add_entity();
    game.add_component_to_entity(flag, Position { x: 10_000, y: 10_000 });
    game.add_component_to_entity(flag, body(100_000, 100_000));
    game.add_component_to_entity(flag, EntityType::EndFlag);
    game.update(16);
    assert_eq!(game.current_scene(), Scenes::GameOver);
}

#[test]
fn a_tick_without_a_player_runs_the_rest() {
    let mut game = Game::new([1280, 720]);
    let e = game.add_entity();
    game.add_component_to_entity(e, Health { health: 100 });
    game.add_component_to_entity(e, Points { points: 0, time_since_last_point_change_ms: 0 });
    game.update(16);
    assert_eq!(game.borrow_component_vector::<Health>().unwrap()[e], Some(Health { health: 99 }));
    assert_eq!(game.current_scene(), Scenes::Ingame);
    assert_eq!(score(&game, e), Some(Points { points: 0, time_since_last_point_change_ms: 0 }));
}

#[test]
fn an_empty_game_ticks() {
    let mut game = Game::new([1280, 720]);
    assert!(!game.update(16));
    assert_eq!(game.entity_count(), 0);
    assert_eq!(game.current_scene(), Scenes::Ingame);
}

#[test]
fn key_events_are_seen_by_one_tick() {
    let mut game = Game::new([1280, 720]);
    let player = game.add_entity();
    game.set_player_index(Some(player));
    game.add_component_to_entity(player, Velocity { vel_x: 0, vel_y: 0 });
    game.process_keyboard_input(&KeyboardInput {
        state: ElementState::Pressed,
        virtual_keycode: Some(VirtualKeyCode::D),
    });
    game.update(16);
    assert_eq!(
        game.borrow_component_vector::<Velocity>().unwrap()[player],
        Some(Velocity { vel_x: 500_000, vel_y: 0 })
    );
    game.add_component_to_entity(player, Velocity { vel_x: 0, vel_y: 0 });
    game.update(16);
    assert_eq!(
        game.borrow_component_vector::<Velocity>().unwrap()[player],
        Some(Velocity { vel_x: 0, vel_y: 0 })
    );
}

#[test]
fn gravity_runs_before_movement_and_movement_before_collision() {
    let mut game = Game::new([1280, 720]);
    let player = player_with_score(&mut game, 0, 0, 10);
    game.add_component_to_entity(player, Velocity { vel_x: 0, vel_y: 0 });
    game.add_component_to_entity(player, Gravity { affected_by_gravity: true });
    let ground = game.add_entity();
    game.add_component_to_entity(ground, Position { x: 0, y: 500_000 });
    game.add_component_to_entity(ground, body(1_000_000, 100_000));
    game.add_component_to_entity(ground, BlocksMovement { blocks: true });
    game.add_component_to_entity(ground, EntityType::Static);
    game.update(100);
    assert_eq!(
        game.borrow_component_vector::<Velocity>().unwrap()[player],
        Some(Velocity { vel_x: 0, vel_y: 500_000 })
    );
    assert_eq!(
        game.borrow_component_vector::<Position>().unwrap()[player],
        Some(Position { x: 0, y: 50_000 })
    );
    assert_eq!(
        game.borrow_component_vector::<Position>().unwrap()[ground],
        Some(Position { x: 0, y: 500_000 })
    );
}

#[test]
fn movement_does_not_ask_for_blockers() {
    let mut game = Game::new([1280, 720]);
    let e = game.add_entity();
    game.add_component_to_entity(e, Position { x: 0, y: 0 });
    game.add_component_to_entity(e, body(10, 10));
    game.add_component_to_entity(e, Velocity { vel_x: 400_000, vel_y: 0 });
    game.update(1000);
    assert_eq!(game.query::<Position>(e), Some(&Position { x: 400_000, y: 0 }));
    assert!(game.borrow_component_vector::<BlocksMovement>().is_none());
    let wall = game.add_entity();
    game.add_component_to_entity(wall, Position { x: 450_000, y: 0 });
    game.add_component_to_entity(wall, body(1_000_000, 10));
    game.add_component_to_entity(wall, BlocksMovement { blocks: false });
    game.update(1000);
    assert_eq!(game.query::<Position>(e), Some(&Position { x: 400_000, y: 0 }));
    assert_eq!(game.query::<Velocity>(e), Some(&Velocity { vel_x: 0, vel_y: 0 }));
}

#[test]
fn collision_lists_are_emptied_where_nothing_has_a_place() {
    let mut game = Game::new([1280, 720]);
    let e = game.add_entity();
    game.add_component_to_entity(e, touching_one());
    game.update(16);
    assert_eq!(game.query::<CollisionList>(e), Some(&CollisionList { list: Vec::new() }));
    assert!(game.borrow_component_vector::<Position>().is_none());
    assert!(game.borrow_component_vector::<RigidBody>().is_none());
}

#[test]
fn points_are_given_where_nothing_can_be_marked() {
    let mut game = Game::new([1280, 720]);
    let player = player_with_score(&mut game, 0, 0, 10);
    let fruit = game.add_entity();
    game.add_component_to_entity(fruit, Position { x: 20_000, y: 20_000 });
    game.add_component_to_entity(fruit, body(50_000, 50_000));
    game.add_component_to_entity(fruit, EntityType::Pineapple);
    game.update(16);
    assert_eq!(score(&game, player), Some(Points { points: 11, time_since_last_point_change_ms: 16 }));
    assert!(game.borrow_component_vector::<MarkedForDeletion>().is_none());
    game.update(16);
    assert_eq!(score(&game, player), Some(Points { points: 12, time_since_last_point_change_ms: 32 }));
    assert_eq!(game.query::<EntityType>(fruit), Some(&EntityType::Pineapple));
}

#[test]
fn the_stages_run_one_by_one() {
    let mut tables = ComponentVectors::new();
    tables.healths = Some(vec![Some(Health { health: 2 })]);
    tables.velocities = Some(vec![Some(Velocity { vel_x: 0, vel_y: 0 })]);
    tables.gravities = Some(vec![Some(Gravity { affected_by_gravity: true })]);
    tables.points = Some(vec![Some(Points { points: 0, time_since_last_point_change_ms: 0 })]);
    run_health(&mut tables);
    assert_eq!(tables.healths, Some(vec![Some(Health { health: 1 })]));
    let keys = vec![KeyboardInput {
        state: ElementState::Pressed,
        virtual_keycode: Some(VirtualKeyCode::A),
    }];
    run_player_movement(&mut tables, None, &keys);
    assert_eq!(tables.velocities, Some(vec![Some(Velocity { vel_x: 0, vel_y: 0 })]));
    run_player_movement(&mut tables, Some(0), &keys);
    assert_eq!(tables.velocities, Some(vec![Some(Velocity { vel_x: -500_000, vel_y: 0 })]));
    run_gravity(&mut tables, 10);
    assert_eq!(tables.velocities, Some(vec![Some(Velocity { vel_x: -500_000, vel_y: 50_000 })]));
    run_physics(&mut tables, 10);
    assert_eq!(tables.velocities, Some(vec![Some(Velocity { vel_x: -500_000, vel_y: 50_000 })]));
    assert!(!run_flag_reached(&tables, Some(0)));
    assert!(run_points_ticking_down(&mut tables, 10, Some(0)));
    assert!(!run_points_ticking_down(&mut tables, 10, None));
}

fn sprite(texture_id: usize, z: u32) -> Sprite {
    Sprite { texture_id, render: true, width_normalized: 50_000, height_normalized: 80_000, z }
}

#[test]
fn sprites_are_drawn_in_descending_z() {
    let mut game = Game::new([1280, 720]);
    for (texture, z) in [(0usize, 1u32), (1, 10), (2, 0), (3, 10), (4, 5)] {
        let e = game.add_entity();
        game.add_component_to_entity(e, Position { x: texture as i64, y: 0 });
        game.add_component_to_entity(e, sprite(texture, z));
    }
    let hidden = game.add_entity();
    game.add_component_to_entity(hidden, Position { x: 0, y: 0 });
    game.add_component_to_entity(
        hidden,
        Sprite { texture_id: 9, render: false, width_normalized: 1, height_normalized: 1, z: 99 },
    );
    let nowhere = game.add_entity();
    game.add_component_to_entity(nowhere, sprite(8, 50));
    let drawn = game.get_world_renderables();
    let textures: Vec<usize> = drawn.iter().map(|r| r.texture_id).collect();
    assert_eq!(textures, vec![1, 3, 4, 0, 2]);
    assert_eq!(
        drawn[0],
        Renderable {
            p1: [1, 0],
            p2: [50_001, 80_000],
            texture_id: 1,
            use_texture_size: false,
            horiz_mirror: false,
        }
    );
}

#[test]
fn clips_and_clip_sets_are_drawn_after_sprites() {
    let mut game = Game::new([1280, 720]);
    let plain = game.add_entity();
    game.add_component_to_entity(plain, Position { x: 0, y: 0 });
    game.add_component_to_entity(plain, sprite(100, 1));
    let spinning = game.add_entity();
    game.add_component_to_entity(spinning, Position { x: 10, y: 20 });
    game.add_component_to_entity(
        spinning,
        Animation {
            animation_name: "idle".to_string(),
            running: true,
            sprites: vec![sprite(200, 1), sprite(201, 1)],
            time_per_frame_ms: 50,
            time_since_last_frame: 0,
            current_frame_index: 1,
        },
    );
    let broken = game.add_entity();
    game.add_component_to_entity(broken, Position { x: 0, y: 0 });
    game.add_component_to_entity(
        broken,
        Animation {
            animation_name: "idle".to_string(),
            running: true,
            sprites: vec![sprite(300, 1)],
            time_per_frame_ms: 50,
            time_since_last_frame: 0,
            current_frame_index: 4,
        },
    );
    let player = game.add_entity();
    game.add_component_to_entity(player, Position { x: 30, y: 40 });
    game.add_component_to_entity(
        player,
        AnimationMap {
            clips: vec![
                Animation {
                    animation_name: "idle".to_string(),
                    running: false,
                    sprites: vec![sprite(400, 10)],
                    time_per_frame_ms: 250,
                    time_since_last_frame: 0,
                    current_frame_index: 0,
                },
                Animation {
                    animation_name: "jump".to_string(),
                    running: true,
                    sprites: vec![sprite(500, 10)],
                    time_per_frame_ms: 50,
                    time_since_last_frame: 0,
                    current_frame_index: 0,
                },
            ],
            horiz_mirror: true,
            current_animation_name: "jump".to_string(),
        },
    );
    let (drawn, texts) = game.get_renderables();
    assert!(texts.is_empty());
    let textures: Vec<usize> = drawn.iter().map(|r| r.texture_id).collect();
    assert_eq!(textures, vec![500, 100, 201]);
    assert!(drawn[0].horiz_mirror);
    assert_eq!(drawn[0].p1, [30, 40]);
    assert_eq!(drawn[0].p2, [50_030, 80_040]);
    assert!(!drawn[2].horiz_mirror);
    assert_eq!(drawn[2].p1, [10, 20]);
}

#[test]
fn render_sprite_goes_behind_its_equals() {
    let mut list: Vec<Renderable> = Vec::new();
    let mut zs: Vec<u32> = Vec::new();
    let origin = Position { x: 0, y: 0 };
    render_sprite(&mut list, &mut zs, &origin, &sprite(0, 5), false);
    render_sprite(&mut list, &mut zs, &origin, &sprite(1, 5), false);
    render_sprite(&mut list, &mut zs, &origin, &sprite(2, 7), true);
    render_sprite(&mut list, &mut zs, &origin, &sprite(3, 1), false);
    render_sprite(&mut list, &mut zs, &origin, &sprite(4, 5), false);
    assert_eq!(zs, vec![7, 5, 5, 5, 1]);
    let textures: Vec<usize> = list.iter().map(|r| r.texture_id).collect();
    assert_eq!(textures, vec![2, 0, 1, 4, 3]);
    assert!(list[0].horiz_mirror);
    assert_eq!(find_insertion_index(&zs, 6), 1);
    assert_eq!(find_insertion_index(&zs, 5), 4);
    assert_eq!(find_insertion_index(&zs, 0), 5);
    assert_eq!(find_insertion_index(&zs, 9), 0);
    assert_eq!(find_insertion_index(&Vec::new(), 9), 0);
}

#[test]
fn a_corner_stops_at_the_end_of_the_range() {
    let mut list: Vec<Renderable> = Vec::new();
    let mut zs: Vec<u32> = Vec::new();
    let far = Position { x: i64::MAX - 1, y: i64::MIN };
    let wide = Sprite {
        texture_id: 0,
        render: true,
        width_normalized: 10,
        height_normalized: -10,
        z: 0,
    };
    render_sprite(&mut list, &mut zs, &far, &wide, false);
    assert_eq!(list[0].p1, [i64::MAX - 1, i64::MIN]);
    assert_eq!(list[0].p2, [i64::MAX, i64::MIN]);
}

#[test]
fn world_renderables_need_positions() {
    let mut tables = ComponentVectors::new();
    tables.sprites = Some(vec![Some(sprite(1, 1))]);
    assert!(get_world_renderables(&tables).is_empty());
    tables.positions = Some(vec![Some(Position { x: 0, y: 0 }), None]);
    assert_eq!(get_world_renderables(&tables).len(), 1);
}

#[test]
fn the_score_is_shown_in_the_game() {
    let mut game = Game::new([1280, 720]);
    player_with_score(&mut game, 0, 0, 10);
    let (rectangles, texts) = game.get_ui_renderables();
    assert!(rectangles.is_empty());
    assert_eq!(
        texts,
        vec![RenderableText {
            color: [1_000_000, 0, 0, 1_000_000],
            size: 16_000_000,
            text: "Points: 10".to_string(),
            x: 20_000,
            y: 20_000,
        }]
    );
    game.set_player_index(None);
    assert!(game.get_ui_renderables().1.is_empty());
}

#[test]
fn the_outcome_is_shown_after_the_game() {
    let white = [1_000_000, 1_000_000, 1_000_000, 1_000_000];
    let way_out = RenderableText {
        color: white,
        size: 32_000_000,
        text: "Press (ESC) to exit.".to_string(),
        x: 250_000,
        y: 800_000,
    };
    let mut game = Game::new([1280, 720]);
    game.swap_scene(Scenes::GameOver);
    assert_eq!(
        game.get_renderables().1,
        vec![
            RenderableText {
                color: white,
                size: 64_000_000,
                text: "Game Over".to_string(),
                x: 270_000,
                y: 400_000,
            },
            way_out.clone(),
        ]
    );
    game.swap_scene(Scenes::YouWon);
    assert_eq!(
        game.get_renderables().1,
        vec![
            RenderableText {
                color: white,
                size: 64_000_000,
                text: "You won!".to_string(),
                x: 300_000,
                y: 400_000,
            },
            way_out,
        ]
    );
}

#[test]
fn labels_carry_what_they_are_given() {
    assert_eq!(
        label("abc".to_string(), 1, 2, 3, [4, 5, 6, 7]),
        RenderableText { color: [4, 5, 6, 7], size: 3, text: "abc".to_string(), x: 1, y: 2 }
    );
    assert_eq!(points_label(&"007".to_string()).text, "Points: 007");
    assert_eq!(points_label(&"".to_string()).text, "Points: ");
}
