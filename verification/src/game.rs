//! The game: the entities, their components, the scene, and the tick.
use vstd::prelude::*;
use crate::components::Points;
use crate::input::KeyboardInput;
use crate::pipeline::{
    Scenes, lemma_swept_sized, lemma_systems_keep_sizes, run_animation, run_collision,
    run_flag_reached, run_gravity, run_health, run_physics, run_player_animation,
    run_player_movement, run_player_pineapple, run_points_ticking_down, scene_requested,
    systems_run,
};
use crate::renderer::{Renderable, RenderableText, get_world_renderables, label, label_is, world_drawn};
use crate::tables::{
    Component, ComponentVectors, Tables, column_cleared, column_view, entry,
    remove_component_for_entity,
};
use crate::units::{UNIT, elapsed_millis};

verus! {

/// A game: a scene with its entities and their components, and the key events
/// that wait for the next tick.
pub struct Game {
    target_resolution: [u32; 2],
    keyboard_input_queue: Vec<KeyboardInput>,
    player_index: Option<usize>,
    entity_count: usize,
    component_vectors: ComponentVectors,
    current_scene: Scenes,
}

/// A game as contracts speak of it.
pub struct GameState {
    pub target_resolution: [u32; 2],
    /// The key events that wait for the next tick.
    pub keys: Seq<KeyboardInput>,
    /// The entity that the player steers, once one is named.
    pub player: Option<usize>,
    /// The number of entities made in this scene.
    pub entities: nat,
    pub tables: Tables,
    pub scene: Scenes,
}

impl View for Game {
    type V = GameState;

    closed spec fn view(&self) -> GameState {
        GameState {
            target_resolution: self.target_resolution,
            keys: self.keyboard_input_queue@,
            player: self.player_index,
            entities: self.entity_count as nat,
            tables: self.component_vectors@,
            scene: self.current_scene,
        }
    }
}

impl GameState {
    /// A scene with nothing in it.
    pub open spec fn empty(target_resolution: [u32; 2], scene: Scenes) -> GameState {
        GameState {
            target_resolution,
            keys: Seq::empty(),
            player: None,
            entities: 0,
            tables: Tables::none(),
            scene,
        }
    }

    /// Every table that exists has exactly one slot for each entity.
    pub open spec fn wf(self) -> bool {
        self.tables.sized(self.entities)
    }

    /// The player's score, if there is a player and it has one.
    pub open spec fn player_points(self) -> Option<Points> {
        match self.player {
            Some(i) => entry(self.tables.points, i as int),
            None => None,
        }
    }

    /// What entity `e` holds of component type `C`.
    pub open spec fn component<C: Component>(self, e: int) -> Option<C> {
        entry(C::column(self.tables), e)
    }
}

/// The table of a type with the slot of entity `e` set to `component`; the
/// table is made, with `n` empty slots, where it did not exist.
pub open spec fn attached<C>(
    column: Option<Seq<Option<C>>>,
    n: nat,
    e: int,
    component: C,
) -> Seq<Option<C>> {
    match column {
        Some(s) => s.update(e, Some(component)),
        None => Seq::new(n, |i: int| None::<C>).update(e, Some(component)),
    }
}

/// Whether `after` is what one tick of `time_passed` milliseconds makes of
/// `before`, the tables passing through `s1` to `s9` on the way. The systems
/// run in their order on the tables. Then the waiting key events are dropped.
/// Where the tick asks for another scene, that scene begins, empty. Else the
/// entities marked for deletion lose what they hold.
pub open spec fn tick_trace(
    before: GameState,
    s1: Tables,
    s2: Tables,
    s3: Tables,
    s4: Tables,
    s5: Tables,
    s6: Tables,
    s7: Tables,
    s8: Tables,
    s9: Tables,
    after: GameState,
    time_passed: u128,
) -> bool {
    &&& systems_run(
        before.tables,
        s1,
        s2,
        s3,
        s4,
        s5,
        s6,
        s7,
        s8,
        s9,
        before.player,
        before.keys,
        elapsed_millis(time_passed),
    )
    &&& match scene_requested(s8, before.player) {
        Some(scene) => after == GameState::empty(before.target_resolution, scene),
        None => s9.swept(after.tables) && after == GameState {
            keys: Seq::empty(),
            tables: after.tables,
            ..before
        },
    }
}

/// Whether `after` is what one tick of `time_passed` milliseconds makes of `before`.
pub open spec fn ticked(before: GameState, after: GameState, time_passed: u128) -> bool {
    exists|
        s1: Tables,
        s2: Tables,
        s3: Tables,
        s4: Tables,
        s5: Tables,
        s6: Tables,
        s7: Tables,
        s8: Tables,
        s9: Tables,
    | #[trigger]
        tick_trace(before, s1, s2, s3, s4, s5, s6, s7, s8, s9, after, time_passed)
}

/// Whether `text` is the player's score as it is shown: the words, then the
/// number as `to_string` writes it.
pub open spec fn points_text(points: u32, text: Seq<char>) -> bool {
    exists|digits: String| #[trigger]
        vstd::string::to_string_from_display_ensures::<u32>(&points, digits) && text
            == "Points: "@ + digits@
}

/// Whether `texts` are the lines of text of the game's scene: in the game the
/// player's score, if there is a player with a score; after it the outcome and
/// the way out.
pub open spec fn ui_shown(state: GameState, texts: Seq<RenderableText>) -> bool {
    match state.scene {
        Scenes::Ingame => match state.player_points() {
            Some(p) => texts.len() == 1 && points_text(p.points, texts[0].text@) && label_is(
                texts[0],
                texts[0].text@,
                20_000,
                20_000,
                (16 * UNIT) as i64,
                [UNIT, 0, 0, UNIT],
            ),
            None => texts.len() == 0,
        },
        Scenes::GameOver => texts.len() == 2 && label_is(
            texts[0],
            "Game Over"@,
            270_000,
            400_000,
            (64 * UNIT) as i64,
            [UNIT, UNIT, UNIT, UNIT],
        ) && label_is(
            texts[1],
            "Press (ESC) to exit."@,
            250_000,
            800_000,
            (32 * UNIT) as i64,
            [UNIT, UNIT, UNIT, UNIT],
        ),
        Scenes::YouWon => texts.len() == 2 && label_is(
            texts[0],
            "You won!"@,
            300_000,
            400_000,
            (64 * UNIT) as i64,
            [UNIT, UNIT, UNIT, UNIT],
        ) && label_is(
            texts[1],
            "Press (ESC) to exit."@,
            250_000,
            800_000,
            (32 * UNIT) as i64,
            [UNIT, UNIT, UNIT, UNIT],
        ),
    }
}

/// The line that shows the player's score, given the number as text.
pub fn points_label(digits: &String) -> (r: RenderableText)
    ensures
        label_is(
            r,
            "Points: "@ + digits@,
            20_000,
            20_000,
            (16 * UNIT) as i64,
            [UNIT, 0, 0, UNIT],
        ),
{
    let text: String = String::from_str("Points: ").concat(digits.as_str());
    label(text, 20_000, 20_000, 16 * UNIT, [UNIT, 0, 0, UNIT])
}

impl Game {
    /// Every table that exists has exactly one slot for each entity.
    #[verifier::type_invariant]
    spec fn tables_in_step(self) -> bool {
        self.component_vectors@.sized(self.entity_count as nat)
    }

    /// A game in its first scene, with nothing in it.
    pub fn new(target_resolution: [u32; 2]) -> (game: Game)
        ensures
            game@ == GameState::empty(target_resolution, Scenes::Ingame),
    {
        Game {
            target_resolution,
            entity_count: 0,
            component_vectors: ComponentVectors::new(),
            player_index: None,
            keyboard_input_queue: Vec::new(),
            current_scene: Scenes::Ingame,
        }
    }

    /// The number of entities made in this scene.
    pub fn entity_count(&self) -> (n: usize)
        ensures
            n == self@.entities,
            self@.wf(),
    {
        proof {
            use_type_invariant(self);
        }
        self.entity_count
    }

    /// The entity that the player steers, once one is named.
    pub fn player_index(&self) -> (player: Option<usize>)
        ensures
            player == self@.player,
    {
        self.player_index
    }

    /// The scene that the game is in.
    pub fn current_scene(&self) -> (scene: Scenes)
        ensures
            scene == self@.scene,
    {
        self.current_scene
    }

    /// The resolution that the game is laid out for.
    pub fn target_resolution(&self) -> (resolution: [u32; 2])
        ensures
            resolution == self@.target_resolution,
    {
        self.target_resolution
    }

    /// Names the entity that the player steers.
    pub fn set_player_index(&mut self, player_index: Option<usize>)
        ensures
            final(self)@ == (GameState { player: player_index, ..old(self)@ }),
    {
        proof {
            use_type_invariant(&*self);
        }
        self.player_index = player_index;
    }

    /// Empties the scene: no entity, no table, no player, no waiting key event.
    pub fn clear_scene(&mut self)
        ensures
            final(self)@ == GameState::empty(old(self)@.target_resolution, old(self)@.scene),
    {
        self.component_vectors = ComponentVectors::new();
        self.entity_count = 0;
        self.player_index = None;
        self.keyboard_input_queue = Vec::new();
    }

    /// Begins `scene`, empty. What the scene holds is for the caller to put in.
    pub fn swap_scene(&mut self, scene: Scenes)
        ensures
            final(self)@ == GameState::empty(old(self)@.target_resolution, scene),
    {
        self.clear_scene();
        self.current_scene = scene;
    }

    /// Begins the game: the scene `Ingame`, empty.
    pub fn init(&mut self)
        ensures
            final(self)@ == GameState::empty(old(self)@.target_resolution, Scenes::Ingame),
    {
        self.swap_scene(Scenes::Ingame);
    }

    /// Keeps a key event for the next tick.
    pub fn process_keyboard_input(&mut self, input: &KeyboardInput)
        ensures
            final(self)@ == (GameState { keys: old(self)@.keys.push(*input), ..old(self)@ }),
    {
        proof {
            use_type_invariant(&*self);
        }
        let mut queue: Vec<KeyboardInput> = Vec::new();
        std::mem::swap(&mut self.keyboard_input_queue, &mut queue);
        queue.push(*input);
        std::mem::swap(&mut self.keyboard_input_queue, &mut queue);
    }

    /// Makes an entity. Its id is the number of entities made before it, and it
    /// holds nothing.
    pub fn add_entity(&mut self) -> (new_id: usize)
        requires
            old(self)@.entities < usize::MAX,
        ensures
            new_id == old(self)@.entities,
            old(self)@.wf(),
            final(self)@.wf(),
            old(self)@.tables.grown(final(self)@.tables),
            final(self)@ == (GameState {
                entities: old(self)@.entities + 1,
                tables: final(self)@.tables,
                ..old(self)@
            }),
    {
        proof {
            use_type_invariant(&*self);
        }
        let new_id: usize = self.entity_count;
        let mut tables = ComponentVectors::new();
        std::mem::swap(&mut self.component_vectors, &mut tables);
        tables.push_none();
        self.entity_count += 1;
        std::mem::swap(&mut self.component_vectors, &mut tables);
        new_id
    }

    /// Gives entity `entity_id` the component, in place of any of that type
    /// that it held.
    pub fn add_component_to_entity<C: Component>(&mut self, entity_id: usize, component: C)
        requires
            entity_id < old(self)@.entities,
        ensures
            old(self)@.wf(),
            final(self)@.wf(),
            final(self)@ == (GameState { tables: final(self)@.tables, ..old(self)@ }),
            final(self)@.tables == C::with_column(
                old(self)@.tables,
                Some(
                    attached(
                        C::column(old(self)@.tables),
                        old(self)@.entities,
                        entity_id as int,
                        component,
                    ),
                ),
            ),
            final(self)@.component::<C>(entity_id as int) == Some(component),
    {
        proof {
            use_type_invariant(&*self);
        }
        let ghost before = self@.tables;
        let ghost n = self@.entities;
        let mut tables = ComponentVectors::new();
        std::mem::swap(&mut self.component_vectors, &mut tables);
        let mut column: Option<Vec<Option<C>>> = None;
        C::swap_column(&mut tables, &mut column);
        let mut slots: Vec<Option<C>> = match column {
            Some(slots) => slots,
            None => {
                let mut slots: Vec<Option<C>> = Vec::new();
                let mut i: usize = 0;
                while i < self.entity_count
                    invariant
                        i <= self.entity_count,
                        slots@ =~= Seq::new(i as nat, |j: int| None::<C>),
                    decreases self.entity_count - i,
                {
                    slots.push(None);
                    i += 1;
                }
                slots
            },
        };
        proof {
            C::lemma_sized(before, None, n);
        }
        slots[entity_id] = Some(component);
        let mut column: Option<Vec<Option<C>>> = Some(slots);
        let ghost put = column_view(column);
        C::swap_column(&mut tables, &mut column);
        proof {
            C::lemma_column(before, None, put);
            C::lemma_column(before, put, put);
            C::lemma_sized(before, put, n);
        }
        std::mem::swap(&mut self.component_vectors, &mut tables);
    }

    /// The table of component type `C`, or `None` where no entity of this
    /// scene has been given a component of that type.
    pub fn borrow_component_vector<C: Component>(&self) -> (table: Option<&Vec<Option<C>>>)
        ensures
            match table {
                Some(slots) => C::column(self@.tables) == Some(slots@) && slots@.len()
                    == self@.entities,
                None => C::column(self@.tables) is None,
            },
    {
        proof {
            use_type_invariant(self);
            C::lemma_sized(self@.tables, None, self@.entities);
        }
        match C::borrow_column(&self.component_vectors) {
            Some(slots) => Some(slots),
            None => None,
        }
    }

    /// What entity `entity_id` holds of component type `C`: nothing where the
    /// entity was never given one, was deleted, or does not exist.
    pub fn query<C: Component>(&self, entity_id: usize) -> (found: Option<&C>)
        ensures
            match found {
                Some(component) => self@.component::<C>(entity_id as int) == Some(*component),
                None => self@.component::<C>(entity_id as int) is None,
            },
    {
        match C::borrow_column(&self.component_vectors) {
            Some(slots) => {
                if entity_id < slots.len() {
                    match &slots[entity_id] {
                        Some(component) => Some(component),
                        None => None,
                    }
                } else {
                    None
                }
            },
            None => None,
        }
    }

    /// Takes from entity `entity_id` its component of type `C`, if it has one.
    /// Everything else stays.
    pub fn remove_component_from_entity<C: Component>(&mut self, entity_id: usize)
        ensures
            old(self)@.wf(),
            final(self)@.wf(),
            final(self)@ == (GameState { tables: final(self)@.tables, ..old(self)@ }),
            final(self)@.tables == C::with_column(
                old(self)@.tables,
                C::column(final(self)@.tables),
            ),
            column_cleared(
                C::column(old(self)@.tables),
                C::column(final(self)@.tables),
                entity_id as int,
            ),
            final(self)@.component::<C>(entity_id as int) is None,
    {
        proof {
            use_type_invariant(&*self);
        }
        let ghost before = self@.tables;
        let ghost n = self@.entities;
        let mut tables = ComponentVectors::new();
        std::mem::swap(&mut self.component_vectors, &mut tables);
        let mut column: Option<Vec<Option<C>>> = None;
        C::swap_column(&mut tables, &mut column);
        proof {
            C::lemma_sized(before, None, n);
        }
        remove_component_for_entity(&mut column, entity_id);
        let ghost put = column_view(column);
        C::swap_column(&mut tables, &mut column);
        proof {
            C::lemma_column(before, None, put);
            C::lemma_column(before, put, put);
            C::lemma_sized(before, put, n);
        }
        std::mem::swap(&mut self.component_vectors, &mut tables);
    }

    /// Takes from entity `entity_index` everything that it holds. The id stays
    /// in use.
    pub fn delete_entity(&mut self, entity_index: usize)
        ensures
            old(self)@.wf(),
            final(self)@.wf(),
            final(self)@ == (GameState { tables: final(self)@.tables, ..old(self)@ }),
            old(self)@.tables.cleared(final(self)@.tables, entity_index as int),
            final(self)@.tables.vacant(entity_index as int),
    {
        proof {
            use_type_invariant(&*self);
        }
        let mut tables = ComponentVectors::new();
        std::mem::swap(&mut self.component_vectors, &mut tables);
        tables.remove_components_for_entity(entity_index);
        std::mem::swap(&mut self.component_vectors, &mut tables);
    }

    /// Runs one tick: the systems in their order, then the end of the tick.
    /// A tick never asks the caller for anything, so the answer is `false`.
    pub fn update(&mut self, time_passed: u128) -> (exit: bool)
        ensures
            !exit,
            ticked(old(self)@, final(self)@, time_passed),
            old(self)@.wf(),
            final(self)@.wf(),
    {
        proof {
            use_type_invariant(&*self);
        }
        let ghost before = self@;
        let ghost millis = elapsed_millis(time_passed);
        let mut tables = ComponentVectors::new();
        std::mem::swap(&mut self.component_vectors, &mut tables);
        let ghost s0 = tables@;
        run_health(&mut tables);
        let ghost s1 = tables@;
        run_player_movement(&mut tables, self.player_index, &self.keyboard_input_queue);
        let ghost s2 = tables@;
        run_animation(&mut tables, time_passed);
        let ghost s3 = tables@;
        run_gravity(&mut tables, time_passed);
        let ghost s4 = tables@;
        run_physics(&mut tables, time_passed);
        let ghost s5 = tables@;
        run_collision(&mut tables, time_passed);
        let ghost s6 = tables@;
        run_player_animation(&mut tables, self.player_index);
        let ghost s7 = tables@;
        run_player_pineapple(&mut tables, self.player_index);
        let ghost s8 = tables@;
        let mut scene_swap_opt: Option<Scenes> = None;
        if run_flag_reached(&tables, self.player_index) {
            scene_swap_opt = Some(Scenes::YouWon);
        }
        if run_points_ticking_down(&mut tables, time_passed, self.player_index) {
            scene_swap_opt = Some(Scenes::GameOver);
        }
        let ghost s9 = tables@;
        assert(systems_run(s0, s1, s2, s3, s4, s5, s6, s7, s8, s9, before.player, before.keys, millis));
        assert(scene_swap_opt == scene_requested(s8, before.player));

        self.keyboard_input_queue = Vec::new();

        tables.sweep_marked();
        proof {
            lemma_systems_keep_sizes(
                s0,
                s1,
                s2,
                s3,
                s4,
                s5,
                s6,
                s7,
                s8,
                s9,
                before.player,
                before.keys,
                millis,
                before.entities,
            );
            lemma_swept_sized(s9, tables@, before.entities);
        }
        std::mem::swap(&mut self.component_vectors, &mut tables);

        if let Some(scene_to_swap) = scene_swap_opt {
            self.swap_scene(scene_to_swap);
        }
        assert(tick_trace(before, s1, s2, s3, s4, s5, s6, s7, s8, s9, self@, time_passed));
        false
    }

    /// The rectangles of the world, in descending order of z.
    pub fn get_world_renderables(&self) -> (to_return: Vec<Renderable>)
        ensures
            to_return@ == world_drawn(self@.tables).0,
    {
        get_world_renderables(&self.component_vectors)
    }

    /// What lies over the world: no rectangle, and the lines of text of the scene.
    pub fn get_ui_renderables(&self) -> (ui: (Vec<Renderable>, Vec<RenderableText>))
        ensures
            ui.0@.len() == 0,
            ui_shown(self@, ui.1@),
    {
        let renderables: Vec<Renderable> = Vec::new();
        let mut renderable_texts: Vec<RenderableText> = Vec::new();
        match self.current_scene {
            Scenes::Ingame => {
                if let Some(points_component_vector) = &self.component_vectors.points {
                    if let Some(player) = self.player_index {
                        if player < points_component_vector.len() {
                            if let Some(player_points) = points_component_vector[player] {
                                let digits: String = player_points.points.to_string();
                                renderable_texts.push(points_label(&digits));
                                assert(points_text(player_points.points, renderable_texts@[0].text@));
                            }
                        }
                    }
                }
            },
            Scenes::GameOver => {
                renderable_texts.push(
                    label(
                        String::from_str("Game Over"),
                        270_000,
                        400_000,
                        64 * UNIT,
                        [UNIT, UNIT, UNIT, UNIT],
                    ),
                );
                renderable_texts.push(
                    label(
                        String::from_str("Press (ESC) to exit."),
                        250_000,
                        800_000,
                        32 * UNIT,
                        [UNIT, UNIT, UNIT, UNIT],
                    ),
                );
            },
            Scenes::YouWon => {
                renderable_texts.push(
                    label(
                        String::from_str("You won!"),
                        300_000,
                        400_000,
                        64 * UNIT,
                        [UNIT, UNIT, UNIT, UNIT],
                    ),
                );
                renderable_texts.push(
                    label(
                        String::from_str("Press (ESC) to exit."),
                        250_000,
                        800_000,
                        32 * UNIT,
                        [UNIT, UNIT, UNIT, UNIT],
                    ),
                );
            },
        }
        (renderables, renderable_texts)
    }

    /// Everything that is to be shown: the rectangles of the world, and the
    /// lines of text of the scene.
    pub fn get_renderables(&self) -> (shown: (Vec<Renderable>, Vec<RenderableText>))
        ensures
            shown.0@ == world_drawn(self@.tables).0,
            ui_shown(self@, shown.1@),
    {
        let (mut ui_renderables, ui_renderable_texts) = self.get_ui_renderables();
        let mut world_renderables = self.get_world_renderables();
        ui_renderables.append(&mut world_renderables);
        assert(ui_renderables@ =~= world_drawn(self@.tables).0);
        (ui_renderables, ui_renderable_texts)
    }
}

} // verus!