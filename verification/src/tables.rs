//! The component tables: one per component type, each made when a component
//! of its type is first attached, and all of one length.
use vstd::prelude::*;
use crate::components::{
    Animation, AnimationMap, BlocksMovement, CollisionList, EntityType, Gravity, Health,
    MarkedForDeletion, Name, PlayerState, Points, Position, RigidBody, Sprite, Velocity, slot,
};

verus! {

/// The tables as they are stored. `None` stands for a table that no component
/// has asked for yet.
pub struct ComponentVectors {
    pub names: Option<Vec<Option<Name>>>,
    pub sprites: Option<Vec<Option<Sprite>>>,
    pub healths: Option<Vec<Option<Health>>>,
    pub animations: Option<Vec<Option<Animation>>>,
    pub animation_maps: Option<Vec<Option<AnimationMap>>>,
    pub positions: Option<Vec<Option<Position>>>,
    pub gravities: Option<Vec<Option<Gravity>>>,
    pub velocities: Option<Vec<Option<Velocity>>>,
    pub points: Option<Vec<Option<Points>>>,
    pub rigid_bodies: Option<Vec<Option<RigidBody>>>,
    pub collision_lists: Option<Vec<Option<CollisionList>>>,
    pub blocks_movement: Option<Vec<Option<BlocksMovement>>>,
    pub player_states: Option<Vec<Option<PlayerState>>>,
    pub entity_types: Option<Vec<Option<EntityType>>>,
    pub marked_for_deletion: Option<Vec<Option<MarkedForDeletion>>>,
}

/// The tables as contracts speak of them: each one the sequence of its slots.
pub struct Tables {
    pub names: Option<Seq<Option<Name>>>,
    pub sprites: Option<Seq<Option<Sprite>>>,
    pub healths: Option<Seq<Option<Health>>>,
    pub animations: Option<Seq<Option<Animation>>>,
    pub animation_maps: Option<Seq<Option<AnimationMap>>>,
    pub positions: Option<Seq<Option<Position>>>,
    pub gravities: Option<Seq<Option<Gravity>>>,
    pub velocities: Option<Seq<Option<Velocity>>>,
    pub points: Option<Seq<Option<Points>>>,
    pub rigid_bodies: Option<Seq<Option<RigidBody>>>,
    pub collision_lists: Option<Seq<Option<CollisionList>>>,
    pub blocks_movement: Option<Seq<Option<BlocksMovement>>>,
    pub player_states: Option<Seq<Option<PlayerState>>>,
    pub entity_types: Option<Seq<Option<EntityType>>>,
    pub marked_for_deletion: Option<Seq<Option<MarkedForDeletion>>>,
}

/// A stored table as a sequence of slots.
pub open spec fn column_view<T>(column: Option<Vec<Option<T>>>) -> Option<Seq<Option<T>>> {
    match column {
        Some(v) => Some(v@),
        None => None,
    }
}

/// What entity `e` holds in a table: nothing where there is no table.
pub open spec fn entry<T>(column: Option<Seq<Option<T>>>, e: int) -> Option<T> {
    match column {
        Some(s) => slot(s, e),
        None => None,
    }
}

/// Whether a table, if it exists, has one slot for each of `n` entities.
pub open spec fn column_sized<T>(column: Option<Seq<Option<T>>>, n: nat) -> bool {
    match column {
        Some(s) => s.len() == n,
        None => true,
    }
}

/// Whether `after` is `before` with one more slot, an empty one, at its end.
pub open spec fn column_grown<T>(
    before: Option<Seq<Option<T>>>,
    after: Option<Seq<Option<T>>>,
) -> bool {
    match before {
        Some(s) => after == Some(s.push(None)),
        None => after is None,
    }
}

/// Whether `after` is `before` with the slot of entity `e`, if it has one, emptied.
pub open spec fn column_cleared<T>(
    before: Option<Seq<Option<T>>>,
    after: Option<Seq<Option<T>>>,
    e: int,
) -> bool {
    match before {
        Some(s) => after == Some(
            if 0 <= e < s.len() {
                s.update(e, None)
            } else {
                s
            },
        ),
        None => after is None,
    }
}

/// The number of slots of a table: none where there is no table.
pub open spec fn column_len<T>(column: Option<Seq<Option<T>>>) -> int {
    match column {
        Some(s) => s.len() as int,
        None => 0,
    }
}

/// Whether entity `e` carries a deletion mark that is set.
pub open spec fn doomed(marks: Option<Seq<Option<MarkedForDeletion>>>, e: int) -> bool {
    entry(marks, e) == Some(MarkedForDeletion { marked: true })
}

/// Whether `after` is `before` with the slot of every marked entity below
/// `upto` emptied.
pub open spec fn column_swept<T>(
    before: Option<Seq<Option<T>>>,
    after: Option<Seq<Option<T>>>,
    marks: Option<Seq<Option<MarkedForDeletion>>>,
    upto: int,
) -> bool {
    match before {
        Some(s) => after is Some && after.unwrap().len() == s.len() && forall|e: int|
            0 <= e < s.len() ==> #[trigger] after.unwrap()[e] == (if e < upto && doomed(marks, e) {
                None
            } else {
                s[e]
            }),
        None => after is None,
    }
}

/// One more entity swept: its slot emptied where it was marked, and the table
/// left alone where it was not.
pub proof fn lemma_column_sweep_step<T>(
    before: Option<Seq<Option<T>>>,
    now: Option<Seq<Option<T>>>,
    next: Option<Seq<Option<T>>>,
    marks: Option<Seq<Option<MarkedForDeletion>>>,
    i: int,
)
    requires
        0 <= i,
        column_swept(before, now, marks, i),
        if doomed(marks, i) {
            column_cleared(now, next, i)
        } else {
            next == now
        },
    ensures
        column_swept(before, next, marks, i + 1),
{
}

impl View for ComponentVectors {
    type V = Tables;

    open spec fn view(&self) -> Tables {
        Tables {
            names: column_view(self.names),
            sprites: column_view(self.sprites),
            healths: column_view(self.healths),
            animations: column_view(self.animations),
            animation_maps: column_view(self.animation_maps),
            positions: column_view(self.positions),
            gravities: column_view(self.gravities),
            velocities: column_view(self.velocities),
            points: column_view(self.points),
            rigid_bodies: column_view(self.rigid_bodies),
            collision_lists: column_view(self.collision_lists),
            blocks_movement: column_view(self.blocks_movement),
            player_states: column_view(self.player_states),
            entity_types: column_view(self.entity_types),
            marked_for_deletion: column_view(self.marked_for_deletion),
        }
    }
}

impl Tables {
    /// No table exists.
    pub open spec fn none() -> Tables {
        Tables {
            names: None,
            sprites: None,
            healths: None,
            animations: None,
            animation_maps: None,
            positions: None,
            gravities: None,
            velocities: None,
            points: None,
            rigid_bodies: None,
            collision_lists: None,
            blocks_movement: None,
            player_states: None,
            entity_types: None,
            marked_for_deletion: None,
        }
    }

    /// Every table that exists has one slot for each of `n` entities.
    pub open spec fn sized(self, n: nat) -> bool {
        &&& column_sized(self.names, n)
        &&& column_sized(self.sprites, n)
        &&& column_sized(self.healths, n)
        &&& column_sized(self.animations, n)
        &&& column_sized(self.animation_maps, n)
        &&& column_sized(self.positions, n)
        &&& column_sized(self.gravities, n)
        &&& column_sized(self.velocities, n)
        &&& column_sized(self.points, n)
        &&& column_sized(self.rigid_bodies, n)
        &&& column_sized(self.collision_lists, n)
        &&& column_sized(self.blocks_movement, n)
        &&& column_sized(self.player_states, n)
        &&& column_sized(self.entity_types, n)
        &&& column_sized(self.marked_for_deletion, n)
    }

    /// Entity `e` holds no component of any type.
    pub open spec fn vacant(self, e: int) -> bool {
        &&& entry(self.names, e) is None
        &&& entry(self.sprites, e) is None
        &&& entry(self.healths, e) is None
        &&& entry(self.animations, e) is None
        &&& entry(self.animation_maps, e) is None
        &&& entry(self.positions, e) is None
        &&& entry(self.gravities, e) is None
        &&& entry(self.velocities, e) is None
        &&& entry(self.points, e) is None
        &&& entry(self.rigid_bodies, e) is None
        &&& entry(self.collision_lists, e) is None
        &&& entry(self.blocks_movement, e) is None
        &&& entry(self.player_states, e) is None
        &&& entry(self.entity_types, e) is None
        &&& entry(self.marked_for_deletion, e) is None
    }

    /// `after` is these tables with one more entity, which holds nothing.
    pub open spec fn grown(self, after: Tables) -> bool {
        &&& column_grown(self.names, after.names)
        &&& column_grown(self.sprites, after.sprites)
        &&& column_grown(self.healths, after.healths)
        &&& column_grown(self.animations, after.animations)
        &&& column_grown(self.animation_maps, after.animation_maps)
        &&& column_grown(self.positions, after.positions)
        &&& column_grown(self.gravities, after.gravities)
        &&& column_grown(self.velocities, after.velocities)
        &&& column_grown(self.points, after.points)
        &&& column_grown(self.rigid_bodies, after.rigid_bodies)
        &&& column_grown(self.collision_lists, after.collision_lists)
        &&& column_grown(self.blocks_movement, after.blocks_movement)
        &&& column_grown(self.player_states, after.player_states)
        &&& column_grown(self.entity_types, after.entity_types)
        &&& column_grown(self.marked_for_deletion, after.marked_for_deletion)
    }

    /// `after` is these tables with everything removed that the marked
    /// entities below `upto` held.
    pub open spec fn swept_upto(self, after: Tables, upto: int) -> bool {
        &&& column_swept(self.names, after.names, self.marked_for_deletion, upto)
        &&& column_swept(self.sprites, after.sprites, self.marked_for_deletion, upto)
        &&& column_swept(self.healths, after.healths, self.marked_for_deletion, upto)
        &&& column_swept(self.animations, after.animations, self.marked_for_deletion, upto)
        &&& column_swept(self.animation_maps, after.animation_maps, self.marked_for_deletion, upto)
        &&& column_swept(self.positions, after.positions, self.marked_for_deletion, upto)
        &&& column_swept(self.gravities, after.gravities, self.marked_for_deletion, upto)
        &&& column_swept(self.velocities, after.velocities, self.marked_for_deletion, upto)
        &&& column_swept(self.points, after.points, self.marked_for_deletion, upto)
        &&& column_swept(self.rigid_bodies, after.rigid_bodies, self.marked_for_deletion, upto)
        &&& column_swept(self.collision_lists, after.collision_lists, self.marked_for_deletion, upto)
        &&& column_swept(self.blocks_movement, after.blocks_movement, self.marked_for_deletion, upto)
        &&& column_swept(self.player_states, after.player_states, self.marked_for_deletion, upto)
        &&& column_swept(self.entity_types, after.entity_types, self.marked_for_deletion, upto)
        &&& column_swept(self.marked_for_deletion, after.marked_for_deletion, self.marked_for_deletion, upto)
    }

    /// `after` is these tables with everything removed that the entities held
    /// whose deletion mark is set.
    pub open spec fn swept(self, after: Tables) -> bool {
        self.swept_upto(after, column_len(self.marked_for_deletion))
    }

    /// `after` is these tables with everything that entity `e` held removed.
    pub open spec fn cleared(self, after: Tables, e: int) -> bool {
        &&& column_cleared(self.names, after.names, e)
        &&& column_cleared(self.sprites, after.sprites, e)
        &&& column_cleared(self.healths, after.healths, e)
        &&& column_cleared(self.animations, after.animations, e)
        &&& column_cleared(self.animation_maps, after.animation_maps, e)
        &&& column_cleared(self.positions, after.positions, e)
        &&& column_cleared(self.gravities, after.gravities, e)
        &&& column_cleared(self.velocities, after.velocities, e)
        &&& column_cleared(self.points, after.points, e)
        &&& column_cleared(self.rigid_bodies, after.rigid_bodies, e)
        &&& column_cleared(self.collision_lists, after.collision_lists, e)
        &&& column_cleared(self.blocks_movement, after.blocks_movement, e)
        &&& column_cleared(self.player_states, after.player_states, e)
        &&& column_cleared(self.entity_types, after.entity_types, e)
        &&& column_cleared(self.marked_for_deletion, after.marked_for_deletion, e)
    }
}

/// A type of component: it knows which of the tables is its own.
pub trait Component: Sized {
    /// The table of this type among the tables.
    spec fn column(tables: Tables) -> Option<Seq<Option<Self>>>;

    /// The tables with the table of this type replaced.
    spec fn with_column(tables: Tables, column: Option<Seq<Option<Self>>>) -> Tables;

    /// Replacing a table and reading it go together as for a field of a record.
    proof fn lemma_column(
        tables: Tables,
        column: Option<Seq<Option<Self>>>,
        other: Option<Seq<Option<Self>>>,
    )
        ensures
            Self::column(Self::with_column(tables, column)) == column,
            Self::with_column(Self::with_column(tables, column), other) == Self::with_column(
                tables,
                other,
            ),
            Self::with_column(tables, Self::column(tables)) == tables,
    ;

    /// The table of this type has the size that all tables have, and a table of
    /// that size can take its place.
    proof fn lemma_sized(tables: Tables, column: Option<Seq<Option<Self>>>, n: nat)
        ensures
            tables.sized(n) ==> column_sized(Self::column(tables), n),
            tables.sized(n) && column_sized(column, n) ==> Self::with_column(tables, column).sized(n),
    ;

    /// An entity that holds nothing holds no component of this type, and where
    /// no table exists there is none of this type.
    proof fn lemma_vacant(tables: Tables, e: int)
        ensures
            tables.vacant(e) ==> entry(Self::column(tables), e) is None,
            Self::column(Tables::none()) is None,
    ;

    fn borrow_column(tables: &ComponentVectors) -> (column: &Option<Vec<Option<Self>>>)
        ensures
            column_view(*column) == Self::column(tables@),
    ;

    /// Exchanges the stored table of this type with `column`.
    fn swap_column(tables: &mut ComponentVectors, column: &mut Option<Vec<Option<Self>>>)
        ensures
            column_view(*final(column)) == Self::column(old(tables)@),
            final(tables)@ == Self::with_column(old(tables)@, column_view(*old(column))),
    ;
}

impl Component for Name {
    open spec fn column(tables: Tables) -> Option<Seq<Option<Self>>> {
        tables.names
    }

    open spec fn with_column(tables: Tables, column: Option<Seq<Option<Self>>>) -> Tables {
        Tables { names: column, ..tables }
    }

    proof fn lemma_column(
        tables: Tables,
        column: Option<Seq<Option<Self>>>,
        other: Option<Seq<Option<Self>>>,
    ) {
    }

    proof fn lemma_sized(tables: Tables, column: Option<Seq<Option<Self>>>, n: nat) {
    }

    proof fn lemma_vacant(tables: Tables, e: int) {
    }

    fn borrow_column(tables: &ComponentVectors) -> (column: &Option<Vec<Option<Self>>>) {
        &tables.names
    }

    fn swap_column(tables: &mut ComponentVectors, column: &mut Option<Vec<Option<Self>>>) {
        std::mem::swap(&mut tables.names, column);
    }
}

impl Component for Sprite {
    open spec fn column(tables: Tables) -> Option<Seq<Option<Self>>> {
        tables.sprites
    }

    open spec fn with_column(tables: Tables, column: Option<Seq<Option<Self>>>) -> Tables {
        Tables { sprites: column, ..tables }
    }

    proof fn lemma_column(
        tables: Tables,
        column: Option<Seq<Option<Self>>>,
        other: Option<Seq<Option<Self>>>,
    ) {
    }

    proof fn lemma_sized(tables: Tables, column: Option<Seq<Option<Self>>>, n: nat) {
    }

    proof fn lemma_vacant(tables: Tables, e: int) {
    }

    fn borrow_column(tables: &ComponentVectors) -> (column: &Option<Vec<Option<Self>>>) {
        &tables.sprites
    }

    fn swap_column(tables: &mut ComponentVectors, column: &mut Option<Vec<Option<Self>>>) {
        std::mem::swap(&mut tables.sprites, column);
    }
}

impl Component for Health {
    open spec fn column(tables: Tables) -> Option<Seq<Option<Self>>> {
        tables.healths
    }

    open spec fn with_column(tables: Tables, column: Option<Seq<Option<Self>>>) -> Tables {
        Tables { healths: column, ..tables }
    }

    proof fn lemma_column(
        tables: Tables,
        column: Option<Seq<Option<Self>>>,
        other: Option<Seq<Option<Self>>>,
    ) {
    }

    proof fn lemma_sized(tables: Tables, column: Option<Seq<Option<Self>>>, n: nat) {
    }

    proof fn lemma_vacant(tables: Tables, e: int) {
    }

    fn borrow_column(tables: &ComponentVectors) -> (column: &Option<Vec<Option<Self>>>) {
        &tables.healths
    }

    fn swap_column(tables: &mut ComponentVectors, column: &mut Option<Vec<Option<Self>>>) {
        std::mem::swap(&mut tables.healths, column);
    }
}

impl Component for Animation {
    open spec fn column(tables: Tables) -> Option<Seq<Option<Self>>> {
        tables.animations
    }

    open spec fn with_column(tables: Tables, column: Option<Seq<Option<Self>>>) -> Tables {
        Tables { animations: column, ..tables }
    }

    proof fn lemma_column(
        tables: Tables,
        column: Option<Seq<Option<Self>>>,
        other: Option<Seq<Option<Self>>>,
    ) {
    }

    proof fn lemma_sized(tables: Tables, column: Option<Seq<Option<Self>>>, n: nat) {
    }

    proof fn lemma_vacant(tables: Tables, e: int) {
    }

    fn borrow_column(tables: &ComponentVectors) -> (column: &Option<Vec<Option<Self>>>) {
        &tables.animations
    }

    fn swap_column(tables: &mut ComponentVectors, column: &mut Option<Vec<Option<Self>>>) {
        std::mem::swap(&mut tables.animations, column);
    }
}

impl Component for AnimationMap {
    open spec fn column(tables: Tables) -> Option<Seq<Option<Self>>> {
        tables.animation_maps
    }

    open spec fn with_column(tables: Tables, column: Option<Seq<Option<Self>>>) -> Tables {
        Tables { animation_maps: column, ..tables }
    }

    proof fn lemma_column(
        tables: Tables,
        column: Option<Seq<Option<Self>>>,
        other: Option<Seq<Option<Self>>>,
    ) {
    }

    proof fn lemma_sized(tables: Tables, column: Option<Seq<Option<Self>>>, n: nat) {
    }

    proof fn lemma_vacant(tables: Tables, e: int) {
    }

    fn borrow_column(tables: &ComponentVectors) -> (column: &Option<Vec<Option<Self>>>) {
        &tables.animation_maps
    }

    fn swap_column(tables: &mut ComponentVectors, column: &mut Option<Vec<Option<Self>>>) {
        std::mem::swap(&mut tables.animation_maps, column);
    }
}

impl Component for Position {
    open spec fn column(tables: Tables) -> Option<Seq<Option<Self>>> {
        tables.positions
    }

    open spec fn with_column(tables: Tables, column: Option<Seq<Option<Self>>>) -> Tables {
        Tables { positions: column, ..tables }
    }

    proof fn lemma_column(
        tables: Tables,
        column: Option<Seq<Option<Self>>>,
        other: Option<Seq<Option<Self>>>,
    ) {
    }

    proof fn lemma_sized(tables: Tables, column: Option<Seq<Option<Self>>>, n: nat) {
    }

    proof fn lemma_vacant(tables: Tables, e: int) {
    }

    fn borrow_column(tables: &ComponentVectors) -> (column: &Option<Vec<Option<Self>>>) {
        &tables.positions
    }

    fn swap_column(tables: &mut ComponentVectors, column: &mut Option<Vec<Option<Self>>>) {
        std::mem::swap(&mut tables.positions, column);
    }
}

impl Component for Gravity {
    open spec fn column(tables: Tables) -> Option<Seq<Option<Self>>> {
        tables.gravities
    }

    open spec fn with_column(tables: Tables, column: Option<Seq<Option<Self>>>) -> Tables {
        Tables { gravities: column, ..tables }
    }

    proof fn lemma_column(
        tables: Tables,
        column: Option<Seq<Option<Self>>>,
        other: Option<Seq<Option<Self>>>,
    ) {
    }

    proof fn lemma_sized(tables: Tables, column: Option<Seq<Option<Self>>>, n: nat) {
    }

    proof fn lemma_vacant(tables: Tables, e: int) {
    }

    fn borrow_column(tables: &ComponentVectors) -> (column: &Option<Vec<Option<Self>>>) {
        &tables.gravities
    }

    fn swap_column(tables: &mut ComponentVectors, column: &mut Option<Vec<Option<Self>>>) {
        std::mem::swap(&mut tables.gravities, column);
    }
}

impl Component for Velocity {
    open spec fn column(tables: Tables) -> Option<Seq<Option<Self>>> {
        tables.velocities
    }

    open spec fn with_column(tables: Tables, column: Option<Seq<Option<Self>>>) -> Tables {
        Tables { velocities: column, ..tables }
    }

    proof fn lemma_column(
        tables: Tables,
        column: Option<Seq<Option<Self>>>,
        other: Option<Seq<Option<Self>>>,
    ) {
    }

    proof fn lemma_sized(tables: Tables, column: Option<Seq<Option<Self>>>, n: nat) {
    }

    proof fn lemma_vacant(tables: Tables, e: int) {
    }

    fn borrow_column(tables: &ComponentVectors) -> (column: &Option<Vec<Option<Self>>>) {
        &tables.velocities
    }

    fn swap_column(tables: &mut ComponentVectors, column: &mut Option<Vec<Option<Self>>>) {
        std::mem::swap(&mut tables.velocities, column);
    }
}

impl Component for Points {
    open spec fn column(tables: Tables) -> Option<Seq<Option<Self>>> {
        tables.points
    }

    open spec fn with_column(tables: Tables, column: Option<Seq<Option<Self>>>) -> Tables {
        Tables { points: column, ..tables }
    }

    proof fn lemma_column(
        tables: Tables,
        column: Option<Seq<Option<Self>>>,
        other: Option<Seq<Option<Self>>>,
    ) {
    }

    proof fn lemma_sized(tables: Tables, column: Option<Seq<Option<Self>>>, n: nat) {
    }

    proof fn lemma_vacant(tables: Tables, e: int) {
    }

    fn borrow_column(tables: &ComponentVectors) -> (column: &Option<Vec<Option<Self>>>) {
        &tables.points
    }

    fn swap_column(tables: &mut ComponentVectors, column: &mut Option<Vec<Option<Self>>>) {
        std::mem::swap(&mut tables.points, column);
    }
}

impl Component for RigidBody {
    open spec fn column(tables: Tables) -> Option<Seq<Option<Self>>> {
        tables.rigid_bodies
    }

    open spec fn with_column(tables: Tables, column: Option<Seq<Option<Self>>>) -> Tables {
        Tables { rigid_bodies: column, ..tables }
    }

    proof fn lemma_column(
        tables: Tables,
        column: Option<Seq<Option<Self>>>,
        other: Option<Seq<Option<Self>>>,
    ) {
    }

    proof fn lemma_sized(tables: Tables, column: Option<Seq<Option<Self>>>, n: nat) {
    }

    proof fn lemma_vacant(tables: Tables, e: int) {
    }

    fn borrow_column(tables: &ComponentVectors) -> (column: &Option<Vec<Option<Self>>>) {
        &tables.rigid_bodies
    }

    fn swap_column(tables: &mut ComponentVectors, column: &mut Option<Vec<Option<Self>>>) {
        std::mem::swap(&mut tables.rigid_bodies, column);
    }
}

impl Component for CollisionList {
    open spec fn column(tables: Tables) -> Option<Seq<Option<Self>>> {
        tables.collision_lists
    }

    open spec fn with_column(tables: Tables, column: Option<Seq<Option<Self>>>) -> Tables {
        Tables { collision_lists: column, ..tables }
    }

    proof fn lemma_column(
        tables: Tables,
        column: Option<Seq<Option<Self>>>,
        other: Option<Seq<Option<Self>>>,
    ) {
    }

    proof fn lemma_sized(tables: Tables, column: Option<Seq<Option<Self>>>, n: nat) {
    }

    proof fn lemma_vacant(tables: Tables, e: int) {
    }

    fn borrow_column(tables: &ComponentVectors) -> (column: &Option<Vec<Option<Self>>>) {
        &tables.collision_lists
    }

    fn swap_column(tables: &mut ComponentVectors, column: &mut Option<Vec<Option<Self>>>) {
        std::mem::swap(&mut tables.collision_lists, column);
    }
}

impl Component for BlocksMovement {
    open spec fn column(tables: Tables) -> Option<Seq<Option<Self>>> {
        tables.blocks_movement
    }

    open spec fn with_column(tables: Tables, column: Option<Seq<Option<Self>>>) -> Tables {
        Tables { blocks_movement: column, ..tables }
    }

    proof fn lemma_column(
        tables: Tables,
        column: Option<Seq<Option<Self>>>,
        other: Option<Seq<Option<Self>>>,
    ) {
    }

    proof fn lemma_sized(tables: Tables, column: Option<Seq<Option<Self>>>, n: nat) {
    }

    proof fn lemma_vacant(tables: Tables, e: int) {
    }

    fn borrow_column(tables: &ComponentVectors) -> (column: &Option<Vec<Option<Self>>>) {
        &tables.blocks_movement
    }

    fn swap_column(tables: &mut ComponentVectors, column: &mut Option<Vec<Option<Self>>>) {
        std::mem::swap(&mut tables.blocks_movement, column);
    }
}

impl Component for PlayerState {
    open spec fn column(tables: Tables) -> Option<Seq<Option<Self>>> {
        tables.player_states
    }

    open spec fn with_column(tables: Tables, column: Option<Seq<Option<Self>>>) -> Tables {
        Tables { player_states: column, ..tables }
    }

    proof fn lemma_column(
        tables: Tables,
        column: Option<Seq<Option<Self>>>,
        other: Option<Seq<Option<Self>>>,
    ) {
    }

    proof fn lemma_sized(tables: Tables, column: Option<Seq<Option<Self>>>, n: nat) {
    }

    proof fn lemma_vacant(tables: Tables, e: int) {
    }

    fn borrow_column(tables: &ComponentVectors) -> (column: &Option<Vec<Option<Self>>>) {
        &tables.player_states
    }

    fn swap_column(tables: &mut ComponentVectors, column: &mut Option<Vec<Option<Self>>>) {
        std::mem::swap(&mut tables.player_states, column);
    }
}

impl Component for EntityType {
    open spec fn column(tables: Tables) -> Option<Seq<Option<Self>>> {
        tables.entity_types
    }

    open spec fn with_column(tables: Tables, column: Option<Seq<Option<Self>>>) -> Tables {
        Tables { entity_types: column, ..tables }
    }

    proof fn lemma_column(
        tables: Tables,
        column: Option<Seq<Option<Self>>>,
        other: Option<Seq<Option<Self>>>,
    ) {
    }

    proof fn lemma_sized(tables: Tables, column: Option<Seq<Option<Self>>>, n: nat) {
    }

    proof fn lemma_vacant(tables: Tables, e: int) {
    }

    fn borrow_column(tables: &ComponentVectors) -> (column: &Option<Vec<Option<Self>>>) {
        &tables.entity_types
    }

    fn swap_column(tables: &mut ComponentVectors, column: &mut Option<Vec<Option<Self>>>) {
        std::mem::swap(&mut tables.entity_types, column);
    }
}

impl Component for MarkedForDeletion {
    open spec fn column(tables: Tables) -> Option<Seq<Option<Self>>> {
        tables.marked_for_deletion
    }

    open spec fn with_column(tables: Tables, column: Option<Seq<Option<Self>>>) -> Tables {
        Tables { marked_for_deletion: column, ..tables }
    }

    proof fn lemma_column(
        tables: Tables,
        column: Option<Seq<Option<Self>>>,
        other: Option<Seq<Option<Self>>>,
    ) {
    }

    proof fn lemma_sized(tables: Tables, column: Option<Seq<Option<Self>>>, n: nat) {
    }

    proof fn lemma_vacant(tables: Tables, e: int) {
    }

    fn borrow_column(tables: &ComponentVectors) -> (column: &Option<Vec<Option<Self>>>) {
        &tables.marked_for_deletion
    }

    fn swap_column(tables: &mut ComponentVectors, column: &mut Option<Vec<Option<Self>>>) {
        std::mem::swap(&mut tables.marked_for_deletion, column);
    }
}

/// Gives a table, if it exists, one more slot, an empty one.
pub fn push_none<T>(column: &mut Option<Vec<Option<T>>>)
    ensures
        column_grown(column_view(*old(column)), column_view(*final(column))),
{
    match column {
        Some(slots) => {
            slots.push(None);
        },
        None => {},
    }
}

/// Empties the slot of entity `entity_index` in a table, if the table exists
/// and reaches that far.
pub fn remove_component_for_entity<T>(column: &mut Option<Vec<Option<T>>>, entity_index: usize)
    ensures
        column_cleared(column_view(*old(column)), column_view(*final(column)), entity_index as int),
{
    match column {
        Some(slots) => {
            if entity_index < slots.len() {
                slots[entity_index] = None;
            }
        },
        None => {},
    }
}

impl ComponentVectors {
    /// No table yet.
    pub fn new() -> (tables: ComponentVectors)
        ensures
            tables@ == Tables::none(),
    {
        ComponentVectors {
            names: None,
            sprites: None,
            healths: None,
            animations: None,
            animation_maps: None,
            positions: None,
            gravities: None,
            velocities: None,
            points: None,
            rigid_bodies: None,
            collision_lists: None,
            blocks_movement: None,
            player_states: None,
            entity_types: None,
            marked_for_deletion: None,
        }
    }

    /// Gives every table that exists one more slot, an empty one.
    pub fn push_none(&mut self)
        ensures
            old(self)@.grown(final(self)@),
    {
        push_none(&mut self.names);
        push_none(&mut self.sprites);
        push_none(&mut self.healths);
        push_none(&mut self.animations);
        push_none(&mut self.animation_maps);
        push_none(&mut self.positions);
        push_none(&mut self.gravities);
        push_none(&mut self.velocities);
        push_none(&mut self.points);
        push_none(&mut self.rigid_bodies);
        push_none(&mut self.collision_lists);
        push_none(&mut self.blocks_movement);
        push_none(&mut self.player_states);
        push_none(&mut self.entity_types);
        push_none(&mut self.marked_for_deletion);
    }

    /// Removes everything that the entities hold whose deletion mark is set.
    pub fn sweep_marked(&mut self)
        ensures
            old(self)@.swept(final(self)@),
    {
        let n: usize = match &self.marked_for_deletion {
            Some(marks) => marks.len(),
            None => 0,
        };
        let ghost before = self@;
        let mut i: usize = 0;
        while i < n
            invariant
                i <= n,
                n as int == column_len(before.marked_for_deletion),
                before.swept_upto(self@, i as int),
            decreases n - i,
        {
            let ghost now = self@;
            let marked: bool = match &self.marked_for_deletion {
                Some(marks) => match marks[i] {
                    Some(mark) => mark.marked,
                    None => false,
                },
                None => false,
            };
            if marked {
                self.remove_components_for_entity(i);
            }
            proof {
                let next = self@;
                let marks = before.marked_for_deletion;
                assert(marked == doomed(marks, i as int));
                lemma_column_sweep_step(before.names, now.names, next.names, marks, i as int);
                lemma_column_sweep_step(before.sprites, now.sprites, next.sprites, marks, i as int);
                lemma_column_sweep_step(before.healths, now.healths, next.healths, marks, i as int);
                lemma_column_sweep_step(before.animations, now.animations, next.animations, marks, i as int);
                lemma_column_sweep_step(before.animation_maps, now.animation_maps, next.animation_maps, marks, i as int);
                lemma_column_sweep_step(before.positions, now.positions, next.positions, marks, i as int);
                lemma_column_sweep_step(before.gravities, now.gravities, next.gravities, marks, i as int);
                lemma_column_sweep_step(before.velocities, now.velocities, next.velocities, marks, i as int);
                lemma_column_sweep_step(before.points, now.points, next.points, marks, i as int);
                lemma_column_sweep_step(before.rigid_bodies, now.rigid_bodies, next.rigid_bodies, marks, i as int);
                lemma_column_sweep_step(before.collision_lists, now.collision_lists, next.collision_lists, marks, i as int);
                lemma_column_sweep_step(before.blocks_movement, now.blocks_movement, next.blocks_movement, marks, i as int);
                lemma_column_sweep_step(before.player_states, now.player_states, next.player_states, marks, i as int);
                lemma_column_sweep_step(before.entity_types, now.entity_types, next.entity_types, marks, i as int);
                lemma_column_sweep_step(before.marked_for_deletion, now.marked_for_deletion, next.marked_for_deletion, marks, i as int);
            }
            i += 1;
        }
    }

    /// Removes everything that entity `entity_index` holds.
    pub fn remove_components_for_entity(&mut self, entity_index: usize)
        ensures
            old(self)@.cleared(final(self)@, entity_index as int),
    {
        remove_component_for_entity(&mut self.names, entity_index);
        remove_component_for_entity(&mut self.sprites, entity_index);
        remove_component_for_entity(&mut self.healths, entity_index);
        remove_component_for_entity(&mut self.animations, entity_index);
        remove_component_for_entity(&mut self.animation_maps, entity_index);
        remove_component_for_entity(&mut self.positions, entity_index);
        remove_component_for_entity(&mut self.gravities, entity_index);
        remove_component_for_entity(&mut self.velocities, entity_index);
        remove_component_for_entity(&mut self.points, entity_index);
        remove_component_for_entity(&mut self.rigid_bodies, entity_index);
        remove_component_for_entity(&mut self.collision_lists, entity_index);
        remove_component_for_entity(&mut self.blocks_movement, entity_index);
        remove_component_for_entity(&mut self.player_states, entity_index);
        remove_component_for_entity(&mut self.entity_types, entity_index);
        remove_component_for_entity(&mut self.marked_for_deletion, entity_index);
    }
}

} // verus!
