//! What a tick hands to the screen: textured rectangles and lines of text.
use vstd::prelude::*;
use crate::components::{Animation, AnimationMap, Position, Sprite, slot};
use crate::systems::animation::{clip_index, find_clip};
use crate::tables::{ComponentVectors, Tables};
use crate::units::{moved, offset};

verus! {

/// A textured rectangle between two corners.
#[derive(Clone, Copy, Debug, PartialEq, Eq)]
pub struct Renderable {
    pub p1: [i64; 2],
    pub p2: [i64; 2],
    pub texture_id: usize,
    pub use_texture_size: bool,
    pub horiz_mirror: bool,
}

/// A line of text. The colour is red, green, blue and opacity, each a share of
/// one unit.
#[derive(Clone, Debug, PartialEq, Eq)]
pub struct RenderableText {
    pub color: [i64; 4],
    pub size: i64,
    pub text: String,
    pub x: i64,
    pub y: i64,
}

/// The rectangle that shows `sprite` at `position`.
pub open spec fn drawn(position: Position, sprite: Sprite, horiz_mirror: bool) -> Renderable {
    Renderable {
        p1: [position.x, position.y],
        p2: [
            moved(position.x as int, sprite.width_normalized as int) as i64,
            moved(position.y as int, sprite.height_normalized as int) as i64,
        ],
        texture_id: sprite.texture_id,
        use_texture_size: false,
        horiz_mirror,
    }
}

/// What has been drawn so far: the rectangles, and beside each its z.
pub type Drawing = (Seq<Renderable>, Seq<u32>);

/// Whether the z values fall (or stay) from each entry to the next.
pub open spec fn descending(z_buffer: Seq<u32>) -> bool {
    forall|i: int, j: int| 0 <= i <= j < z_buffer.len() ==> z_buffer[i] >= z_buffer[j]
}

/// The index, from `from` on, of the first entry with a z below `z`, or the
/// number of entries where there is none.
pub open spec fn insertion_index(z_buffer: Seq<u32>, z: u32, from: int) -> int
    decreases z_buffer.len() - from,
{
    if from < 0 || from >= z_buffer.len() {
        z_buffer.len() as int
    } else if z_buffer[from] < z {
        from
    } else {
        insertion_index(z_buffer, z, from + 1)
    }
}

/// The drawing with one more sprite. A sprite that is not to be rendered adds
/// nothing. Another goes in front of the first rectangle with a lower z, and
/// so behind all those with its own z.
pub open spec fn with_sprite(
    drawing: Drawing,
    position: Position,
    sprite: Sprite,
    horiz_mirror: bool,
) -> Drawing {
    if sprite.render {
        let at = insertion_index(drawing.1, sprite.z, 0);
        (
            drawing.0.insert(at, drawn(position, sprite, horiz_mirror)),
            drawing.1.insert(at, sprite.z),
        )
    } else {
        drawing
    }
}

/// The drawing with the sprite of an entity, if the entity has a position and
/// a sprite to show.
pub open spec fn with_entity(
    drawing: Drawing,
    position: Option<Position>,
    shown: Option<Sprite>,
    horiz_mirror: bool,
) -> Drawing {
    match (position, shown) {
        (Some(p), Some(s)) => with_sprite(drawing, p, s, horiz_mirror),
        _ => drawing,
    }
}

/// The frame that a clip shows, if its frame index is within its frames.
pub open spec fn frame_of(a: Animation) -> Option<Sprite> {
    if a.current_frame_index < a.sprites@.len() {
        Some(a.sprites@[a.current_frame_index as int])
    } else {
        None
    }
}

/// The frame that a set of clips shows: that of its selected clip.
pub open spec fn frame_of_set(m: AnimationMap) -> Option<Sprite> {
    match clip_index(m.clips@, m.current_animation_name@) {
        Some(i) => frame_of(m.clips@[i]),
        None => None,
    }
}

/// The drawing with the plain sprites of the first `n` entities.
pub open spec fn sprites_drawn(
    drawing: Drawing,
    positions: Seq<Option<Position>>,
    sprites: Seq<Option<Sprite>>,
    n: int,
) -> Drawing
    decreases n,
{
    if n <= 0 {
        drawing
    } else {
        with_entity(
            sprites_drawn(drawing, positions, sprites, n - 1),
            slot(positions, n - 1),
            slot(sprites, n - 1),
            false,
        )
    }
}

/// The drawing with the current frames of the first `n` entities' clips.
pub open spec fn animations_drawn(
    drawing: Drawing,
    positions: Seq<Option<Position>>,
    animations: Seq<Option<Animation>>,
    n: int,
) -> Drawing
    decreases n,
{
    if n <= 0 {
        drawing
    } else {
        with_entity(
            animations_drawn(drawing, positions, animations, n - 1),
            slot(positions, n - 1),
            match slot(animations, n - 1) {
                Some(a) => frame_of(a),
                None => None,
            },
            false,
        )
    }
}

/// The drawing with the current frames of the first `n` entities' clip sets.
pub open spec fn animation_maps_drawn(
    drawing: Drawing,
    positions: Seq<Option<Position>>,
    animation_maps: Seq<Option<AnimationMap>>,
    n: int,
) -> Drawing
    decreases n,
{
    if n <= 0 {
        drawing
    } else {
        with_entity(
            animation_maps_drawn(drawing, positions, animation_maps, n - 1),
            slot(positions, n - 1),
            match slot(animation_maps, n - 1) {
                Some(m) => frame_of_set(m),
                None => None,
            },
            match slot(animation_maps, n - 1) {
                Some(m) => m.horiz_mirror,
                None => false,
            },
        )
    }
}

/// The number of entities that two tables both reach.
pub open spec fn both_reach<A, B>(a: Seq<A>, b: Seq<B>) -> int {
    if a.len() < b.len() {
        a.len() as int
    } else {
        b.len() as int
    }
}

/// The world as it is drawn: first the plain sprites, then the clips, then the
/// clip sets, each in the order of the entities, every one put in by its z.
pub open spec fn world_drawn(tables: Tables) -> Drawing {
    let empty: Drawing = (Seq::empty(), Seq::empty());
    let first = match (tables.sprites, tables.positions) {
        (Some(sprites), Some(positions)) => sprites_drawn(
            empty,
            positions,
            sprites,
            both_reach(positions, sprites),
        ),
        _ => empty,
    };
    let second = match (tables.animations, tables.positions) {
        (Some(animations), Some(positions)) => animations_drawn(
            first,
            positions,
            animations,
            both_reach(positions, animations),
        ),
        _ => first,
    };
    match (tables.animation_maps, tables.positions) {
        (Some(animation_maps), Some(positions)) => animation_maps_drawn(
            second,
            positions,
            animation_maps,
            both_reach(positions, animation_maps),
        ),
        _ => second,
    }
}

/// Whether a line of text says `text` at the given place, size and colour.
pub open spec fn label_is(
    label: RenderableText,
    text: Seq<char>,
    x: i64,
    y: i64,
    size: i64,
    color: [i64; 4],
) -> bool {
    label.text@ == text && label.x == x && label.y == y && label.size == size && label.color
        == color
}

/// The search for the place of a new z ends within the list, from `from` on.
pub proof fn lemma_insertion_index_bounds(z_buffer: Seq<u32>, z: u32, from: int)
    requires
        0 <= from <= z_buffer.len(),
    ensures
        from <= insertion_index(z_buffer, z, from) <= z_buffer.len(),
        forall|i: int| from <= i < insertion_index(z_buffer, z, from) ==> z_buffer[i] >= z,
        insertion_index(z_buffer, z, from) < z_buffer.len() ==> z_buffer[insertion_index(
            z_buffer,
            z,
            from,
        )] < z,
    decreases z_buffer.len() - from,
{
    if from < z_buffer.len() && z_buffer[from] >= z {
        lemma_insertion_index_bounds(z_buffer, z, from + 1);
    }
}

/// One more sprite keeps a drawing in descending order of z, with one z
/// beside each rectangle.
pub proof fn lemma_with_sprite_descending(
    drawing: Drawing,
    position: Position,
    sprite: Sprite,
    horiz_mirror: bool,
)
    requires
        descending(drawing.1),
        drawing.0.len() == drawing.1.len(),
    ensures
        descending(with_sprite(drawing, position, sprite, horiz_mirror).1),
        with_sprite(drawing, position, sprite, horiz_mirror).0.len() == with_sprite(
            drawing,
            position,
            sprite,
            horiz_mirror,
        ).1.len(),
{
    if sprite.render {
        let zs = drawing.1;
        let at = insertion_index(zs, sprite.z, 0);
        lemma_insertion_index_bounds(zs, sprite.z, 0);
        let after = zs.insert(at, sprite.z);
        assert forall|i: int, j: int| 0 <= i <= j < after.len() implies after[i] >= after[j] by {
            if i < at {
                assert(after[i] == zs[i]);
            } else if i > at {
                assert(after[i] == zs[i - 1]);
            }
            if j < at {
                assert(after[j] == zs[j]);
            } else if j > at {
                assert(after[j] == zs[j - 1]);
                assert(zs[at] >= zs[j - 1]);
            }
        }
    }
}

/// Every pass keeps a drawing in descending order of z.
pub proof fn lemma_passes_descending(
    drawing: Drawing,
    positions: Seq<Option<Position>>,
    sprites: Seq<Option<Sprite>>,
    animations: Seq<Option<Animation>>,
    animation_maps: Seq<Option<AnimationMap>>,
    n: int,
)
    requires
        descending(drawing.1),
        drawing.0.len() == drawing.1.len(),
    ensures
        descending(sprites_drawn(drawing, positions, sprites, n).1),
        sprites_drawn(drawing, positions, sprites, n).0.len() == sprites_drawn(
            drawing,
            positions,
            sprites,
            n,
        ).1.len(),
        descending(animations_drawn(drawing, positions, animations, n).1),
        animations_drawn(drawing, positions, animations, n).0.len() == animations_drawn(
            drawing,
            positions,
            animations,
            n,
        ).1.len(),
        descending(animation_maps_drawn(drawing, positions, animation_maps, n).1),
        animation_maps_drawn(drawing, positions, animation_maps, n).0.len()
            == animation_maps_drawn(drawing, positions, animation_maps, n).1.len(),
    decreases n,
{
    if n > 0 {
        lemma_passes_descending(drawing, positions, sprites, animations, animation_maps, n - 1);
        match (slot(positions, n - 1), slot(sprites, n - 1)) {
            (Some(p), Some(s)) => {
                lemma_with_sprite_descending(
                    sprites_drawn(drawing, positions, sprites, n - 1),
                    p,
                    s,
                    false,
                );
            },
            _ => {},
        }
        match (slot(positions, n - 1), slot(animations, n - 1)) {
            (Some(p), Some(a)) => {
                if frame_of(a) is Some {
                    lemma_with_sprite_descending(
                        animations_drawn(drawing, positions, animations, n - 1),
                        p,
                        frame_of(a).unwrap(),
                        false,
                    );
                }
            },
            _ => {},
        }
        match (slot(positions, n - 1), slot(animation_maps, n - 1)) {
            (Some(p), Some(m)) => {
                if frame_of_set(m) is Some {
                    lemma_with_sprite_descending(
                        animation_maps_drawn(drawing, positions, animation_maps, n - 1),
                        p,
                        frame_of_set(m).unwrap(),
                        m.horiz_mirror,
                    );
                }
            },
            _ => {},
        }
    }
}

/// The world is drawn in descending order of z: a rectangle with a higher z
/// comes before every rectangle with a lower one.
pub proof fn lemma_world_drawn_descending(tables: Tables)
    ensures
        descending(world_drawn(tables).1),
        world_drawn(tables).0.len() == world_drawn(tables).1.len(),
{
    let empty: Drawing = (Seq::empty(), Seq::empty());
    let none_s = Seq::<Option<Sprite>>::empty();
    let none_a = Seq::<Option<Animation>>::empty();
    let none_m = Seq::<Option<AnimationMap>>::empty();
    let first = match (tables.sprites, tables.positions) {
        (Some(sprites), Some(positions)) => {
            lemma_passes_descending(
                empty,
                positions,
                sprites,
                none_a,
                none_m,
                both_reach(positions, sprites),
            );
            sprites_drawn(empty, positions, sprites, both_reach(positions, sprites))
        },
        _ => empty,
    };
    let second = match (tables.animations, tables.positions) {
        (Some(animations), Some(positions)) => {
            lemma_passes_descending(
                first,
                positions,
                none_s,
                animations,
                none_m,
                both_reach(positions, animations),
            );
            animations_drawn(first, positions, animations, both_reach(positions, animations))
        },
        _ => first,
    };
    match (tables.animation_maps, tables.positions) {
        (Some(animation_maps), Some(positions)) => {
            lemma_passes_descending(
                second,
                positions,
                none_s,
                none_a,
                animation_maps,
                both_reach(positions, animation_maps),
            );
        },
        _ => {},
    }
}

/// Finds the place of a new z in a list of falling z values.
pub fn find_insertion_index(z_buffer: &Vec<u32>, z: u32) -> (at: usize)
    ensures
        at as int == insertion_index(z_buffer@, z, 0),
        at <= z_buffer@.len(),
{
    let mut i: usize = 0;
    while i < z_buffer.len()
        invariant
            i <= z_buffer@.len(),
            insertion_index(z_buffer@, z, 0) == insertion_index(z_buffer@, z, i as int),
        decreases z_buffer@.len() - i,
    {
        if z_buffer[i] < z {
            return i;
        }
        i += 1;
    }
    i
}

/// Puts a sprite into the drawing, by its z.
pub fn render_sprite(
    to_return: &mut Vec<Renderable>,
    z_buffer: &mut Vec<u32>,
    position: &Position,
    sprite: &Sprite,
    horiz_mirror: bool,
)
    requires
        old(to_return)@.len() == old(z_buffer)@.len(),
    ensures
        (final(to_return)@, final(z_buffer)@) == with_sprite(
            (old(to_return)@, old(z_buffer)@),
            *position,
            *sprite,
            horiz_mirror,
        ),
        final(to_return)@.len() == final(z_buffer)@.len(),
{
    if sprite.render {
        let new_renderable = Renderable {
            p1: [position.x, position.y],
            p2: [
                offset(position.x, sprite.width_normalized as i128),
                offset(position.y, sprite.height_normalized as i128),
            ],
            texture_id: sprite.texture_id,
            use_texture_size: false,
            horiz_mirror,
        };
        let new_index: usize = find_insertion_index(z_buffer, sprite.z);
        to_return.insert(new_index, new_renderable);
        z_buffer.insert(new_index, sprite.z);
    }
}

fn current_frame(animation: &Animation) -> (frame: Option<Sprite>)
    ensures
        frame == frame_of(*animation),
{
    if animation.current_frame_index < animation.sprites.len() {
        Some(animation.sprites[animation.current_frame_index])
    } else {
        None
    }
}

/// Builds the list of rectangles for everything in the world that is shown.
pub fn get_world_renderables(tables: &ComponentVectors) -> (to_return: Vec<Renderable>)
    ensures
        to_return@ == world_drawn(tables@).0,
{
    let mut to_return: Vec<Renderable> = Vec::new();
    let mut z_buffer: Vec<u32> = Vec::new();
    if let Some(positions) = &tables.positions {
        if let Some(sprites) = &tables.sprites {
            let n: usize = if positions.len() < sprites.len() {
                positions.len()
            } else {
                sprites.len()
            };
            let ghost start: Drawing = (to_return@, z_buffer@);
            let mut i: usize = 0;
            while i < n
                invariant
                    i <= n,
                    n as int == both_reach(positions@, sprites@),
                    to_return@.len() == z_buffer@.len(),
                    (to_return@, z_buffer@) == sprites_drawn(start, positions@, sprites@, i as int),
                decreases n - i,
            {
                if let Some(position) = &positions[i] {
                    if let Some(sprite) = &sprites[i] {
                        render_sprite(&mut to_return, &mut z_buffer, position, sprite, false);
                    }
                }
                i += 1;
            }
        }
        if let Some(animations) = &tables.animations {
            let n: usize = if positions.len() < animations.len() {
                positions.len()
            } else {
                animations.len()
            };
            let ghost start: Drawing = (to_return@, z_buffer@);
            let mut i: usize = 0;
            while i < n
                invariant
                    i <= n,
                    n as int == both_reach(positions@, animations@),
                    to_return@.len() == z_buffer@.len(),
                    (to_return@, z_buffer@) == animations_drawn(
                        start,
                        positions@,
                        animations@,
                        i as int,
                    ),
                decreases n - i,
            {
                if let Some(position) = &positions[i] {
                    if let Some(animation) = &animations[i] {
                        if let Some(sprite) = current_frame(animation) {
                            render_sprite(&mut to_return, &mut z_buffer, position, &sprite, false);
                        }
                    }
                }
                i += 1;
            }
        }
        if let Some(animation_maps) = &tables.animation_maps {
            let n: usize = if positions.len() < animation_maps.len() {
                positions.len()
            } else {
                animation_maps.len()
            };
            let ghost start: Drawing = (to_return@, z_buffer@);
            let mut i: usize = 0;
            while i < n
                invariant
                    i <= n,
                    n as int == both_reach(positions@, animation_maps@),
                    to_return@.len() == z_buffer@.len(),
                    (to_return@, z_buffer@) == animation_maps_drawn(
                        start,
                        positions@,
                        animation_maps@,
                        i as int,
                    ),
                decreases n - i,
            {
                if let Some(position) = &positions[i] {
                    if let Some(animation_map) = &animation_maps[i] {
                        let found = find_clip(
                            &animation_map.clips,
                            &animation_map.current_animation_name,
                        );
                        if let Some(at) = found {
                            if let Some(sprite) = current_frame(&animation_map.clips[at]) {
                                render_sprite(
                                    &mut to_return,
                                    &mut z_buffer,
                                    position,
                                    &sprite,
                                    animation_map.horiz_mirror,
                                );
                            }
                        }
                    }
                }
                i += 1;
            }
        }
    }
    to_return
}

/// A line of text at a place, in a size and a colour.
pub fn label(text: String, x: i64, y: i64, size: i64, color: [i64; 4]) -> (r: RenderableText)
    ensures
        label_is(r, text@, x, y, size, color),
{
    RenderableText { color, size, text, x, y }
}

} // verus!
