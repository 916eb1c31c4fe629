use vstd::prelude::*;
use crate::components::{Animation, AnimationMap, Velocity, slot};
use crate::systems::animation::{clip_index, find_clip, first_named, lemma_first_named_bounds};

verus! {

/// A clip at rest or at its start: first frame, no time counted.
pub open spec fn rewound(a: Animation, running: bool) -> Animation {
    Animation { running, current_frame_index: 0, time_since_last_frame: 0, ..a }
}

/// The clips after the selected one, if there is one, was stopped and rewound.
pub open spec fn clips_with_current_disabled(clips: Seq<Animation>, current: Seq<char>) -> Seq<
    Animation,
> {
    match clip_index(clips, current) {
        Some(i) => clips.update(i, rewound(clips[i], false)),
        None => clips,
    }
}

/// The clips after the one called `name`, if there is one, was rewound and started.
pub open spec fn clips_with_enabled(clips: Seq<Animation>, name: Seq<char>) -> Seq<Animation> {
    match clip_index(clips, name) {
        Some(i) => clips.update(i, rewound(clips[i], true)),
        None => clips,
    }
}

/// The clips after a request to play `name`. Where `name` is selected already
/// nothing changes. Otherwise the selected clip is stopped and the clip called
/// `name` started.
pub open spec fn clips_playing(clips: Seq<Animation>, current: Seq<char>, name: Seq<char>) -> Seq<
    Animation,
> {
    if current == name {
        clips
    } else {
        clips_with_enabled(clips_with_current_disabled(clips, current), name)
    }
}

/// The selected name after a request to play `name`: `name` where a clip of
/// that name exists, else the name selected before.
pub open spec fn name_playing(clips: Seq<Animation>, current: Seq<char>, name: Seq<char>) -> Seq<
    char,
> {
    if clip_index(clips, name) is Some {
        name
    } else {
        current
    }
}

/// The clip that a velocity asks for: a jump while rising, a fall while
/// sinking, a run while moving sideways only, else standing idle.
pub open spec fn wanted_clip(v: Velocity) -> Seq<char> {
    if v.vel_y < 0 {
        "jump"@
    } else if v.vel_y > 0 {
        "fall"@
    } else if v.vel_x != 0 {
        "running_right"@
    } else {
        "idle"@
    }
}

/// Whether the sprite is mirrored: it faces left while the player moves left,
/// right while it moves right or only up or down, and keeps its side at rest.
pub open spec fn wanted_mirror(v: Velocity, mirrored: bool) -> bool {
    if v.vel_x < 0 {
        true
    } else if v.vel_x > 0 || v.vel_y != 0 {
        false
    } else {
        mirrored
    }
}

/// Whether `after` is the player's clip set `m` once it shows velocity `v`.
pub open spec fn shows_velocity(m: AnimationMap, v: Velocity, after: AnimationMap) -> bool {
    &&& after.clips@ == clips_playing(m.clips@, m.current_animation_name@, wanted_clip(v))
    &&& after.current_animation_name@ == name_playing(
        m.clips@,
        m.current_animation_name@,
        wanted_clip(v),
    )
    &&& after.horiz_mirror == wanted_mirror(v, m.horiz_mirror)
}

/// Stops and rewinds the selected clip, if there is one.
pub fn disable_current_animation(animation_map: &mut AnimationMap)
    ensures
        final(animation_map).clips@ == clips_with_current_disabled(
            old(animation_map).clips@,
            old(animation_map).current_animation_name@,
        ),
        final(animation_map).current_animation_name == old(animation_map).current_animation_name,
        final(animation_map).horiz_mirror == old(animation_map).horiz_mirror,
{
    let found = find_clip(&animation_map.clips, &animation_map.current_animation_name);
    if let Some(at) = found {
        let animation = &mut animation_map.clips[at];
        animation.running = false;
        animation.current_frame_index = 0;
        animation.time_since_last_frame = 0;
    }
}

/// Rewinds, starts and selects the clip called `new_animation_name`, if there is one.
pub fn enable_animation(animation_map: &mut AnimationMap, new_animation_name: &String)
    ensures
        final(animation_map).clips@ == clips_with_enabled(
            old(animation_map).clips@,
            new_animation_name@,
        ),
        final(animation_map).current_animation_name@ == name_playing(
            old(animation_map).clips@,
            old(animation_map).current_animation_name@,
            new_animation_name@,
        ),
        final(animation_map).horiz_mirror == old(animation_map).horiz_mirror,
{
    let found = find_clip(&animation_map.clips, new_animation_name);
    if let Some(at) = found {
        let animation = &mut animation_map.clips[at];
        animation.running = true;
        animation.current_frame_index = 0;
        animation.time_since_last_frame = 0;
        animation_map.current_animation_name = new_animation_name.clone();
    }
}

/// Stopping and rewinding the selected clip renames no clip, so every name is
/// found where it was found before.
pub proof fn lemma_disable_keeps_names(clips: Seq<Animation>, current: Seq<char>, name: Seq<char>)
    ensures
        clip_index(clips_with_current_disabled(clips, current), name) == clip_index(clips, name),
{
    let after = clips_with_current_disabled(clips, current);
    lemma_first_named_bounds(clips, current, 0);
    lemma_same_names(clips, after, name, 0);
}

/// Two sequences of clips that agree on every name agree on where a name is
/// first found.
pub proof fn lemma_same_names(a: Seq<Animation>, b: Seq<Animation>, name: Seq<char>, from: int)
    requires
        a.len() == b.len(),
        forall|i: int| 0 <= i < a.len() ==> a[i].animation_name == b[i].animation_name,
        0 <= from,
    ensures
        first_named(a, name, from) == first_named(b, name, from),
    decreases a.len() - from,
{
    if from < a.len() {
        lemma_same_names(a, b, name, from + 1);
    }
}

/// Whether `after` is the table of clip sets `before` once the player's set
/// shows the player's velocity. Without a velocity or a set for the player
/// nothing changes.
pub open spec fn clip_selected(
    velocities: Seq<Option<Velocity>>,
    before: Seq<Option<AnimationMap>>,
    after: Seq<Option<AnimationMap>>,
    player_index: usize,
) -> bool {
    &&& after.len() == before.len()
    &&& forall|i: int|
        0 <= i < before.len() && i != player_index ==> #[trigger] after[i] == before[i]
    &&& match (slot(velocities, player_index as int), slot(before, player_index as int)) {
        (Some(v), Some(m)) => slot(after, player_index as int) is Some && shows_velocity(
            m,
            v,
            slot(after, player_index as int).unwrap(),
        ),
        _ => after == before,
    }
}

fn ensure_correct_animation_playing(animation_map: &mut AnimationMap, animation_name: &str)
    ensures
        final(animation_map).clips@ == clips_playing(
            old(animation_map).clips@,
            old(animation_map).current_animation_name@,
            animation_name@,
        ),
        final(animation_map).current_animation_name@ == name_playing(
            old(animation_map).clips@,
            old(animation_map).current_animation_name@,
            animation_name@,
        ),
        final(animation_map).horiz_mirror == old(animation_map).horiz_mirror,
{
    let name = String::from_str(animation_name);
    if animation_map.current_animation_name != name {
        proof {
            lemma_disable_keeps_names(
                animation_map.clips@,
                animation_map.current_animation_name@,
                name@,
            );
        }
        disable_current_animation(animation_map);
        enable_animation(animation_map, &name);
    }
}

/// Selects the player's clip by the player's velocity. Without a velocity or a
/// clip set for the player nothing happens.
pub fn player_animation_system(
    velocity_component_vector: &mut Vec<Option<Velocity>>,
    animation_map_component_vector: &mut Vec<Option<AnimationMap>>,
    player_index: usize,
)
    ensures
        final(velocity_component_vector)@ == old(velocity_component_vector)@,
        clip_selected(
            old(velocity_component_vector)@,
            old(animation_map_component_vector)@,
            final(animation_map_component_vector)@,
            player_index,
        ),
{
    if player_index < velocity_component_vector.len() && player_index
        < animation_map_component_vector.len() {
        if let Some(velocity) = velocity_component_vector[player_index] {
            match &mut animation_map_component_vector[player_index] {
                Some(animation_map) => {
                    let vel_x: i64 = velocity.vel_x;
                    let vel_y: i64 = velocity.vel_y;
                    if vel_y < 0 {
                        ensure_correct_animation_playing(animation_map, "jump");
                        animation_map.horiz_mirror = vel_x < 0;
                    } else if vel_y > 0 {
                        ensure_correct_animation_playing(animation_map, "fall");
                        animation_map.horiz_mirror = vel_x < 0;
                    } else if vel_x > 0 {
                        ensure_correct_animation_playing(animation_map, "running_right");
                        animation_map.horiz_mirror = false;
                    } else if vel_x < 0 {
                        ensure_correct_animation_playing(animation_map, "running_right");
                        animation_map.horiz_mirror = true;
                    } else {
                        ensure_correct_animation_playing(animation_map, "idle");
                    }
                },
                None => {},
            }
        }
    }
    proof {
        if slot(old(velocity_component_vector)@, player_index as int) is None || slot(
            old(animation_map_component_vector)@,
            player_index as int,
        ) is None {
            assert(animation_map_component_vector@ =~= old(animation_map_component_vector)@);
        }
    }
}

} // verus!
