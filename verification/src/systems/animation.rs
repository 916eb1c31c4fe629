use vstd::prelude::*;
use vstd::arithmetic::div_mod::lemma_mod_pos_bound;
use crate::components::{Animation, AnimationMap};
use crate::tables::column_view;
use crate::units::{elapsed_millis, tick_millis};

verus! {

/// Whether time moves a clip at all: it runs, it has frames, and a frame lasts
/// some time.
pub open spec fn plays(a: Animation) -> bool {
    a.running && a.sprites@.len() > 0 && a.time_per_frame_ms > 0
}

/// A clip after `millis` more milliseconds. The time is added to what the
/// current frame has been shown for; each full frame time in the sum moves the
/// clip one frame on, round the end of the sequence, and the rest is kept.
pub open spec fn advanced(a: Animation, millis: int) -> Animation {
    if plays(a) {
        let total = a.time_since_last_frame + millis;
        Animation {
            time_since_last_frame: (total % (a.time_per_frame_ms as int)) as u32,
            current_frame_index: ((a.current_frame_index + total / (a.time_per_frame_ms as int)) % (
            a.sprites@.len() as int)) as usize,
            ..a
        }
    } else {
        a
    }
}

/// A slot of the clip table after `millis` more milliseconds.
pub open spec fn advanced_entry(entry: Option<Animation>, millis: int) -> Option<Animation> {
    match entry {
        Some(a) => Some(advanced(a, millis)),
        None => None,
    }
}

/// The index of the first clip from `from` on that is called `name`, or the
/// number of clips where there is none.
pub open spec fn first_named(clips: Seq<Animation>, name: Seq<char>, from: int) -> int
    decreases clips.len() - from,
{
    if from < 0 || from >= clips.len() {
        clips.len() as int
    } else if clips[from].animation_name@ == name {
        from
    } else {
        first_named(clips, name, from + 1)
    }
}

/// A search from `from` ends at `from` or later, and at the latest at the end.
pub proof fn lemma_first_named_bounds(clips: Seq<Animation>, name: Seq<char>, from: int)
    requires
        0 <= from <= clips.len(),
    ensures
        from <= first_named(clips, name, from) <= clips.len(),
    decreases clips.len() - from,
{
    if from < clips.len() && clips[from].animation_name@ != name {
        lemma_first_named_bounds(clips, name, from + 1);
    }
}

/// The index of the clip called `name`, if there is one.
pub open spec fn clip_index(clips: Seq<Animation>, name: Seq<char>) -> Option<int> {
    if first_named(clips, name, 0) < clips.len() {
        Some(first_named(clips, name, 0))
    } else {
        None
    }
}

/// A set of clips after `millis` more milliseconds: its selected clip has
/// advanced, and nothing else has changed.
pub open spec fn advanced_clips(m: AnimationMap, millis: int) -> Seq<Animation> {
    match clip_index(m.clips@, m.current_animation_name@) {
        Some(i) => m.clips@.update(i, advanced(m.clips@[i], millis)),
        None => m.clips@,
    }
}

/// Whether `after` is the slot `before` of the table of clip sets, `millis`
/// milliseconds later: the selected clip has advanced and nothing else changed.
pub open spec fn advanced_set(before: Option<AnimationMap>, after: Option<AnimationMap>, millis: int) -> bool {
    match before {
        Some(m) => after is Some && after.unwrap().clips@ == advanced_clips(m, millis)
            && after.unwrap().horiz_mirror == m.horiz_mirror
            && after.unwrap().current_animation_name == m.current_animation_name,
        None => after is None,
    }
}

/// A table of clips after `millis` more milliseconds: every clip in it has
/// advanced. No table stays no table.
pub open spec fn animations_advanced(
    before: Option<Seq<Option<Animation>>>,
    after: Option<Seq<Option<Animation>>>,
    millis: int,
) -> bool {
    match before {
        Some(b) => after is Some && after.unwrap().len() == b.len() && forall|i: int|
            0 <= i < b.len() ==> #[trigger] after.unwrap()[i] == advanced_entry(b[i], millis),
        None => after is None,
    }
}

/// A table of clip sets after `millis` more milliseconds: in every set the
/// selected clip has advanced. No table stays no table.
pub open spec fn animation_maps_advanced(
    before: Option<Seq<Option<AnimationMap>>>,
    after: Option<Seq<Option<AnimationMap>>>,
    millis: int,
) -> bool {
    match before {
        Some(b) => after is Some && after.unwrap().len() == b.len() && forall|i: int|
            0 <= i < b.len() ==> advanced_set(b[i], #[trigger] after.unwrap()[i], millis),
        None => after is None,
    }
}

/// Finds the clip called `name`: the first one of that name.
pub fn find_clip(clips: &Vec<Animation>, name: &String) -> (found: Option<usize>)
    ensures
        match found {
            Some(i) => clip_index(clips@, name@) == Some(i as int),
            None => clip_index(clips@, name@) is None,
        },
        found is Some ==> found.unwrap() < clips@.len(),
{
    let mut i: usize = 0;
    while i < clips.len()
        invariant
            i <= clips@.len(),
            first_named(clips@, name@, 0) == first_named(clips@, name@, i as int),
        decreases clips@.len() - i,
    {
        if clips[i].animation_name == *name {
            return Some(i);
        }
        i += 1;
    }
    None
}

/// Up to where a search from `from` ends, no clip is called `name`; where it
/// ends within the clips, the clip there is called `name`.
pub proof fn lemma_first_named_is_first(clips: Seq<Animation>, name: Seq<char>, from: int)
    requires
        0 <= from <= clips.len(),
    ensures
        forall|j: int|
            from <= j < first_named(clips, name, from) ==> (#[trigger] clips[j]).animation_name@
                != name,
        first_named(clips, name, from) < clips.len() ==> clips[first_named(
            clips,
            name,
            from,
        )].animation_name@ == name,
    decreases clips.len() - from,
{
    lemma_first_named_bounds(clips, name, from);
    if from < clips.len() && clips[from].animation_name@ != name {
        lemma_first_named_bounds(clips, name, from + 1);
        lemma_first_named_is_first(clips, name, from + 1);
    }
}

impl AnimationMap {
    /// No two clips share a name, as in a map from names to clips.
    pub open spec fn wf(&self) -> bool {
        forall|i: int, j: int|
            0 <= i < j < self.clips@.len() ==> self.clips@[i].animation_name@
                != self.clips@[j].animation_name@
    }

    /// The clip called `name`, if there is one.
    pub open spec fn clip(&self, name: Seq<char>) -> Option<Animation> {
        match clip_index(self.clips@, name) {
            Some(i) => Some(self.clips@[i]),
            None => None,
        }
    }

    /// A set without clips, with no clip selected.
    pub fn new() -> (set: AnimationMap)
        ensures
            set.clips@.len() == 0,
            set.wf(),
            !set.horiz_mirror,
            set.current_animation_name@.len() == 0,
    {
        AnimationMap { clips: Vec::new(), horiz_mirror: false, current_animation_name: String::new() }
    }

    /// Puts a clip into the set under its name, in place of the clip of that
    /// name if there is one, else behind the others.
    pub fn insert(&mut self, animation: Animation)
        ensures
            final(self).clips@ == match clip_index(old(self).clips@, animation.animation_name@) {
                Some(i) => old(self).clips@.update(i, animation),
                None => old(self).clips@.push(animation),
            },
            final(self).clip(animation.animation_name@) == Some(animation),
            final(self).horiz_mirror == old(self).horiz_mirror,
            final(self).current_animation_name == old(self).current_animation_name,
            old(self).wf() ==> final(self).wf(),
    {
        let found = find_clip(&self.clips, &animation.animation_name);
        proof {
            lemma_first_named_is_first(self.clips@, animation.animation_name@, 0);
        }
        let ghost before = self.clips@;
        let ghost name = animation.animation_name@;
        match found {
            Some(at) => {
                self.clips[at] = animation;
            },
            None => {
                self.clips.push(animation);
            },
        }
        proof {
            lemma_first_named_is_first(self.clips@, name, 0);
            lemma_first_named_bounds(self.clips@, name, 0);
            let now = first_named(self.clips@, name, 0);
            match found {
                Some(at) => {
                    assert(self.clips@[at as int].animation_name@ == name);
                    if now < at {
                        assert(before[now].animation_name@ == self.clips@[now].animation_name@);
                    }
                },
                None => {
                    assert(self.clips@[before.len() as int].animation_name@ == name);
                    if now < before.len() {
                        assert(before[now].animation_name@ == self.clips@[now].animation_name@);
                    }
                },
            }
        }
    }

    /// The clip called `name`, if there is one.
    pub fn get(&self, name: &String) -> (found: Option<&Animation>)
        ensures
            match found {
                Some(animation) => self.clip(name@) == Some(*animation),
                None => self.clip(name@) is None,
            },
    {
        match find_clip(&self.clips, name) {
            Some(at) => Some(&self.clips[at]),
            None => None,
        }
    }
}

/// Lets `millis` milliseconds pass for a clip.
pub fn advance(animation: &mut Animation, millis: u32)
    ensures
        *final(animation) == advanced(*old(animation), millis as int),
{
    if animation.running && animation.sprites.len() > 0 && animation.time_per_frame_ms > 0 {
        let per_frame: u64 = animation.time_per_frame_ms as u64;
        let frames: u128 = animation.sprites.len() as u128;
        let total: u64 = animation.time_since_last_frame as u64 + millis as u64;
        let steps: u64 = total / per_frame;
        let rest: u64 = total % per_frame;
        let reached: u128 = (animation.current_frame_index as u128 + steps as u128) % frames;
        proof {
            lemma_mod_pos_bound(total as int, per_frame as int);
            lemma_mod_pos_bound(animation.current_frame_index as int + steps as int, frames as int);
        }
        animation.time_since_last_frame = rest as u32;
        animation.current_frame_index = reached as usize;
    }
}

/// Advances every running clip, and in every set of clips the selected one.
pub fn animation_system(
    animation_component_vector_opt: &mut Option<Vec<Option<Animation>>>,
    animation_map_component_vector_opt: &mut Option<Vec<Option<AnimationMap>>>,
    time_passed: u128,
)
    ensures
        animations_advanced(
            column_view(*old(animation_component_vector_opt)),
            column_view(*final(animation_component_vector_opt)),
            elapsed_millis(time_passed),
        ),
        animation_maps_advanced(
            column_view(*old(animation_map_component_vector_opt)),
            column_view(*final(animation_map_component_vector_opt)),
            elapsed_millis(time_passed),
        ),
{
    let millis: u32 = tick_millis(time_passed);
    match animation_component_vector_opt {
        Some(animations) => {
            let ghost before = animations@;
            let n: usize = animations.len();
            let mut i: usize = 0;
            while i < n
                invariant
                    i <= n,
                    n == before.len(),
                    animations@.len() == n,
                    forall|j: int|
                        0 <= j < i ==> #[trigger] animations@[j] == advanced_entry(
                            before[j],
                            millis as int,
                        ),
                    forall|j: int| i <= j < n ==> #[trigger] animations@[j] == before[j],
                decreases n - i,
            {
                match &mut animations[i] {
                    Some(animation) => {
                        advance(animation, millis);
                    },
                    None => {},
                }
                i += 1;
            }
        },
        None => {},
    }
    match animation_map_component_vector_opt {
        Some(animation_maps) => {
            let ghost before = animation_maps@;
            let n: usize = animation_maps.len();
            let mut i: usize = 0;
            while i < n
                invariant
                    i <= n,
                    n == before.len(),
                    animation_maps@.len() == n,
                    forall|j: int|
                        0 <= j < i ==> advanced_set(
                            before[j],
                            #[trigger] animation_maps@[j],
                            millis as int,
                        ),
                    forall|j: int| i <= j < n ==> #[trigger] animation_maps@[j] == before[j],
                decreases n - i,
            {
                match &mut animation_maps[i] {
                    Some(animation_map) => {
                        let found = find_clip(
                            &animation_map.clips,
                            &animation_map.current_animation_name,
                        );
                        if let Some(at) = found {
                            advance(&mut animation_map.clips[at], millis);
                        }
                    },
                    None => {},
                }
                i += 1;
            }
        },
        None => {},
    }
}

} // verus!
