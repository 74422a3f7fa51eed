//! The editor of animations: its toolbar, its list of tracks, and the
//! animations themselves as far as the editor reads them.

pub mod curve;
pub mod data;
pub mod thumb;
pub mod toolbar;
pub mod track;

use crate::handle::Handle;
use crate::message::Number;
use vstd::prelude::*;

verus! {

/// An animation, as far as the editor reads it.
#[derive(Clone, Debug, PartialEq, Eq)]
pub struct Animation {
    pub handle: Handle,
    pub name: String,
    pub enabled: bool,
    pub length: Number,
    pub speed: Number,
    pub time_position: Number,
    /// The nodes that the tracks of the animation move.
    pub targets: Vec<Handle>,
}

pub struct AnimationView {
    pub handle: Handle,
    pub name: Seq<char>,
    pub enabled: bool,
    pub length: Number,
    pub speed: Number,
    pub time_position: Number,
    pub targets: Seq<Handle>,
}

impl View for Animation {
    type V = AnimationView;

    open spec fn view(&self) -> AnimationView {
        AnimationView {
            handle: self.handle,
            name: self.name@,
            enabled: self.enabled,
            length: self.length,
            speed: self.speed,
            time_position: self.time_position,
            targets: self.targets@,
        }
    }
}

impl Animation {
    /// Sets the animation back to its start.
    pub fn rewind(&mut self)
        ensures
            final(self)@ == (AnimationView { time_position: Number::zero_spec(), ..old(self)@ }),
    {
        self.time_position = Number::zero();
    }

    pub fn set_enabled(&mut self, enabled: bool)
        ensures
            final(self)@ == (AnimationView { enabled, ..old(self)@ }),
    {
        self.enabled = enabled;
    }

    pub fn set_time_position(&mut self, time: Number)
        ensures
            final(self)@ == (AnimationView { time_position: time, ..old(self)@ }),
    {
        self.time_position = time;
    }
}

/// Whether `k` is the first place in `s` of an animation named by `h`.
pub open spec fn is_place(s: Seq<AnimationView>, h: Handle, k: int) -> bool {
    &&& 0 <= k < s.len()
    &&& s[k].handle == h
    &&& forall|j: int| 0 <= j < k ==> s[j].handle != h
}

/// The first place in `s` of an animation named by `h`, if there is one.
pub open spec fn place(s: Seq<AnimationView>, h: Handle) -> Option<int> {
    if exists|k: int| is_place(s, h, k) {
        Some(choose|k: int| is_place(s, h, k))
    } else {
        None
    }
}

/// Letting one animation play alone moves no animation and renames none.
pub proof fn lemma_place_solo(s: Seq<AnimationView>, selected: Handle, h: Handle)
    ensures
        place(AnimationContainer::solo(s, selected), h) == place(s, h),
{
    let t = AnimationContainer::solo(s, selected);
    assert forall|k: int| is_place(t, h, k) == is_place(s, h, k) by {
        if 0 <= k < s.len() {
            assert(t[k].handle == s[k].handle);
            if is_place(s, h, k) {
                assert forall|j: int| 0 <= j < k implies t[j].handle != h by {
                    assert(t[j].handle == s[j].handle);
                }
            }
            if is_place(t, h, k) {
                assert forall|j: int| 0 <= j < k implies s[j].handle != h by {
                    assert(t[j].handle == s[j].handle);
                }
            }
        }
    }
    if exists|k: int| is_place(s, h, k) {
        let a = choose|k: int| is_place(s, h, k);
        let b = choose|k: int| is_place(t, h, k);
        assert(is_place(t, h, a));
        assert(is_place(s, h, b));
    }
}

/// The animations of one animation player, in their order.
#[derive(Clone, Debug, PartialEq, Eq)]
pub struct AnimationContainer {
    pub animations: Vec<Animation>,
}

impl View for AnimationContainer {
    type V = Seq<AnimationView>;

    open spec fn view(&self) -> Seq<AnimationView> {
        self.animations@.map_values(|a: Animation| a@)
    }
}

impl AnimationContainer {
    /// The place of the animation that `handle` names, if it names one.
    pub fn find(&self, handle: Handle) -> (r: Option<usize>)
        ensures
            match r {
                Some(k) => place(self@, handle) == Some(k as int),
                None => place(self@, handle) is None,
            },
            r matches Some(k) ==> k < self.animations@.len(),
    {
        let mut k: usize = 0;
        while k < self.animations.len()
            invariant
                0 <= k <= self.animations@.len(),
                forall|j: int| 0 <= j < k ==> self@[j].handle != handle,
            decreases self.animations@.len() - k,
        {
            if self.animations[k].handle == handle {
                proof {
                    assert(is_place(self@, handle, k as int));
                    let c = choose|c: int| is_place(self@, handle, c);
                    assert(is_place(self@, handle, c));
                }
                return Some(k);
            }
            k += 1;
        }
        proof {
            assert forall|c: int| !is_place(self@, handle, c) by {
                if 0 <= c < self@.len() {
                    assert(self@[c].handle != handle);
                }
            }
        }
        None
    }

    /// The animations with the animation at `k` replaced by `a`.
    pub open spec fn with(s: Seq<AnimationView>, k: int, a: AnimationView) -> Seq<AnimationView> {
        s.update(k, a)
    }

    /// Lets the animation at `k` play, or not.
    pub fn set_enabled(&mut self, k: usize, enabled: bool)
        requires
            k < old(self)@.len(),
        ensures
            final(self)@ == old(self)@.update(
                k as int,
                AnimationView { enabled, ..old(self)@[k as int] },
            ),
    {
        let ghost before = self@;
        self.animations[k].enabled = enabled;
        proof {
            assert(self@ =~= before.update(
                k as int,
                AnimationView { enabled, ..before[k as int] },
            ));
        }
    }

    /// Sets the animation at `k` to a time.
    pub fn set_time_position(&mut self, k: usize, time: Number)
        requires
            k < old(self)@.len(),
        ensures
            final(self)@ == old(self)@.update(
                k as int,
                AnimationView { time_position: time, ..old(self)@[k as int] },
            ),
    {
        let ghost before = self@;
        self.animations[k].time_position = time;
        proof {
            assert(self@ =~= before.update(
                k as int,
                AnimationView { time_position: time, ..before[k as int] },
            ));
        }
    }

    /// The animations with only the one that `selected` names left to play.
    pub open spec fn solo(s: Seq<AnimationView>, selected: Handle) -> Seq<AnimationView> {
        Seq::new(
            s.len(),
            |i: int| AnimationView { enabled: s[i].handle == selected, ..s[i] },
        )
    }

    /// Lets the animation that `selected` names play, and no other.
    pub fn enable_only(&mut self, selected: Handle)
        ensures
            final(self)@ == Self::solo(old(self)@, selected),
    {
        let ghost before = self@;
        let mut i: usize = 0;
        while i < self.animations.len()
            invariant
                0 <= i <= self.animations@.len(),
                self@.len() == before.len(),
                forall|j: int|
                    0 <= j < i ==> #[trigger] self@[j] == (AnimationView {
                        enabled: before[j].handle == selected,
                        ..before[j]
                    }),
                forall|j: int| i <= j < before.len() ==> #[trigger] self@[j] == before[j],
            decreases self.animations@.len() - i,
        {
            let ghost here = self@;
            let enabled = self.animations[i].handle == selected;
            self.animations[i].enabled = enabled;
            proof {
                assert forall|j: int| 0 <= j < before.len() && j != i implies #[trigger] self@[j]
                    == here[j] by {
                }
                assert(here[i as int] == before[i as int]);
            }
            i += 1;
        }
        proof {
            assert(self@ =~= Self::solo(before, selected));
        }
    }

    /// The animation that `handle` names, if it names one.
    pub fn try_get(&self, handle: Handle) -> (r: Option<&Animation>)
        ensures
            match place(self@, handle) {
                Some(k) => r matches Some(a) && a@ == self@[k],
                None => r is None,
            },
    {
        match self.find(handle) {
            Some(k) => Some(&self.animations[k]),
            None => None,
        }
    }
}

} // verus!
