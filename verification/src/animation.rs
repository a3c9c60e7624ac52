//! Sprite-frame animation: a per-entity frame range, a frames-per-second
//! rate, and a countdown to the next frame advance. Frames advance either
//! cyclically (wrap from the last frame back to the first) or randomly
//! without repeating the frame just shown.

use vstd::prelude::*;

use crate::rng::random_in_range;
use crate::timer::Timer;
use crate::MICROS_PER_SECOND;

verus! {

/// Animation settings of one entity: the frame range `[first_index,
/// last_index]` of its sprite sheet, the advance rate, and the timer that
/// gates the next advance.
#[derive(Clone, Debug)]
pub struct AnimationConfig {
    pub first_index: usize,
    pub last_index: usize,
    pub fps: u8,
    pub frame_timer: Timer,
}

impl AnimationConfig {
    /// A frame range must not be empty and the rate must be positive;
    /// anything else is a programmer error, ruled out at construction.
    pub open spec fn wf(self) -> bool {
        self.first_index <= self.last_index && self.fps >= 1
    }

    pub fn new(first: usize, last: usize, fps: u8) -> (c: AnimationConfig)
        requires
            first <= last,
            fps >= 1,
        ensures
            c.first_index == first,
            c.last_index == last,
            c.fps == fps,
            c.frame_timer.elapsed == 0,
            c.frame_timer.duration == MICROS_PER_SECOND / fps as u64,
            c.wf(),
    {
        AnimationConfig {
            first_index: first,
            last_index: last,
            fps,
            frame_timer: Self::timer_from_fps(fps),
        }
    }

    /// A fresh frame timer: one full frame period of `1/fps` seconds,
    /// in microseconds, with nothing accumulated yet.
    pub fn timer_from_fps(fps: u8) -> (t: Timer)
        requires
            fps >= 1,
        ensures
            t.elapsed == 0,
            t.duration == MICROS_PER_SECOND / fps as u64,
    {
        Timer::new(MICROS_PER_SECOND / fps as u64)
    }
}

/// The frame after `index` under cyclic advance: wrap from `last` back to
/// `first`, otherwise step forward by one.
pub open spec fn cyclic_next(first: int, last: int, index: int) -> int {
    if index == last {
        first
    } else {
        index + 1
    }
}

/// The frame reached from `index` after `n` cyclic advances.
pub open spec fn cyclic_next_n(first: int, last: int, index: int, n: nat) -> int
    decreases n,
{
    if n == 0 {
        index
    } else {
        cyclic_next(first, last, cyclic_next_n(first, last, index, (n - 1) as nat))
    }
}

/// Advances a frame index cyclically within `[first, last]`.
pub fn cyclic_advance(first: usize, last: usize, index: usize) -> (r: usize)
    requires
        first <= index <= last,
    ensures
        r == cyclic_next(first as int, last as int, index as int),
        first <= r <= last,
{
    if index == last {
        first
    } else {
        index + 1
    }
}

/// Picks a frame in `[first, last]` other than `current`: a uniform draw
/// from a range one smaller is shifted past `current`, so no value repeats
/// and every other frame stays equally likely. A one-frame range has no
/// other frame to pick, so it degenerates to that single frame.
pub fn random_advance(first: usize, last: usize, current: usize) -> (r: usize)
    requires
        first <= current <= last,
    ensures
        first <= r <= last,
        first < last ==> r != current,
        first == last ==> r == first,
{
    if first == last {
        first
    } else {
        let draw = random_in_range(first, last - 1);
        if draw >= current {
            draw + 1
        } else {
            draw
        }
    }
}

/// Cyclic advance never leaves the frame range: starting anywhere in
/// `[first, last]`, any number of advances stays in `[first, last]`.
pub proof fn lemma_cyclic_stays_in_range(first: int, last: int, index: int, n: nat)
    requires
        first <= index <= last,
    ensures
        first <= cyclic_next_n(first, last, index, n) <= last,
    decreases n,
{
    if n > 0 {
        lemma_cyclic_stays_in_range(first, last, index, (n - 1) as nat);
    }
}

/// While no wrap has happened yet, `k` advances from `first` land exactly
/// `k` frames in: the cycle walks the range in order.
proof fn lemma_cyclic_walks_forward(first: int, last: int, k: nat)
    requires
        first <= last,
        k <= last - first,
    ensures
        cyclic_next_n(first, last, first, k) == first + k,
    decreases k,
{
    if k > 0 {
        lemma_cyclic_walks_forward(first, last, (k - 1) as nat);
    }
}

/// A full cycle returns to the start: after `last - first + 1` cyclic
/// advances from `first`, the frame index is `first` again.
pub proof fn lemma_cyclic_full_cycle(first: int, last: int)
    requires
        first <= last,
    ensures
        cyclic_next_n(first, last, first, (last - first + 1) as nat) == first,
{
    lemma_cyclic_walks_forward(first, last, (last - first) as nat);
}

} // verus!
