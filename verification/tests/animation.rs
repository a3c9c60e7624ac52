use scene_sim::animation::{cyclic_advance, random_advance, AnimationConfig};
use scene_sim::timer::Timer;

#[test]
fn cyclic_advance_stays_in_range_and_cycles() {
    // A 5-frame range: after 5 advances from the first frame the index is
    // back at the first, and every intermediate index stays in range.
    let first = 0usize;
    let last = 4usize;
    let mut index = first;
    for step in 1..=5usize {
        index = cyclic_advance(first, last, index);
        assert!(first <= index && index <= last);
        if step < 5 {
            assert_eq!(index, step);
        }
    }
    assert_eq!(index, first);
}

#[test]
fn cyclic_advance_nonzero_base() {
    assert_eq!(cyclic_advance(3, 7, 3), 4);
    assert_eq!(cyclic_advance(3, 7, 6), 7);
    assert_eq!(cyclic_advance(3, 7, 7), 3);
    assert_eq!(cyclic_advance(5, 5, 5), 5);
}

#[test]
fn random_advance_never_repeats() {
    // Consecutive distinct advances never repeat the previous index.
    let first = 0usize;
    let last = 4usize;
    let mut current = 2usize;
    for _ in 0..200 {
        let next = random_advance(first, last, current);
        assert!(first <= next && next <= last);
        assert_ne!(next, current);
        current = next;
    }
}

#[test]
fn random_advance_two_frames_is_forced() {
    // With two frames the only non-repeating pick is the other frame.
    assert_eq!(random_advance(0, 1, 0), 1);
    assert_eq!(random_advance(0, 1, 1), 0);
    assert_eq!(random_advance(6, 7, 7), 6);
}

#[test]
fn random_advance_single_frame_degenerates() {
    // A one-frame range always yields that frame.
    for _ in 0..20 {
        assert_eq!(random_advance(3, 3, 3), 3);
    }
}

#[test]
fn timer_from_fps_is_one_frame_period() {
    let t = AnimationConfig::timer_from_fps(10);
    assert_eq!(t.duration, 100_000);
    assert_eq!(t.elapsed, 0);
    let t = AnimationConfig::timer_from_fps(6);
    assert_eq!(t.duration, 166_666);
    let t = AnimationConfig::timer_from_fps(1);
    assert_eq!(t.duration, 1_000_000);
}

#[test]
fn animation_config_new_holds_range_and_rate() {
    let c = AnimationConfig::new(0, 8, 10);
    assert_eq!(c.first_index, 0);
    assert_eq!(c.last_index, 8);
    assert_eq!(c.fps, 10);
    assert_eq!(c.frame_timer.duration, 100_000);
    assert_eq!(c.frame_timer.elapsed, 0);
}

#[test]
fn timer_fires_on_reaching_duration() {
    let mut t = Timer::new(100_000);
    assert!(!t.tick(40_000));
    assert_eq!(t.elapsed, 40_000);
    assert!(!t.tick(59_999));
    assert_eq!(t.elapsed, 99_999);
    assert!(t.tick(1));
    assert_eq!(t.elapsed, 0);
    assert_eq!(t.duration, 100_000);
}

#[test]
fn timer_overshoot_is_discarded() {
    let mut t = Timer::new(100_000);
    assert!(t.tick(1_000_000));
    assert_eq!(t.elapsed, 0);
}

#[test]
fn timer_zero_duration_fires_at_once() {
    let mut t = Timer::new(0);
    assert!(t.tick(0));
    assert!(t.tick(1));
}

#[test]
fn timer_set_duration_keeps_elapsed() {
    let mut t = Timer::new(450_000);
    assert!(!t.tick(300_000));
    t.set_duration(225_000);
    assert_eq!(t.elapsed, 300_000);
    // The shortened duration makes the next tick fire at once.
    assert!(t.tick(0));
}

#[test]
fn timer_reset_empties_elapsed() {
    let mut t = Timer::new(5_000_000);
    assert!(!t.tick(4_000_000));
    t.reset();
    assert_eq!(t.elapsed, 0);
    assert_eq!(t.duration, 5_000_000);
}
