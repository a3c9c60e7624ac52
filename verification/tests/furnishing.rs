use scene_sim::animation::AnimationConfig;
use scene_sim::furnishing::{AdvanceMode, AudioSink, Furnishing, State};
use scene_sim::interaction::{InteractionEvent, Vec2};

fn fireplace() -> Furnishing {
    Furnishing::new(
        "fireplace".to_string(),
        Vec2 { x: 0, y: -170_000_000 },
        56_000_000,
        112_000_000,
        AnimationConfig::new(0, 4, 6),
        AdvanceMode::RandomNonRepeat,
    )
}

fn stereo() -> Furnishing {
    Furnishing::new(
        "stereo".to_string(),
        Vec2 { x: 260_000_000, y: 0 },
        140_000_000,
        112_000_000,
        AnimationConfig::new(0, 4, 4),
        AdvanceMode::Cyclic,
    )
}

#[test]
fn matching_event_turns_off_furnishing_on() {
    // Off, first interaction still ahead, audio paused. A matching event:
    // Running, the first-use flag spent, audio playing.
    let mut f = fireplace();
    assert!(matches!(f.state, State::Off));
    assert!(f.interactable.first);
    assert!(!f.sink.playing);

    f.deliver_event(&InteractionEvent { id: "fireplace".to_string() });
    assert!(matches!(f.state, State::Running));
    assert!(!f.interactable.first);
    assert!(f.sink.playing);
    assert_eq!(f.atlas, Some(0));
}

#[test]
fn second_matching_event_toggles_back_off() {
    let mut f = fireplace();
    f.deliver_event(&InteractionEvent { id: "fireplace".to_string() });
    assert!(f.sink.playing);

    // Let playback run a while, then toggle off: paused, and the playback
    // position is retained, not reset.
    f.sink.advance(3_000_000);
    assert_eq!(f.sink.position, 3_000_000);
    f.deliver_event(&InteractionEvent { id: "fireplace".to_string() });
    assert!(matches!(f.state, State::Off));
    assert!(!f.sink.playing);
    assert_eq!(f.sink.position, 3_000_000);
    assert_eq!(f.atlas, None);
    // The first-use flag stays spent.
    assert!(!f.interactable.first);
}

#[test]
fn non_matching_event_changes_nothing() {
    let mut f = stereo();
    f.deliver_event(&InteractionEvent { id: "fireplace".to_string() });
    assert!(matches!(f.state, State::Off));
    assert!(f.interactable.first);
    assert!(!f.sink.playing);
    assert_eq!(f.sink.position, 0);
    assert_eq!(f.atlas, None);
    assert_eq!(f.config.frame_timer.elapsed, 0);

    // The same holds with the furnishing running.
    f.deliver_event(&InteractionEvent { id: "stereo".to_string() });
    assert!(matches!(f.state, State::Running));
    f.deliver_event(&InteractionEvent { id: "fireplace".to_string() });
    assert!(matches!(f.state, State::Running));
    assert!(f.sink.playing);
    assert!(!f.interactable.first);
}

#[test]
fn paused_sink_does_not_advance() {
    let mut s = AudioSink::new();
    s.advance(1_000);
    assert_eq!(s.position, 0);
}

#[test]
fn off_furnishing_does_not_animate() {
    let mut f = stereo();
    f.tick_animation(10_000_000);
    assert_eq!(f.atlas, None);
    assert_eq!(f.config.frame_timer.elapsed, 0);
}

#[test]
fn running_cyclic_furnishing_walks_its_frames() {
    let mut f = stereo();
    f.deliver_event(&InteractionEvent { id: "stereo".to_string() });
    assert_eq!(f.atlas, Some(0));
    // 4 frames per second: one frame period is 250_000 microseconds.
    f.tick_animation(100_000);
    assert_eq!(f.atlas, Some(0));
    f.tick_animation(150_000);
    assert_eq!(f.atlas, Some(1));
    // A full frame period at once advances exactly one frame.
    f.tick_animation(250_000);
    assert_eq!(f.atlas, Some(2));
    f.tick_animation(250_000);
    f.tick_animation(250_000);
    assert_eq!(f.atlas, Some(4));
    // The last frame wraps back to the first.
    f.tick_animation(250_000);
    assert_eq!(f.atlas, Some(0));
}

#[test]
fn running_random_furnishing_never_repeats_a_frame() {
    let mut f = fireplace();
    f.deliver_event(&InteractionEvent { id: "fireplace".to_string() });
    let mut current = f.atlas.expect("running furnishing has a frame");
    // 6 frames per second: one frame period is 166_666 microseconds.
    for _ in 0..100 {
        f.tick_animation(166_666);
        let next = f.atlas.expect("running furnishing keeps a frame");
        assert!(next <= 4);
        assert_ne!(next, current);
        current = next;
    }
}

#[test]
fn pulse_shows_only_before_first_use_and_in_range() {
    let mut f = fireplace();
    // No highlight attached yet: no pulse.
    assert_eq!(f.pulse_phase(1_000), None);

    // Highlighted, off, never used: the pulse shows, phased from the
    // moment highlighting began.
    f.highlight = Some(scene_sim::interaction::Highlight { elapsed_offset: 400 });
    assert_eq!(f.pulse_phase(1_000), Some(600));

    // Running suppresses the pulse even while highlighted.
    f.deliver_event(&InteractionEvent { id: "fireplace".to_string() });
    assert_eq!(f.pulse_phase(2_000), None);

    // Back off, but the first use is spent: still no pulse.
    f.deliver_event(&InteractionEvent { id: "fireplace".to_string() });
    assert_eq!(f.pulse_phase(3_000), None);
}
