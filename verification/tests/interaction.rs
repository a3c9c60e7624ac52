use scene_sim::animation::AnimationConfig;
use scene_sim::furnishing::{AdvanceMode, Furnishing};
use scene_sim::interaction::{aabb_overlap, detect_overlaps, InRange, Interactor, Vec2};

fn furnishing_at(id: &str, x: i64, y: i64, width: u64, height: u64) -> Furnishing {
    Furnishing::new(
        id.to_string(),
        Vec2 { x, y },
        width,
        height,
        AnimationConfig::new(0, 4, 6),
        AdvanceMode::Cyclic,
    )
}

#[test]
fn aabb_overlap_matches_predicate() {
    // Boxes of width 10 centered 5 apart overlap (half-extents 5 + 5 > 5).
    assert!(aabb_overlap(Vec2 { x: 0, y: 0 }, 10, 10, Vec2 { x: 5, y: 0 }, 10, 10));
    // Centers 10 apart: the edges touch exactly, which still counts.
    assert!(aabb_overlap(Vec2 { x: 0, y: 0 }, 10, 10, Vec2 { x: 10, y: 0 }, 10, 10));
    // Centers 11 apart: strictly separated.
    assert!(!aabb_overlap(Vec2 { x: 0, y: 0 }, 10, 10, Vec2 { x: 11, y: 0 }, 10, 10));
    // Separation on the y axis alone also rules overlap out.
    assert!(!aabb_overlap(Vec2 { x: 0, y: 0 }, 10, 10, Vec2 { x: 0, y: 11 }, 10, 10));
    // Odd sizes: half-extents 3.5 + 2.5 = 6 against distance 6: touching.
    assert!(aabb_overlap(Vec2 { x: 0, y: 0 }, 7, 7, Vec2 { x: 6, y: 0 }, 5, 5));
    assert!(!aabb_overlap(Vec2 { x: 0, y: 0 }, 7, 7, Vec2 { x: 7, y: 0 }, 5, 5));
    // Negative coordinates.
    assert!(aabb_overlap(Vec2 { x: -8, y: -8 }, 10, 10, Vec2 { x: -1, y: -2 }, 10, 10));
}

#[test]
fn entering_range_attaches_edge_and_highlight() {
    // An interactor at the origin with a 10 by 10 box against a furnishing
    // at (5, 0) with a 10 by 10 box: overlap, so the edge and a highlight
    // stamped with the current time appear.
    let interactor = Interactor { width: 10, height: 10 };
    let mut furnishings = vec![furnishing_at("fireplace", 5, 0, 10, 10)];
    let mut in_range: Option<InRange> = None;
    detect_overlaps(Vec2 { x: 0, y: 0 }, &interactor, &mut in_range, &mut furnishings, 7_500_000);

    assert_eq!(in_range.as_ref().map(|r| r.id.as_str()), Some("fireplace"));
    assert_eq!(furnishings[0].highlight.map(|h| h.elapsed_offset), Some(7_500_000));
}

#[test]
fn leaving_range_removes_edge_and_highlight_same_tick() {
    let interactor = Interactor { width: 10, height: 10 };
    let mut furnishings = vec![furnishing_at("fireplace", 5, 0, 10, 10)];
    let mut in_range: Option<InRange> = None;
    detect_overlaps(Vec2 { x: 0, y: 0 }, &interactor, &mut in_range, &mut furnishings, 1_000);
    assert!(in_range.is_some());
    assert!(furnishings[0].highlight.is_some());

    // The interactor has moved out of range: the same pass removes both.
    detect_overlaps(Vec2 { x: 100, y: 0 }, &interactor, &mut in_range, &mut furnishings, 2_000);
    assert!(in_range.is_none());
    assert!(furnishings[0].highlight.is_none());
}

#[test]
fn staying_in_range_keeps_highlight_offset() {
    let interactor = Interactor { width: 10, height: 10 };
    let mut furnishings = vec![furnishing_at("fireplace", 5, 0, 10, 10)];
    let mut in_range: Option<InRange> = None;
    detect_overlaps(Vec2 { x: 0, y: 0 }, &interactor, &mut in_range, &mut furnishings, 3_000);
    detect_overlaps(Vec2 { x: 1, y: 0 }, &interactor, &mut in_range, &mut furnishings, 9_000);
    // Still the same target: the highlight keeps the offset of the tick
    // on which highlighting began.
    assert_eq!(furnishings[0].highlight.map(|h| h.elapsed_offset), Some(3_000));
    assert_eq!(in_range.as_ref().map(|r| r.id.as_str()), Some("fireplace"));
}

#[test]
fn switching_target_moves_edge_and_highlight() {
    let interactor = Interactor { width: 10, height: 10 };
    let mut furnishings = vec![
        furnishing_at("fireplace", 5, 0, 10, 10),
        furnishing_at("stereo", 40, 0, 10, 10),
    ];
    let mut in_range: Option<InRange> = None;
    detect_overlaps(Vec2 { x: 0, y: 0 }, &interactor, &mut in_range, &mut furnishings, 1_000);
    assert_eq!(in_range.as_ref().map(|r| r.id.as_str()), Some("fireplace"));

    // The interactor walks over to the stereo: the edge is replaced, the
    // stale highlight on the fireplace does not survive the switch.
    detect_overlaps(Vec2 { x: 40, y: 0 }, &interactor, &mut in_range, &mut furnishings, 5_000);
    assert_eq!(in_range.as_ref().map(|r| r.id.as_str()), Some("stereo"));
    assert!(furnishings[0].highlight.is_none());
    assert_eq!(furnishings[1].highlight.map(|h| h.elapsed_offset), Some(5_000));
}

#[test]
fn simultaneous_overlap_last_wins() {
    let interactor = Interactor { width: 40, height: 40 };
    let mut furnishings = vec![
        furnishing_at("fireplace", -5, 0, 10, 10),
        furnishing_at("stereo", 5, 0, 10, 10),
    ];
    let mut in_range: Option<InRange> = None;
    detect_overlaps(Vec2 { x: 0, y: 0 }, &interactor, &mut in_range, &mut furnishings, 0);
    assert_eq!(in_range.as_ref().map(|r| r.id.as_str()), Some("stereo"));
    // The furnishing that lost the tie carries no highlight.
    assert!(furnishings[0].highlight.is_none());
    assert!(furnishings[1].highlight.is_some());
}

#[test]
fn detect_touches_nothing_but_highlights() {
    let interactor = Interactor { width: 10, height: 10 };
    let mut furnishings = vec![furnishing_at("fireplace", 5, 0, 10, 10)];
    let mut in_range: Option<InRange> = None;
    detect_overlaps(Vec2 { x: 0, y: 0 }, &interactor, &mut in_range, &mut furnishings, 42);
    let f = &furnishings[0];
    assert!(matches!(f.state, scene_sim::furnishing::State::Off));
    assert!(f.interactable.first);
    assert!(!f.sink.playing);
    assert_eq!(f.atlas, None);
    assert_eq!(f.pos, Vec2 { x: 5, y: 0 });
}
