//! Proximity-based interaction: axis-aligned bounding-box overlap between an
//! interactor and the scene's interactables, the at-most-one `InRange`
//! relation it maintains, and the one-shot event that an action trigger
//! addresses to the interactable currently in range.

use vstd::prelude::*;

use crate::furnishing::Furnishing;

verus! {

/// A scene position in micro-units.
#[derive(Clone, Copy, Debug, PartialEq, Eq, Structural)]
pub struct Vec2 {
    pub x: i64,
    pub y: i64,
}

/// Marks an entity that can initiate interactions; its bounding box is
/// `width` by `height` micro-units, centered on the entity's position.
#[derive(Clone, Copy, Debug, PartialEq, Eq, Structural)]
pub struct Interactor {
    pub width: u64,
    pub height: u64,
}

/// Marks an entity that can be interacted with: a scene-unique id, a
/// bounding box centered on the entity's position, and a flag that stays
/// true until the entity has been triggered once (it gates the pulsing
/// highlight, which only shows before first use).
#[derive(Clone, Debug)]
pub struct Interactable {
    pub id: String,
    pub height: u64,
    pub width: u64,
    pub first: bool,
}

/// The at-most-one relation from an interactor to the interactable it is
/// currently in range of.
#[derive(Clone, Debug)]
pub struct InRange {
    pub id: String,
}

/// One-shot message: the interactor triggered an action while in range of
/// the interactable with this id.
#[derive(Clone, Debug)]
pub struct InteractionEvent {
    pub id: String,
}

/// Annotation on an interactable while an interactor is in range of it:
/// the time at which highlighting began, used as the phase of the pulse.
#[derive(Clone, Copy, Debug, PartialEq, Eq, Structural)]
pub struct Highlight {
    pub elapsed_offset: u64,
}

/// Two centered axis-aligned boxes overlap unless one lies strictly to the
/// left, right, top or bottom of the other. Stated over doubled
/// coordinates, so the half-extents `w/2` and `h/2` need no division.
pub open spec fn aabb_overlap_spec(
    x1: int,
    y1: int,
    w1: int,
    h1: int,
    x2: int,
    y2: int,
    w2: int,
    h2: int,
) -> bool {
    !(2 * x1 + w1 < 2 * x2 - w2 || 2 * x1 - w1 > 2 * x2 + w2 || 2 * y1 + h1 < 2 * y2 - h2 || 2 * y1
        - h1 > 2 * y2 + h2)
}

/// Axis-aligned bounding-box overlap of two centered boxes.
pub fn aabb_overlap(
    pos_1: Vec2,
    width_1: u64,
    height_1: u64,
    pos_2: Vec2,
    width_2: u64,
    height_2: u64,
) -> (r: bool)
    ensures
        r == aabb_overlap_spec(
            pos_1.x as int,
            pos_1.y as int,
            width_1 as int,
            height_1 as int,
            pos_2.x as int,
            pos_2.y as int,
            width_2 as int,
            height_2 as int,
        ),
{
    let left_1: i128 = 2 * pos_1.x as i128 - width_1 as i128;
    let right_1: i128 = 2 * pos_1.x as i128 + width_1 as i128;
    let top_1: i128 = 2 * pos_1.y as i128 + height_1 as i128;
    let bottom_1: i128 = 2 * pos_1.y as i128 - height_1 as i128;

    let left_2: i128 = 2 * pos_2.x as i128 - width_2 as i128;
    let right_2: i128 = 2 * pos_2.x as i128 + width_2 as i128;
    let top_2: i128 = 2 * pos_2.y as i128 + height_2 as i128;
    let bottom_2: i128 = 2 * pos_2.y as i128 - height_2 as i128;

    !(right_1 < left_2 || left_1 > right_2 || top_1 < bottom_2 || bottom_1 > top_2)
}

/// Whether the interactor's box centered at `pos` overlaps the furnishing's
/// box centered at the furnishing's position.
pub open spec fn overlaps(pos: Vec2, interactor: Interactor, f: Furnishing) -> bool {
    aabb_overlap_spec(
        pos.x as int,
        pos.y as int,
        interactor.width as int,
        interactor.height as int,
        f.pos.x as int,
        f.pos.y as int,
        f.interactable.width as int,
        f.interactable.height as int,
    )
}

/// The interactor's new target: the index of the last furnishing its box
/// overlaps, or none. When several overlap at once, the last in iteration
/// order wins.
pub open spec fn found_target(pos: Vec2, interactor: Interactor, furns: Seq<Furnishing>) -> Option<
    int,
>
    decreases furns.len(),
{
    if furns.len() == 0 {
        None
    } else if overlaps(pos, interactor, furns.last()) {
        Some(furns.len() - 1)
    } else {
        found_target(pos, interactor, furns.drop_last())
    }
}

/// The two furnishings agree on everything but the highlight annotation.
pub open spec fn same_except_highlight(a: Furnishing, b: Furnishing) -> bool {
    (Furnishing { highlight: None, ..a }) == (Furnishing { highlight: None, ..b })
}

spec fn index_of_found(found: Option<usize>) -> Option<int> {
    match found {
        Some(k) => Some(k as int),
        None => None,
    }
}

/// One proximity pass: tests the interactor's box against every furnishing
/// and reconciles the `InRange` edge and the highlights with the outcome.
/// The last overlapping furnishing (in iteration order) becomes the target.
/// Entering range of a new target attaches a fresh highlight, with the
/// current time as its phase offset, and strips the highlight from every
/// other furnishing, so a stale highlight never survives a target switch;
/// staying on the same target keeps its highlight and its offset; leaving
/// all furnishings removes the edge and every highlight, in the same tick.
/// Nothing but highlights is touched.
pub fn detect_overlaps(
    pos: Vec2,
    interactor: &Interactor,
    in_range: &mut Option<InRange>,
    furnishings: &mut Vec<Furnishing>,
    now: u64,
)
    ensures
        final(furnishings)@.len() == old(furnishings)@.len(),
        forall|k: int|
            0 <= k < old(furnishings)@.len() ==> same_except_highlight(
                old(furnishings)@[k],
                final(furnishings)@[k],
            ),
        ({
            let t_opt = found_target(pos, *interactor, old(furnishings)@);
            &&& t_opt is None ==> {
                &&& *final(in_range) is None
                &&& forall|k: int|
                    0 <= k < old(furnishings)@.len() ==> final(furnishings)@[k].highlight is None
            }
            &&& t_opt matches Some(t) ==> {
                let same = *old(in_range) matches Some(c) && c.id@ == old(furnishings)@[t].interactable.id@;
                &&& *final(in_range) matches Some(r) && r.id@ == old(furnishings)@[t].interactable.id@
                &&& same ==> *final(in_range) == *old(in_range) && final(furnishings)@[t].highlight
                    == old(furnishings)@[t].highlight
                &&& !same ==> final(furnishings)@[t].highlight == Some(
                    Highlight { elapsed_offset: now },
                )
                &&& forall|k: int|
                    0 <= k < old(furnishings)@.len() && k != t ==> final(furnishings)@[k].highlight is None
            }
        }),
{
    let ghost orig: Seq<Furnishing> = furnishings@;
    let mut found: Option<usize> = None;
    let mut i: usize = 0;
    while i < furnishings.len()
        invariant
            furnishings@ == orig,
            i <= orig.len(),
            index_of_found(found) == found_target(pos, *interactor, orig.subrange(0, i as int)),
            found matches Some(k) ==> k < i,
        decreases orig.len() - i,
    {
        let f_pos = furnishings[i].pos;
        let f_width = furnishings[i].interactable.width;
        let f_height = furnishings[i].interactable.height;
        if aabb_overlap(pos, interactor.width, interactor.height, f_pos, f_width, f_height) {
            found = Some(i);
        }
        proof {
            assert(orig.subrange(0, i + 1 as int).drop_last() =~= orig.subrange(0, i as int));
        }
        i = i + 1;
    }
    proof {
        assert(orig.subrange(0, orig.len() as int) =~= orig);
    }
    match found {
        None => {
            *in_range = None;
            let mut j: usize = 0;
            while j < furnishings.len()
                invariant
                    furnishings@.len() == orig.len(),
                    j <= orig.len(),
                    forall|k: int| j <= k < orig.len() ==> furnishings@[k] == orig[k],
                    forall|k: int|
                        0 <= k < j ==> same_except_highlight(orig[k], furnishings@[k]),
                    forall|k: int| 0 <= k < j ==> furnishings@[k].highlight is None,
                decreases orig.len() - j,
            {
                furnishings[j].highlight = None;
                j = j + 1;
            }
        },
        Some(t) => {
            let same = match &*in_range {
                Some(current) => current.id == furnishings[t].interactable.id,
                None => false,
            };
            let mut j: usize = 0;
            while j < furnishings.len()
                invariant
                    furnishings@.len() == orig.len(),
                    j <= orig.len(),
                    t < orig.len(),
                    forall|k: int| j <= k < orig.len() ==> furnishings@[k] == orig[k],
                    forall|k: int|
                        0 <= k < j ==> same_except_highlight(orig[k], furnishings@[k]),
                    forall|k: int|
                        0 <= k < j && k != t ==> furnishings@[k].highlight is None,
                    t < j && same ==> furnishings@[t as int].highlight == orig[t as int].highlight,
                    t < j && !same ==> furnishings@[t as int].highlight == Some(
                        Highlight { elapsed_offset: now },
                    ),
                decreases orig.len() - j,
            {
                if j != t {
                    furnishings[j].highlight = None;
                } else if !same {
                    furnishings[j].highlight = Some(Highlight { elapsed_offset: now });
                }
                j = j + 1;
            }
            if !same {
                let id = furnishings[t].interactable.id.clone();
                *in_range = Some(InRange { id });
            }
        },
    }
}

} // verus!
