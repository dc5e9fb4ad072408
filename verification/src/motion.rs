//! How a fish picks the way it swims when its direction timer runs out.

use vstd::prelude::*;
use crate::area::{FishingLocal, ObstType};
use crate::random::{roll_below, thread_rng};

verus! {

/// The way a fish swims: each axis moves back (-1), not at all (0) or
/// forward (1) by one step a frame.
#[derive(Clone, Copy, Debug, PartialEq, Eq, Structural)]
pub struct Heading {
    pub dx: i8,
    pub dy: i8,
}

/// An obstruction as a fish sees it: its kind, its area, and whether it
/// lies at or beyond the fish along each axis.
#[derive(Clone, Copy, Debug, PartialEq, Eq, Structural)]
pub struct Sighting {
    pub kind: ObstType,
    pub area: FishingLocal,
    pub ahead_x: bool,
    pub ahead_y: bool,
}

/// The fish's liking for an obstruction: the kind it is drawn to, and how
/// much less often it wanders off at random once it has seen one.
#[derive(Clone, Copy, Debug, PartialEq, Eq, Structural)]
pub struct Preference {
    pub kind: ObstType,
    pub skew: i32,
}

/// The number of sides of the two dice a fish rolls.
pub const MOTION_SIDES: i32 = 9;

/// The heading towards an obstruction.
pub open spec fn toward(s: Sighting) -> Heading {
    Heading { dx: if s.ahead_x { 1 } else { -1i8 }, dy: if s.ahead_y { 1 } else { -1i8 } }
}

/// The last obstruction in `sightings` of the preferred kind in the fish's
/// own area, if there is one.
pub open spec fn attraction(sightings: Seq<Sighting>, kind: ObstType, area: FishingLocal) -> Option<
    Sighting,
>
    decreases sightings.len(),
{
    if sightings.len() == 0 {
        None
    } else if sightings.last().kind == kind && sightings.last().area == area {
        Some(sightings.last())
    } else {
        attraction(sightings.drop_last(), kind, area)
    }
}

/// The eight compass headings, by the direction die, starting north and
/// going clockwise; the ninth face keeps the current heading.
pub open spec fn compass(dir: int) -> Option<Heading> {
    if dir == 0 {
        Some(Heading { dx: 0, dy: 1 })
    } else if dir == 1 {
        Some(Heading { dx: 1, dy: 1 })
    } else if dir == 2 {
        Some(Heading { dx: 1, dy: 0 })
    } else if dir == 3 {
        Some(Heading { dx: 1, dy: -1i8 })
    } else if dir == 4 {
        Some(Heading { dx: 0, dy: -1i8 })
    } else if dir == 5 {
        Some(Heading { dx: -1i8, dy: -1i8 })
    } else if dir == 6 {
        Some(Heading { dx: -1i8, dy: 0 })
    } else if dir == 7 {
        Some(Heading { dx: -1i8, dy: 1 })
    } else {
        None
    }
}

/// The new heading of a fish: towards the last preferred obstruction it
/// sees in its area (which also raises the bar for wandering by the
/// preference's skew), and then, when the move die reaches four plus that
/// skew, the compass heading of the direction die instead.
pub open spec fn steer(
    current: Heading,
    pref: Preference,
    area: FishingLocal,
    sightings: Seq<Sighting>,
    move_type: int,
    dir: int,
) -> Heading {
    let (drawn, skew) = match attraction(sightings, pref.kind, area) {
        Some(s) => (toward(s), pref.skew as int),
        None => (current, 0int),
    };
    if move_type >= 4 + skew {
        match compass(dir) {
            Some(h) => h,
            None => drawn,
        }
    } else {
        drawn
    }
}

/// The compass heading of a direction die, if its face names one.
pub fn compass_heading(dir: i32) -> (r: Option<Heading>)
    ensures
        r == compass(dir as int),
{
    if dir == 0 {
        Some(Heading { dx: 0, dy: 1 })
    } else if dir == 1 {
        Some(Heading { dx: 1, dy: 1 })
    } else if dir == 2 {
        Some(Heading { dx: 1, dy: 0 })
    } else if dir == 3 {
        Some(Heading { dx: 1, dy: -1i8 })
    } else if dir == 4 {
        Some(Heading { dx: 0, dy: -1i8 })
    } else if dir == 5 {
        Some(Heading { dx: -1i8, dy: -1i8 })
    } else if dir == 6 {
        Some(Heading { dx: -1i8, dy: 0 })
    } else if dir == 7 {
        Some(Heading { dx: -1i8, dy: 1 })
    } else {
        None
    }
}

/// The last obstruction of the preferred kind in the fish's area.
pub fn find_attraction(sightings: &Vec<Sighting>, kind: ObstType, area: FishingLocal) -> (r:
    Option<Sighting>)
    ensures
        r == attraction(sightings@, kind, area),
{
    let mut found: Option<Sighting> = None;
    let mut i: usize = 0;
    while i < sightings.len()
        invariant
            i <= sightings.len(),
            found == attraction(sightings@.take(i as int), kind, area),
        decreases sightings.len() - i,
    {
        assert(sightings@.take(i as int + 1).drop_last() =~= sightings@.take(i as int));
        let s = sightings[i];
        if s.kind == kind && s.area == area {
            found = Some(s);
        }
        i = i + 1;
    }
    assert(sightings@.take(sightings.len() as int) =~= sightings@);
    found
}

/// Picks the new heading of a fish from what it sees and its two dice.
pub fn steer_fish(
    current: Heading,
    pref: Preference,
    area: FishingLocal,
    sightings: &Vec<Sighting>,
    move_type: i32,
    dir: i32,
) -> (r: Heading)
    ensures
        r == steer(current, pref, area, sightings@, move_type as int, dir as int),
{
    let (drawn, skew) = match find_attraction(sightings, pref.kind, area) {
        Some(s) => (
            Heading { dx: if s.ahead_x { 1 } else { -1i8 }, dy: if s.ahead_y { 1 } else { -1i8 } },
            pref.skew as i64,
        ),
        None => (current, 0i64),
    };
    if move_type as i64 >= 4 + skew {
        match compass_heading(dir) {
            Some(h) => h,
            None => drawn,
        }
    } else {
        drawn
    }
}

/// Picks the new heading of a fish, rolling its two dice on the
/// thread-local generator.
pub fn wander(current: Heading, pref: Preference, area: FishingLocal, sightings: &Vec<Sighting>) -> (r:
    Heading)
    ensures
        exists|move_type: int, dir: int|
            0 <= move_type < MOTION_SIDES && 0 <= dir < MOTION_SIDES && r == steer(
                current,
                pref,
                area,
                sightings@,
                move_type,
                dir,
            ),
{
    let mut rng = thread_rng();
    let move_type = roll_below(&mut rng, MOTION_SIDES);
    let dir = roll_below(&mut rng, MOTION_SIDES);
    steer_fish(current, pref, area, sightings, move_type, dir)
}

/// A new heading never moves faster than one step a frame along an axis,
/// when the current one does not.
pub proof fn lemma_steer_stays_in_step(
    current: Heading,
    pref: Preference,
    area: FishingLocal,
    sightings: Seq<Sighting>,
    move_type: int,
    dir: int,
)
    requires
        -1 <= current.dx <= 1,
        -1 <= current.dy <= 1,
    ensures
        -1 <= steer(current, pref, area, sightings, move_type, dir).dx <= 1,
        -1 <= steer(current, pref, area, sightings, move_type, dir).dy <= 1,
{
}

/// A fish that sees no obstruction it likes wanders off with four chances
/// out of nine on the move die, and then goes where the direction die says
/// unless it shows the ninth face.
pub proof fn lemma_unattracted_fish(
    current: Heading,
    pref: Preference,
    area: FishingLocal,
    sightings: Seq<Sighting>,
    move_type: int,
    dir: int,
)
    requires
        attraction(sightings, pref.kind, area) is None,
    ensures
        move_type < 4 ==> steer(current, pref, area, sightings, move_type, dir) == current,
        move_type >= 4 && 0 <= dir < 8 ==> steer(current, pref, area, sightings, move_type, dir)
            == compass(dir).unwrap(),
        dir == 8 ==> steer(current, pref, area, sightings, move_type, dir) == current,
{
}

/// A fish that sees an obstruction it likes turns towards it, unless its
/// move die beats four plus its skew and the direction die names a heading.
pub proof fn lemma_attracted_fish(
    current: Heading,
    pref: Preference,
    area: FishingLocal,
    sightings: Seq<Sighting>,
    move_type: int,
    dir: int,
)
    requires
        attraction(sightings, pref.kind, area) is Some,
    ensures
        (move_type < 4 + pref.skew || dir == 8) ==> steer(
            current,
            pref,
            area,
            sightings,
            move_type,
            dir,
        ) == toward(attraction(sightings, pref.kind, area).unwrap()),
        attraction(sightings, pref.kind, area).unwrap().kind == pref.kind,
        attraction(sightings, pref.kind, area).unwrap().area == area,
    decreases sightings.len(),
{
    if sightings.len() > 0 && !(sightings.last().kind == pref.kind && sightings.last().area
        == area) {
        lemma_attracted_fish(current, pref, area, sightings.drop_last(), move_type, dir);
    }
}


/// The direction die's faces 0 to 7 name the eight compass headings
/// clockwise from north, and face 8 none: the east-west step is 0 on faces
/// 0 and 4, east (1) on faces 1 to 3 and west (-1) on faces 5 to 7; the
/// north-south step is 0 on faces 2 and 6, north (1) on faces 7, 0 and 1
/// and south (-1) on faces 3 to 5. Opposite faces, four apart, point in
/// opposite directions, and no two faces share a heading.
pub proof fn lemma_compass_faces(dir: int, other: int)
    ensures
        0 <= dir < 8 <==> compass(dir) is Some,
        0 <= dir < 8 ==> compass(dir).unwrap().dx == (if dir == 0 || dir == 4 {
            0int
        } else if dir < 4 {
            1int
        } else {
            -1int
        }),
        0 <= dir < 8 ==> compass(dir).unwrap().dy == (if dir == 2 || dir == 6 {
            0int
        } else if dir == 7 || dir <= 1 {
            1int
        } else {
            -1int
        }),
        0 <= dir < 4 ==> compass(dir + 4).unwrap().dx == -compass(dir).unwrap().dx
            && compass(dir + 4).unwrap().dy == -compass(dir).unwrap().dy,
        0 <= dir < 8 && 0 <= other < 8 && dir != other ==> compass(dir) != compass(other),
        0 <= dir < 8 ==> compass(dir).unwrap() != (Heading { dx: 0, dy: 0 }),
{
}

/// A fish turns towards an obstruction it likes along each axis: east when
/// the obstruction lies at or beyond it eastwards, west otherwise, and the
/// same north and south; it never stands still on an axis.
pub proof fn lemma_toward_signs(s: Sighting)
    ensures
        toward(s).dx == 1 <==> s.ahead_x,
        toward(s).dx == -1 <==> !s.ahead_x,
        toward(s).dy == 1 <==> s.ahead_y,
        toward(s).dy == -1 <==> !s.ahead_y,
{
}


/// The obstruction a fish is drawn to is the last one in its list that is
/// of the preferred kind and in the fish's own area; when no sighting is of
/// that kind in that area, nothing draws it.
pub proof fn lemma_attraction_is_last_match(
    sightings: Seq<Sighting>,
    kind: ObstType,
    area: FishingLocal,
)
    ensures
        attraction(sightings, kind, area) is None <==> forall|i: int|
            0 <= i < sightings.len() ==> !((#[trigger] sightings[i]).kind == kind
                && sightings[i].area == area),
        attraction(sightings, kind, area) is Some ==> exists|i: int|
            0 <= i < sightings.len() && sightings[i] == attraction(sightings, kind, area).unwrap()
                && sightings[i].kind == kind && sightings[i].area == area && forall|j: int|
                i < j < sightings.len() ==> !((#[trigger] sightings[j]).kind == kind
                    && sightings[j].area == area),
    decreases sightings.len(),
{
    if sightings.len() > 0 {
        let prev = sightings.drop_last();
        lemma_attraction_is_last_match(prev, kind, area);
        let last = sightings.len() - 1;
        if sightings.last().kind == kind && sightings.last().area == area {
            assert(sightings[last] == attraction(sightings, kind, area).unwrap());
        } else {
            assert forall|i: int| 0 <= i < prev.len() implies prev[i] == #[trigger] sightings[i] by {}
            if attraction(sightings, kind, area) is Some {
                let i = choose|i: int|
                    0 <= i < prev.len() && prev[i] == attraction(prev, kind, area).unwrap()
                        && prev[i].kind == kind && prev[i].area == area && forall|j: int|
                        i < j < prev.len() ==> !((#[trigger] prev[j]).kind == kind && prev[j].area
                            == area);
                assert(sightings[i] == prev[i]);
                assert forall|j: int| i < j < sightings.len() implies !((#[trigger] sightings[j]).kind
                    == kind && sightings[j].area == area) by {
                    if j < last {
                        assert(sightings[j] == prev[j]);
                    }
                }
            } else {
                assert forall|i: int| 0 <= i < sightings.len() implies !((#[trigger] sightings[i]).kind
                    == kind && sightings[i].area == area) by {
                    if i < last {
                        assert(sightings[i] == prev[i]);
                    }
                }
            }
        }
    }
}

} // verus!
