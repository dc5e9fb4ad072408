//! The fishing areas and what each of them shows.

use vstd::prelude::*;

verus! {

/// The places the player can fish.
#[derive(Clone, Copy, Debug, PartialEq, Eq, Structural)]
pub enum FishingLocal {
    Pond1,
    Pond2,
    Ocean,
}

/// The area the fishing view starts at: the first pond.
pub fn initial_area() -> (r: FishingLocal)
    ensures
        r == FishingLocal::Pond1,
{
    FishingLocal::Pond1
}

/// The obstructions that stand in a fishing area.
#[derive(Clone, Copy, Debug, PartialEq, Eq, Structural)]
pub enum ObstType {
    Tree,
    Fissure,
    Pad,
    Debris,
}


/// Where a sprite of the fishing view goes when an area is shown.
#[derive(Clone, Copy, Debug, PartialEq, Eq, Structural)]
pub enum Spot {
    /// The middle of the fishing room.
    Center,
    /// This far from the middle of the fishing room, in pixels.
    Offset { dx: i32, dy: i32 },
    /// Out of sight, far from the fishing room.
    Away,
    /// Where it already is.
    Unchanged,
}

/// The depth of a backdrop drawn in front.
pub const FRONT_LAYER: u32 = 900;

/// The depth of a backdrop drawn behind.
pub const BACK_LAYER: u32 = 100;

/// Where the fish of `fish_area` go when `shown` is shown.
pub open spec fn spec_fish_spot(shown: FishingLocal, fish_area: FishingLocal) -> Spot {
    if fish_area == shown {
        Spot::Center
    } else {
        Spot::Away
    }
}

/// Where each kind of obstruction stands in each area.
pub open spec fn obstruction_place(area: FishingLocal, kind: ObstType) -> Spot {
    match (area, kind) {
        (_, ObstType::Tree) => Spot::Unchanged,
        (FishingLocal::Pond1, ObstType::Pad) => Spot::Offset { dx: 160, dy: 100 },
        (FishingLocal::Pond1, ObstType::Fissure) => Spot::Offset { dx: -300i32, dy: -100i32 },
        (FishingLocal::Pond1, ObstType::Debris) => Spot::Offset { dx: -500i32, dy: 50 },
        (FishingLocal::Pond2, ObstType::Pad) => Spot::Offset { dx: -160i32, dy: 300 },
        (FishingLocal::Pond2, ObstType::Fissure) => Spot::Offset { dx: 260, dy: 0 },
        (FishingLocal::Pond2, ObstType::Debris) => Spot::Offset { dx: -350i32, dy: 200 },
        (FishingLocal::Ocean, ObstType::Pad) => Spot::Offset { dx: 160, dy: 100 },
        (FishingLocal::Ocean, ObstType::Fissure) => Spot::Offset { dx: -360i32, dy: -100i32 },
        (FishingLocal::Ocean, ObstType::Debris) => Spot::Offset { dx: 260, dy: 300 },
    }
}

/// Where an obstruction of `kind` in `obstruction_area` goes when `shown`
/// is shown: to its place there if it belongs to the shown area, out of
/// sight otherwise.
pub open spec fn spec_obstruction_spot(
    shown: FishingLocal,
    obstruction_area: FishingLocal,
    kind: ObstType,
) -> Spot {
    if obstruction_area == shown {
        obstruction_place(shown, kind)
    } else {
        Spot::Away
    }
}

/// The depths of the pond and the beach backdrops when `shown` is shown:
/// the beach is in front at the ocean, the pond everywhere else.
pub open spec fn spec_backdrop_layers(shown: FishingLocal) -> (u32, u32) {
    match shown {
        FishingLocal::Ocean => (BACK_LAYER, FRONT_LAYER),
        _ => (FRONT_LAYER, BACK_LAYER),
    }
}

/// Where the fish of `fish_area` go when `shown` is shown.
pub fn fish_spot(shown: FishingLocal, fish_area: FishingLocal) -> (r: Spot)
    ensures
        r == spec_fish_spot(shown, fish_area),
{
    if fish_area == shown {
        Spot::Center
    } else {
        Spot::Away
    }
}

/// Where an obstruction goes when `shown` is shown.
pub fn obstruction_spot(shown: FishingLocal, obstruction_area: FishingLocal, kind: ObstType) -> (r:
    Spot)
    ensures
        r == spec_obstruction_spot(shown, obstruction_area, kind),
{
    if obstruction_area != shown {
        return Spot::Away;
    }
    match (shown, kind) {
        (_, ObstType::Tree) => Spot::Unchanged,
        (FishingLocal::Pond1, ObstType::Pad) => Spot::Offset { dx: 160, dy: 100 },
        (FishingLocal::Pond1, ObstType::Fissure) => Spot::Offset { dx: -300i32, dy: -100i32 },
        (FishingLocal::Pond1, ObstType::Debris) => Spot::Offset { dx: -500i32, dy: 50 },
        (FishingLocal::Pond2, ObstType::Pad) => Spot::Offset { dx: -160i32, dy: 300 },
        (FishingLocal::Pond2, ObstType::Fissure) => Spot::Offset { dx: 260, dy: 0 },
        (FishingLocal::Pond2, ObstType::Debris) => Spot::Offset { dx: -350i32, dy: 200 },
        (FishingLocal::Ocean, ObstType::Pad) => Spot::Offset { dx: 160, dy: 100 },
        (FishingLocal::Ocean, ObstType::Fissure) => Spot::Offset { dx: -360i32, dy: -100i32 },
        (FishingLocal::Ocean, ObstType::Debris) => Spot::Offset { dx: 260, dy: 300 },
    }
}

/// The depths of the pond and the beach backdrops when `shown` is shown.
pub fn backdrop_layers(shown: FishingLocal) -> (r: (u32, u32))
    ensures
        r == spec_backdrop_layers(shown),
{
    match shown {
        FishingLocal::Ocean => (BACK_LAYER, FRONT_LAYER),
        _ => (FRONT_LAYER, BACK_LAYER),
    }
}

/// Where everything of the fishing view goes when an area is shown.
pub struct AreaLayout {
    /// One spot for each fish, in the order they were given.
    pub fish: Vec<Spot>,
    /// One spot for each obstruction, in the order they were given.
    pub obstructions: Vec<Spot>,
    /// The depth of the pond backdrop.
    pub pond_layer: u32,
    /// The depth of the beach backdrop.
    pub beach_layer: u32,
}

/// Lays out the fishing view for the area `shown`: each fish by its area,
/// each obstruction by its area and kind, and the two backdrops.
pub fn lay_out_area(
    shown: FishingLocal,
    fish_areas: &Vec<FishingLocal>,
    obstructions: &Vec<(FishingLocal, ObstType)>,
) -> (r: AreaLayout)
    ensures
        r.fish@.len() == fish_areas@.len(),
        forall|i: int|
            0 <= i < fish_areas@.len() ==> r.fish@[i] == spec_fish_spot(shown, #[trigger] fish_areas@[i]),
        r.obstructions@.len() == obstructions@.len(),
        forall|i: int|
            0 <= i < obstructions@.len() ==> r.obstructions@[i] == spec_obstruction_spot(
                shown,
                (#[trigger] obstructions@[i]).0,
                obstructions@[i].1,
            ),
        (r.pond_layer, r.beach_layer) == spec_backdrop_layers(shown),
{
    let mut fish: Vec<Spot> = Vec::new();
    let mut i: usize = 0;
    while i < fish_areas.len()
        invariant
            i <= fish_areas.len(),
            fish@.len() == i,
            forall|j: int| 0 <= j < i ==> fish@[j] == spec_fish_spot(shown, #[trigger] fish_areas@[j]),
        decreases fish_areas.len() - i,
    {
        fish.push(fish_spot(shown, fish_areas[i]));
        i = i + 1;
    }
    let mut spots: Vec<Spot> = Vec::new();
    let mut k: usize = 0;
    while k < obstructions.len()
        invariant
            k <= obstructions.len(),
            spots@.len() == k,
            forall|j: int|
                0 <= j < k ==> spots@[j] == spec_obstruction_spot(
                    shown,
                    (#[trigger] obstructions@[j]).0,
                    obstructions@[j].1,
                ),
        decreases obstructions.len() - k,
    {
        let (area, kind) = obstructions[k];
        spots.push(obstruction_spot(shown, area, kind));
        k = k + 1;
    }
    let (pond_layer, beach_layer) = backdrop_layers(shown);
    AreaLayout { fish, obstructions: spots, pond_layer, beach_layer }
}

/// Only the shown area is in sight: its fish are in the middle of the
/// room, its obstructions at their places, and everything of the other
/// areas is out of sight; exactly one backdrop is in front, the beach at
/// the ocean and the pond elsewhere.
pub proof fn lemma_only_shown_area_in_sight(shown: FishingLocal, area: FishingLocal, kind: ObstType)
    ensures
        (spec_fish_spot(shown, area) == Spot::Center) <==> area == shown,
        (spec_fish_spot(shown, area) == Spot::Away) <==> area != shown,
        (spec_obstruction_spot(shown, area, kind) == Spot::Away) <==> area != shown,
        spec_backdrop_layers(shown).0 != spec_backdrop_layers(shown).1,
        (spec_backdrop_layers(shown).1 == FRONT_LAYER) <==> shown == FishingLocal::Ocean,
{
}


/// The obstructions the areas start with: a lily pad in each pond, a water
/// bottle and a bush in pond one, a water bottle in pond two and in the
/// ocean, and a fissure in pond one.
pub open spec fn spec_initial_obstructions() -> Seq<(FishingLocal, ObstType)> {
    seq![
        (FishingLocal::Pond1, ObstType::Pad),
        (FishingLocal::Pond2, ObstType::Pad),
        (FishingLocal::Pond1, ObstType::Debris),
        (FishingLocal::Pond1, ObstType::Debris),
        (FishingLocal::Pond2, ObstType::Debris),
        (FishingLocal::Ocean, ObstType::Debris),
        (FishingLocal::Pond1, ObstType::Fissure),
    ]
}

/// The obstructions the areas start with, with their areas.
pub fn initial_obstructions() -> (r: Vec<(FishingLocal, ObstType)>)
    ensures
        r@ == spec_initial_obstructions(),
{
    let mut v: Vec<(FishingLocal, ObstType)> = Vec::new();
    v.push((FishingLocal::Pond1, ObstType::Pad));
    v.push((FishingLocal::Pond2, ObstType::Pad));
    v.push((FishingLocal::Pond1, ObstType::Debris));
    v.push((FishingLocal::Pond1, ObstType::Debris));
    v.push((FishingLocal::Pond2, ObstType::Debris));
    v.push((FishingLocal::Ocean, ObstType::Debris));
    v.push((FishingLocal::Pond1, ObstType::Fissure));
    v
}


/// Where each obstruction of the shown area stands, in pixels from the
/// middle of the room: in pond one the lily pad at (160, 100), the fissure
/// at (-300, -100) and debris at (-500, 50); in pond two the pad at
/// (-160, 300), the fissure at (260, 0) and debris at (-350, 200); in the
/// ocean the pad at (160, 100), the fissure at (-360, -100) and debris at
/// (260, 300). Trees stay where they are, and within an area no two kinds
/// share a place.
pub proof fn lemma_obstruction_places(shown: FishingLocal, kind: ObstType, other: ObstType)
    ensures
        spec_obstruction_spot(shown, shown, ObstType::Tree) == Spot::Unchanged,
        shown == FishingLocal::Pond1 ==> spec_obstruction_spot(shown, shown, ObstType::Pad)
            == (Spot::Offset { dx: 160, dy: 100 }),
        shown == FishingLocal::Pond1 ==> spec_obstruction_spot(shown, shown, ObstType::Fissure)
            == (Spot::Offset { dx: -300i32, dy: -100i32 }),
        shown == FishingLocal::Pond1 ==> spec_obstruction_spot(shown, shown, ObstType::Debris)
            == (Spot::Offset { dx: -500i32, dy: 50 }),
        shown == FishingLocal::Pond2 ==> spec_obstruction_spot(shown, shown, ObstType::Pad)
            == (Spot::Offset { dx: -160i32, dy: 300 }),
        shown == FishingLocal::Pond2 ==> spec_obstruction_spot(shown, shown, ObstType::Fissure)
            == (Spot::Offset { dx: 260, dy: 0 }),
        shown == FishingLocal::Pond2 ==> spec_obstruction_spot(shown, shown, ObstType::Debris)
            == (Spot::Offset { dx: -350i32, dy: 200 }),
        shown == FishingLocal::Ocean ==> spec_obstruction_spot(shown, shown, ObstType::Pad)
            == (Spot::Offset { dx: 160, dy: 100 }),
        shown == FishingLocal::Ocean ==> spec_obstruction_spot(shown, shown, ObstType::Fissure)
            == (Spot::Offset { dx: -360i32, dy: -100i32 }),
        shown == FishingLocal::Ocean ==> spec_obstruction_spot(shown, shown, ObstType::Debris)
            == (Spot::Offset { dx: 260, dy: 300 }),
        kind != other ==> spec_obstruction_spot(shown, shown, kind) != spec_obstruction_spot(
            shown,
            shown,
            other,
        ),
        kind != ObstType::Tree ==> spec_obstruction_spot(shown, shown, kind) is Offset,
{
}

/// The backdrops by value: at the ocean the pond sits at depth 100 behind
/// the beach at 900; at either pond the pond sits at 900 in front of the
/// beach at 100.
pub proof fn lemma_backdrop_values(shown: FishingLocal)
    ensures
        shown == FishingLocal::Ocean ==> spec_backdrop_layers(shown) == (100u32, 900u32),
        shown != FishingLocal::Ocean ==> spec_backdrop_layers(shown) == (900u32, 100u32),
{
}

/// The obstructions the areas start with, by value: pond one holds a pad,
/// two pieces of debris and a fissure, pond two a pad and a piece of
/// debris, the ocean a piece of debris; there are no trees.
pub proof fn lemma_initial_obstruction_values()
    ensures
        spec_initial_obstructions().len() == 7,
        spec_initial_obstructions()[0] == (FishingLocal::Pond1, ObstType::Pad),
        spec_initial_obstructions()[1] == (FishingLocal::Pond2, ObstType::Pad),
        spec_initial_obstructions()[2] == (FishingLocal::Pond1, ObstType::Debris),
        spec_initial_obstructions()[3] == (FishingLocal::Pond1, ObstType::Debris),
        spec_initial_obstructions()[4] == (FishingLocal::Pond2, ObstType::Debris),
        spec_initial_obstructions()[5] == (FishingLocal::Ocean, ObstType::Debris),
        spec_initial_obstructions()[6] == (FishingLocal::Pond1, ObstType::Fissure),
{
}

} // verus!
