//! Nightly restocking of the fishing areas: how many fish each area holds,
//! how many new fish it gets, of which species, and under which ids.

use vstd::prelude::*;
use crate::area::FishingLocal;
use crate::random::{roll_below, thread_rng};

verus! {

/// The species that live in the fishing areas.
#[derive(Clone, Copy, Debug, PartialEq, Eq, Structural)]
pub enum Species {
    Bass,
    Catfish,
    MahiMahi,
    Tuna,
    Swordfish,
    RedHandfish,
}

/// One fish to put into an area.
#[derive(Clone, Copy, Debug, PartialEq, Eq, Structural)]
pub struct Stocking {
    pub area: FishingLocal,
    pub species: Species,
    pub id: u32,
}

/// The dice of one area for one night: one check per try, and one roll for
/// the species of the fish that a successful try adds.
#[derive(Clone, Copy, Debug)]
pub struct AreaRolls {
    pub checks: [i32; 3],
    pub kinds: [i32; 3],
}

/// The number of fish each area is restocked towards.
pub const STOCK_TARGET: i32 = 10;

/// How many new fish an area may get in one night.
pub const RESTOCK_TRIES: usize = 3;

/// A check is a number from 0 to this bound, exclusive.
pub const CHECK_SIDES: i32 = 11;

/// A species roll is a number from 0 to this bound, exclusive.
pub const KIND_SIDES: i32 = 100;

/// How many of the fish lie in `area`.
pub open spec fn count_in(areas: Seq<FishingLocal>, area: FishingLocal) -> nat
    decreases areas.len(),
{
    if areas.len() == 0 {
        0
    } else {
        count_in(areas.drop_last(), area) + if areas.last() == area {
            1nat
        } else {
            0nat
        }
    }
}

/// The species of a new fish in `area`, by its species roll.
pub open spec fn species_for(area: FishingLocal, roll: int) -> Species {
    match area {
        FishingLocal::Ocean => if roll <= 30 {
            Species::MahiMahi
        } else if roll <= 60 {
            Species::Tuna
        } else if roll < 90 {
            Species::Swordfish
        } else {
            Species::RedHandfish
        },
        _ => if roll <= 50 {
            Species::Bass
        } else {
            Species::Catfish
        },
    }
}

/// The first `k` tries in `area`, which holds `count` fish while `total`
/// fish live in all areas: the count and the total after them, and the fish
/// they add. A try adds a fish when its check is at most the shortfall
/// from the target, and the new fish takes the next id.
pub open spec fn stock_rounds(
    area: FishingLocal,
    count: int,
    total: int,
    rolls: AreaRolls,
    k: nat,
) -> (int, int, Seq<Stocking>)
    decreases k,
{
    if k == 0 {
        (count, total, Seq::empty())
    } else {
        let prev = stock_rounds(area, count, total, rolls, (k - 1) as nat);
        if rolls.checks@[k - 1] <= STOCK_TARGET - prev.0 {
            (
                prev.0 + 1,
                prev.1 + 1,
                prev.2.push(
                    Stocking {
                        area,
                        species: species_for(area, rolls.kinds@[k - 1] as int),
                        id: (prev.1 + 1) as u32,
                    },
                ),
            )
        } else {
            prev
        }
    }
}

/// The fish that a night adds, area by area in the order pond one, pond
/// two, ocean, with the ids counting on from the number of fish there are.
pub open spec fn restock_plan(
    areas: Seq<FishingLocal>,
    pond1: AreaRolls,
    pond2: AreaRolls,
    ocean: AreaRolls,
) -> Seq<Stocking> {
    let c1 = count_in(areas, FishingLocal::Pond1) as int;
    let c2 = count_in(areas, FishingLocal::Pond2) as int;
    let c3 = count_in(areas, FishingLocal::Ocean) as int;
    let r1 = stock_rounds(FishingLocal::Pond1, c1, c1 + c2 + c3, pond1, 3);
    let r2 = stock_rounds(FishingLocal::Pond2, c2, r1.1, pond2, 3);
    let r3 = stock_rounds(FishingLocal::Ocean, c3, r2.1, ocean, 3);
    r1.2 + r2.2 + r3.2
}

/// Dice that the generator can produce.
pub open spec fn rolls_in_range(rolls: AreaRolls) -> bool {
    forall|i: int|
        0 <= i < 3 ==> 0 <= #[trigger] rolls.checks@[i] < CHECK_SIDES && 0 <= rolls.kinds@[i]
            < KIND_SIDES
}

/// Every fish lies in one of the three areas.
pub proof fn lemma_counts_add_up(areas: Seq<FishingLocal>)
    ensures
        count_in(areas, FishingLocal::Pond1) + count_in(areas, FishingLocal::Pond2) + count_in(
            areas,
            FishingLocal::Ocean,
        ) == areas.len(),
    decreases areas.len(),
{
    if areas.len() > 0 {
        lemma_counts_add_up(areas.drop_last());
    }
}

/// Counts the fish of each area.
pub fn count_fish(areas: &Vec<FishingLocal>) -> (r: (usize, usize, usize))
    ensures
        r.0 == count_in(areas@, FishingLocal::Pond1),
        r.1 == count_in(areas@, FishingLocal::Pond2),
        r.2 == count_in(areas@, FishingLocal::Ocean),
{
    let mut p1: usize = 0;
    let mut p2: usize = 0;
    let mut beach: usize = 0;
    let mut i: usize = 0;
    while i < areas.len()
        invariant
            i <= areas.len(),
            p1 == count_in(areas@.take(i as int), FishingLocal::Pond1),
            p2 == count_in(areas@.take(i as int), FishingLocal::Pond2),
            beach == count_in(areas@.take(i as int), FishingLocal::Ocean),
        decreases areas.len() - i,
    {
        proof {
            assert(areas@.take(i as int + 1).drop_last() =~= areas@.take(i as int));
            lemma_counts_add_up(areas@.take(i as int));
        }
        match areas[i] {
            FishingLocal::Pond1 => p1 = p1 + 1,
            FishingLocal::Pond2 => p2 = p2 + 1,
            FishingLocal::Ocean => beach = beach + 1,
        }
        i = i + 1;
    }
    assert(areas@.take(areas.len() as int) =~= areas@);
    (p1, p2, beach)
}

/// The species of a new fish in `area`, by its species roll.
pub fn choose_species(area: FishingLocal, roll: i32) -> (r: Species)
    ensures
        r == species_for(area, roll as int),
{
    match area {
        FishingLocal::Ocean => {
            if roll <= 30 {
                Species::MahiMahi
            } else if roll <= 60 {
                Species::Tuna
            } else if roll < 90 {
                Species::Swordfish
            } else {
                Species::RedHandfish
            }
        },
        _ => {
            if roll <= 50 {
                Species::Bass
            } else {
                Species::Catfish
            }
        },
    }
}

/// The tries of one area: appends the fish they add to `out` and returns
/// the area's count and the overall total after them.
pub fn stock_area(
    area: FishingLocal,
    count: i32,
    total: i32,
    rolls: &AreaRolls,
    out: &mut Vec<Stocking>,
) -> (r: (i32, i32))
    requires
        0 <= count,
        0 <= total,
        count + 3 <= i32::MAX,
        total + 3 <= i32::MAX,
    ensures
        total <= r.1 <= total + 3,
        r.0 == stock_rounds(area, count as int, total as int, *rolls, 3).0,
        r.1 == stock_rounds(area, count as int, total as int, *rolls, 3).1,
        final(out)@ == old(out)@ + stock_rounds(area, count as int, total as int, *rolls, 3).2,
{
    let mut c = count;
    let mut t = total;
    let mut w: usize = 0;
    while w < RESTOCK_TRIES
        invariant
            w <= 3,
            0 <= count <= c <= count + w,
            total <= t <= total + w,
            count + 3 <= i32::MAX,
            total + 3 <= i32::MAX,
            c == stock_rounds(area, count as int, total as int, *rolls, w as nat).0,
            t == stock_rounds(area, count as int, total as int, *rolls, w as nat).1,
            out@ == old(out)@ + stock_rounds(area, count as int, total as int, *rolls, w as nat).2,
        decreases 3 - w,
    {
        let odds = STOCK_TARGET - c;
        if rolls.checks[w] <= odds {
            c = c + 1;
            t = t + 1;
            let species = choose_species(area, rolls.kinds[w]);
            out.push(Stocking { area, species, id: t as u32 });
        }
        w = w + 1;
    }
    (c, t)
}

/// The fish that a night adds, given the fish there are (by area) and the
/// dice of each area.
pub fn plan_restock(
    areas: &Vec<FishingLocal>,
    pond1: &AreaRolls,
    pond2: &AreaRolls,
    ocean: &AreaRolls,
) -> (r: Vec<Stocking>)
    requires
        areas.len() + 9 <= i32::MAX,
    ensures
        r@ == restock_plan(areas@, *pond1, *pond2, *ocean),
{
    proof {
        lemma_counts_add_up(areas@);
    }
    let (c1, c2, c3) = count_fish(areas);
    let total = (c1 + c2 + c3) as i32;
    let mut out: Vec<Stocking> = Vec::new();
    let (_, t1) = stock_area(FishingLocal::Pond1, c1 as i32, total, pond1, &mut out);
    let (_, t2) = stock_area(FishingLocal::Pond2, c2 as i32, t1, pond2, &mut out);
    let (_, _) = stock_area(FishingLocal::Ocean, c3 as i32, t2, ocean, &mut out);
    assert(out@ =~= restock_plan(areas@, *pond1, *pond2, *ocean));
    out
}


/// Restocks the areas for the night: rolls the dice of the thread-local
/// generator and plans the new fish with them.
pub fn restock(areas: &Vec<FishingLocal>) -> (r: Vec<Stocking>)
    requires
        areas.len() + 9 <= i32::MAX,
    ensures
        exists|pond1: AreaRolls, pond2: AreaRolls, ocean: AreaRolls|
            rolls_in_range(pond1) && rolls_in_range(pond2) && rolls_in_range(ocean) && r@
                == restock_plan(areas@, pond1, pond2, ocean),
{
    let mut rng = thread_rng();
    let pond1 = roll_area(&mut rng);
    let pond2 = roll_area(&mut rng);
    let ocean = roll_area(&mut rng);
    plan_restock(areas, &pond1, &pond2, &ocean)
}

/// Rolls the dice of one area.
fn roll_area(rng: &mut rand::rngs::ThreadRng) -> (r: AreaRolls)
    ensures
        rolls_in_range(r),
{
    let c0 = roll_below(rng, CHECK_SIDES);
    let k0 = roll_below(rng, KIND_SIDES);
    let c1 = roll_below(rng, CHECK_SIDES);
    let k1 = roll_below(rng, KIND_SIDES);
    let c2 = roll_below(rng, CHECK_SIDES);
    let k2 = roll_below(rng, KIND_SIDES);
    let r = AreaRolls { checks: [c0, c1, c2], kinds: [k0, k1, k2] };
    assert forall|i: int| 0 <= i < 3 implies 0 <= #[trigger] r.checks@[i] < CHECK_SIDES && 0
        <= r.kinds@[i] < KIND_SIDES by {
        if i == 0 {
        } else if i == 1 {
        } else {
        }
    }
    r
}

/// How many of the planned fish go to `area`.
pub open spec fn stocked(plan: Seq<Stocking>, area: FishingLocal) -> nat {
    count_in(plan.map_values(|s: Stocking| s.area), area)
}

proof fn lemma_count_concat(s1: Seq<FishingLocal>, s2: Seq<FishingLocal>, area: FishingLocal)
    ensures
        count_in(s1 + s2, area) == count_in(s1, area) + count_in(s2, area),
    decreases s2.len(),
{
    if s2.len() == 0 {
        assert(s1 + s2 =~= s1);
    } else {
        assert((s1 + s2).drop_last() =~= s1 + s2.drop_last());
        lemma_count_concat(s1, s2.drop_last(), area);
    }
}

proof fn lemma_count_uniform(s: Seq<FishingLocal>, b: FishingLocal, area: FishingLocal)
    requires
        forall|i: int| 0 <= i < s.len() ==> s[i] == b,
    ensures
        count_in(s, area) == if area == b {
            s.len()
        } else {
            0
        },
    decreases s.len(),
{
    if s.len() > 0 {
        lemma_count_uniform(s.drop_last(), b, area);
    }
}

/// The tries of one area add at most one fish each, all of them to that
/// area, under the ids that follow the total in turn; and with dice that the
/// generator can produce, an area ends the night with at most one fish more
/// than the target, and an area above the target gets none.
pub proof fn lemma_area_restock(
    area: FishingLocal,
    count: int,
    total: int,
    rolls: AreaRolls,
    k: nat,
)
    requires
        0 <= count,
        0 <= total,
        total + k <= u32::MAX,
        k <= 3,
    ensures
        ({
            let r = stock_rounds(area, count, total, rolls, k);
            &&& r.2.len() == r.0 - count
            &&& r.2.len() == r.1 - total
            &&& r.2.len() <= k
            &&& forall|i: int|
                0 <= i < r.2.len() ==> (#[trigger] r.2[i]).area == area && r.2[i].id == total
                    + 1 + i
            &&& rolls_in_range(rolls) ==> r.0 <= if count > STOCK_TARGET + 1 {
                count
            } else {
                STOCK_TARGET + 1
            }
        }),
    decreases k,
{
    if k > 0 {
        lemma_area_restock(area, count, total, rolls, (k - 1) as nat);
        let prev = stock_rounds(area, count, total, rolls, (k - 1) as nat);
        if rolls_in_range(rolls) {
            assert(0 <= rolls.checks@[k - 1]);
        }
    }
}

/// A night adds at most three fish to each area, never lifts an area past
/// one more than the target, and gives the new fish fresh ids that count on
/// from the number of fish there were.
pub proof fn lemma_restock_plan(
    areas: Seq<FishingLocal>,
    pond1: AreaRolls,
    pond2: AreaRolls,
    ocean: AreaRolls,
    area: FishingLocal,
)
    requires
        areas.len() + 9 <= u32::MAX,
    ensures
        ({
            let plan = restock_plan(areas, pond1, pond2, ocean);
            &&& plan.len() <= 9
            &&& forall|i: int| 0 <= i < plan.len() ==> (#[trigger] plan[i]).id == areas.len() + 1 + i
            &&& stocked(plan, area) <= 3
            &&& rolls_in_range(pond1) && rolls_in_range(pond2) && rolls_in_range(ocean)
                ==> count_in(areas, area) + stocked(plan, area) <= if count_in(areas, area)
                > STOCK_TARGET + 1 {
                count_in(areas, area) as int
            } else {
                STOCK_TARGET + 1
            }
        }),
{
    lemma_counts_add_up(areas);
    let c1 = count_in(areas, FishingLocal::Pond1) as int;
    let c2 = count_in(areas, FishingLocal::Pond2) as int;
    let c3 = count_in(areas, FishingLocal::Ocean) as int;
    let r1 = stock_rounds(FishingLocal::Pond1, c1, c1 + c2 + c3, pond1, 3);
    lemma_area_restock(FishingLocal::Pond1, c1, c1 + c2 + c3, pond1, 3);
    let r2 = stock_rounds(FishingLocal::Pond2, c2, r1.1, pond2, 3);
    lemma_area_restock(FishingLocal::Pond2, c2, r1.1, pond2, 3);
    let r3 = stock_rounds(FishingLocal::Ocean, c3, r2.1, ocean, 3);
    lemma_area_restock(FishingLocal::Ocean, c3, r2.1, ocean, 3);
    let plan = r1.2 + r2.2 + r3.2;
    assert(plan == restock_plan(areas, pond1, pond2, ocean));
    assert forall|i: int| 0 <= i < plan.len() implies (#[trigger] plan[i]).id == areas.len() + 1
        + i by {
        if i < r1.2.len() {
            assert(plan[i] == r1.2[i]);
        } else if i < r1.2.len() + r2.2.len() {
            assert(plan[i] == r2.2[i - r1.2.len()]);
        } else {
            assert(plan[i] == r3.2[i - r1.2.len() - r2.2.len()]);
        }
    }
    let f = |s: Stocking| s.area;
    let a1 = r1.2.map_values(f);
    let a2 = r2.2.map_values(f);
    let a3 = r3.2.map_values(f);
    assert(plan.map_values(f) =~= a1 + a2 + a3);
    lemma_count_concat(a1 + a2, a3, area);
    lemma_count_concat(a1, a2, area);
    assert forall|i: int| 0 <= i < a1.len() implies a1[i] == FishingLocal::Pond1 by {
        assert(r1.2[i].area == FishingLocal::Pond1);
    }
    assert forall|i: int| 0 <= i < a2.len() implies a2[i] == FishingLocal::Pond2 by {
        assert(r2.2[i].area == FishingLocal::Pond2);
    }
    assert forall|i: int| 0 <= i < a3.len() implies a3[i] == FishingLocal::Ocean by {
        assert(r3.2[i].area == FishingLocal::Ocean);
    }
    lemma_count_uniform(a1, FishingLocal::Pond1, area);
    lemma_count_uniform(a2, FishingLocal::Pond2, area);
    lemma_count_uniform(a3, FishingLocal::Ocean, area);
}


/// The fish the areas start with, as the ones that count for restocking
/// see them: a bass in each pond and a catfish in pond one.
pub open spec fn spec_initial_stock() -> Seq<Stocking> {
    seq![
        Stocking { area: FishingLocal::Pond1, species: Species::Bass, id: 0 },
        Stocking { area: FishingLocal::Pond2, species: Species::Bass, id: 2 },
        Stocking { area: FishingLocal::Pond1, species: Species::Catfish, id: 1 },
    ]
}

/// The fish the areas start with.
pub fn initial_stock() -> (r: Vec<Stocking>)
    ensures
        r@ == spec_initial_stock(),
{
    let mut v: Vec<Stocking> = Vec::new();
    v.push(Stocking { area: FishingLocal::Pond1, species: Species::Bass, id: 0 });
    v.push(Stocking { area: FishingLocal::Pond2, species: Species::Bass, id: 2 });
    v.push(Stocking { area: FishingLocal::Pond1, species: Species::Catfish, id: 1 });
    v
}

/// No id is larger than the number of fish.
pub open spec fn ids_within_count(fish: Seq<Stocking>) -> bool {
    forall|i: int| 0 <= i < fish.len() ==> (#[trigger] fish[i]).id <= fish.len()
}

/// The areas of a list of fish.
pub open spec fn areas_of(fish: Seq<Stocking>) -> Seq<FishingLocal> {
    fish.map_values(|s: Stocking| s.area)
}

/// While no fish has an id above the number of fish, restocking hands out
/// no id that a fish already has: the new ids lie above all the old ones,
/// and the fish after the night again have no id above their number. The
/// fish the areas start with meet that premise. (Taking fish out, as
/// landing one does, can break it: then a new id may repeat an old one.)
pub proof fn lemma_restock_ids_fresh(
    fish: Seq<Stocking>,
    pond1: AreaRolls,
    pond2: AreaRolls,
    ocean: AreaRolls,
)
    requires
        ids_within_count(fish),
        fish.len() + 9 <= u32::MAX,
    ensures
        ids_within_count(spec_initial_stock()),
        ({
            let plan = restock_plan(areas_of(fish), pond1, pond2, ocean);
            &&& ids_within_count(fish + plan)
            &&& forall|i: int, j: int|
                0 <= i < fish.len() && 0 <= j < plan.len() ==> (#[trigger] fish[i]).id
                    != (#[trigger] plan[j]).id
        }),
{
    let areas = areas_of(fish);
    lemma_restock_plan(areas, pond1, pond2, ocean, FishingLocal::Pond1);
    let plan = restock_plan(areas, pond1, pond2, ocean);
    let all = fish + plan;
    assert forall|i: int| 0 <= i < all.len() implies (#[trigger] all[i]).id <= all.len() by {
        if i < fish.len() {
            assert(all[i] == fish[i]);
        } else {
            assert(all[i] == plan[i - fish.len()]);
        }
    }
}


/// Each try of a night is judged against the area's shortfall as it stands
/// after the earlier tries: the try adds a fish exactly when its check is
/// at most ten minus the fish the area then holds, a missed try changes
/// nothing (so the shortfall stays as it was), and a fish that is added
/// lands in the area under the next id, one above the total before it.
pub proof fn lemma_try_uses_current_shortfall(
    area: FishingLocal,
    count: int,
    total: int,
    rolls: AreaRolls,
    k: nat,
)
    requires
        1 <= k <= 3,
        0 <= count,
        0 <= total,
        total + k <= u32::MAX,
    ensures
        ({
            let before = stock_rounds(area, count, total, rolls, (k - 1) as nat);
            let after = stock_rounds(area, count, total, rolls, k);
            &&& before.0 == count + before.2.len()
            &&& (after.2.len() == before.2.len() + 1) <==> rolls.checks@[k - 1] <= 10 - before.0
            &&& rolls.checks@[k - 1] > 10 - before.0 ==> after == before
            &&& rolls.checks@[k - 1] <= 10 - before.0 ==> {
                &&& after.0 == before.0 + 1
                &&& after.1 == before.1 + 1
                &&& after.2 == before.2.push(after.2.last())
                &&& after.2.last().area == area
                &&& after.2.last().id == total + before.2.len() + 1
            }
        }),
{
    lemma_area_restock(area, count, total, rolls, (k - 1) as nat);
    lemma_area_restock(area, count, total, rolls, k);
}

/// Which species a new fish is, by its roll: in the ponds a bass on a roll
/// of at most 50 and a catfish above; in the ocean a mahi-mahi up to 30,
/// a tuna from 31 to 60, a swordfish from 61 to 89 and a red handfish from
/// 90 on. Pond fish are never ocean species and ocean fish never pond ones.
pub proof fn lemma_species_by_roll(area: FishingLocal, roll: int)
    ensures
        area != FishingLocal::Ocean ==> (species_for(area, roll) == Species::Bass <==> roll <= 50),
        area != FishingLocal::Ocean ==> (species_for(area, roll) == Species::Catfish <==> roll
            > 50),
        area == FishingLocal::Ocean ==> (species_for(area, roll) == Species::MahiMahi <==> roll
            <= 30),
        area == FishingLocal::Ocean ==> (species_for(area, roll) == Species::Tuna <==> 30 < roll
            <= 60),
        area == FishingLocal::Ocean ==> (species_for(area, roll) == Species::Swordfish <==> 60
            < roll < 90),
        area == FishingLocal::Ocean ==> (species_for(area, roll) == Species::RedHandfish <==> 90
            <= roll),
{
}

/// The night's new fish come area by area, first pond one, then pond two,
/// then the ocean, and each has a species of its area.
pub proof fn lemma_restock_order(
    areas: Seq<FishingLocal>,
    pond1: AreaRolls,
    pond2: AreaRolls,
    ocean: AreaRolls,
)
    requires
        areas.len() + 9 <= u32::MAX,
    ensures
        ({
            let plan = restock_plan(areas, pond1, pond2, ocean);
            &&& forall|i: int, j: int|
                0 <= i < j < plan.len() ==> area_rank((#[trigger] plan[i]).area) <= area_rank(
                    (#[trigger] plan[j]).area,
                )
            &&& forall|i: int|
                0 <= i < plan.len() ==> ((#[trigger] plan[i]).area == FishingLocal::Ocean <==> (
                plan[i].species == Species::MahiMahi || plan[i].species == Species::Tuna
                    || plan[i].species == Species::Swordfish || plan[i].species
                    == Species::RedHandfish))
        }),
{
    lemma_counts_add_up(areas);
    let c1 = count_in(areas, FishingLocal::Pond1) as int;
    let c2 = count_in(areas, FishingLocal::Pond2) as int;
    let c3 = count_in(areas, FishingLocal::Ocean) as int;
    let r1 = stock_rounds(FishingLocal::Pond1, c1, c1 + c2 + c3, pond1, 3);
    lemma_area_restock(FishingLocal::Pond1, c1, c1 + c2 + c3, pond1, 3);
    let r2 = stock_rounds(FishingLocal::Pond2, c2, r1.1, pond2, 3);
    lemma_area_restock(FishingLocal::Pond2, c2, r1.1, pond2, 3);
    let r3 = stock_rounds(FishingLocal::Ocean, c3, r2.1, ocean, 3);
    lemma_area_restock(FishingLocal::Ocean, c3, r2.1, ocean, 3);
    lemma_species_of_rounds(FishingLocal::Pond1, c1, c1 + c2 + c3, pond1, 3);
    lemma_species_of_rounds(FishingLocal::Pond2, c2, r1.1, pond2, 3);
    lemma_species_of_rounds(FishingLocal::Ocean, c3, r2.1, ocean, 3);
    let plan = r1.2 + r2.2 + r3.2;
    assert(plan == restock_plan(areas, pond1, pond2, ocean));
    assert forall|i: int| 0 <= i < plan.len() implies (#[trigger] plan[i]) == if i < r1.2.len() {
        r1.2[i]
    } else if i < r1.2.len() + r2.2.len() {
        r2.2[i - r1.2.len()]
    } else {
        r3.2[i - r1.2.len() - r2.2.len()]
    } by {}
}

/// The order of the areas in a night's restocking.
pub open spec fn area_rank(area: FishingLocal) -> int {
    match area {
        FishingLocal::Pond1 => 0,
        FishingLocal::Pond2 => 1,
        FishingLocal::Ocean => 2,
    }
}

proof fn lemma_species_of_rounds(area: FishingLocal, count: int, total: int, rolls: AreaRolls, k: nat)
    ensures
        forall|i: int|
            0 <= i < stock_rounds(area, count, total, rolls, k).2.len() ==> ((#[trigger] stock_rounds(
                area,
                count,
                total,
                rolls,
                k,
            ).2[i]).area == area && (area == FishingLocal::Ocean <==> (stock_rounds(area, count, total, rolls, k).2[i].species
                == Species::MahiMahi || stock_rounds(area, count, total, rolls, k).2[i].species
                == Species::Tuna || stock_rounds(area, count, total, rolls, k).2[i].species
                == Species::Swordfish || stock_rounds(area, count, total, rolls, k).2[i].species
                == Species::RedHandfish))),
    decreases k,
{
    if k > 0 {
        lemma_species_of_rounds(area, count, total, rolls, (k - 1) as nat);
    }
}

/// The fish the areas start with, by value: a bass with id 0 in pond one,
/// a bass with id 2 in pond two, a catfish with id 1 in pond one; their ids
/// are distinct.
pub proof fn lemma_initial_stock_values()
    ensures
        spec_initial_stock().len() == 3,
        spec_initial_stock()[0].area == FishingLocal::Pond1 && spec_initial_stock()[0].species
            == Species::Bass && spec_initial_stock()[0].id == 0,
        spec_initial_stock()[1].area == FishingLocal::Pond2 && spec_initial_stock()[1].species
            == Species::Bass && spec_initial_stock()[1].id == 2,
        spec_initial_stock()[2].area == FishingLocal::Pond1 && spec_initial_stock()[2].species
            == Species::Catfish && spec_initial_stock()[2].id == 1,
        forall|i: int, j: int|
            0 <= i < j < 3 ==> (#[trigger] spec_initial_stock()[i]).id != (#[trigger] spec_initial_stock()[j]).id,
{
}

} // verus!
