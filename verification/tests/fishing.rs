use fishing_view::area::{
    initial_obstructions, initial_area, backdrop_layers, fish_spot, lay_out_area, obstruction_spot, FishingLocal, ObstType, Spot,
    BACK_LAYER, FRONT_LAYER,
};
use fishing_view::gear::{
    next_gear_index, str_equals, switch_line, switch_lure, switch_rod, LineKind, LureKind,
    RodKind,
};
use fishing_view::motion::{compass_heading, find_attraction, steer_fish, wander, Heading, Preference, Sighting};
use fishing_view::population::{
    initial_stock, choose_species, count_fish, plan_restock, restock, stock_area, AreaRolls, Species, Stocking,
};
use fishing_view::reel::{
    catch_reward, find_fish_with_id, hooked_debris, line_end, plan_line_segments,
    reveals_fish, rotation_direction, splash_step, DebrisHooked, LineEnd, SegmentPlan,
};
use fishing_view::state::{
    cast_input, enters_cast, initial_state, next_state, resets_interface, settle_frame, system_runs,
    target_of, FishingEvent, FishingState, FishingSystem,
};

// ---- state machine ----

#[test]
fn full_cast_cycle_returns_to_idle() {
    let s = next_state(FishingState::Idle, FishingEvent::PowerBarFull);
    assert_eq!(s, FishingState::Casting);
    let s = next_state(s, FishingEvent::CastLanded);
    assert_eq!(s, FishingState::ReelingUnhooked);
    let s = next_state(s, FishingEvent::FishHooked);
    assert_eq!(s, FishingState::ReelingHooked);
    let s = next_state(s, FishingEvent::FishLanded);
    assert_eq!(s, FishingState::Idle);
}

#[test]
fn empty_reel_returns_to_idle() {
    let s = next_state(FishingState::Idle, FishingEvent::TugReleased);
    let s = next_state(s, FishingEvent::CastLanded);
    let s = next_state(s, FishingEvent::LureReeledIn);
    assert_eq!(s, FishingState::Idle);
}

#[test]
fn events_out_of_place_change_nothing() {
    assert_eq!(next_state(FishingState::Idle, FishingEvent::FishLanded), FishingState::Idle);
    assert_eq!(next_state(FishingState::Casting, FishingEvent::PowerBarFull), FishingState::Casting);
    assert_eq!(
        next_state(FishingState::ReelingHooked, FishingEvent::LureReeledIn),
        FishingState::ReelingHooked
    );
    assert_eq!(target_of(FishingState::Casting, FishingEvent::FishHooked), None);
}

#[test]
fn last_applicable_event_of_a_frame_wins() {
    let events = vec![FishingEvent::FishHooked, FishingEvent::LureReeledIn, FishingEvent::FishLanded];
    assert_eq!(settle_frame(FishingState::ReelingUnhooked, &events), FishingState::Idle);
    let events = vec![FishingEvent::LureReeledIn, FishingEvent::FishHooked];
    assert_eq!(settle_frame(FishingState::ReelingUnhooked, &events), FishingState::ReelingHooked);
    assert_eq!(settle_frame(FishingState::Casting, &vec![]), FishingState::Casting);
}

#[test]
fn transition_hooks() {
    assert!(enters_cast(FishingState::Idle, FishingState::Casting));
    assert!(!enters_cast(FishingState::Casting, FishingState::Casting));
    assert!(resets_interface(FishingState::ReelingUnhooked, FishingState::Idle));
    assert!(resets_interface(FishingState::ReelingHooked, FishingState::Idle));
    assert!(!resets_interface(FishingState::Casting, FishingState::Idle));
    assert!(!resets_interface(FishingState::ReelingUnhooked, FishingState::ReelingHooked));
}

#[test]
fn run_conditions() {
    assert!(system_runs(FishingSystem::SwitchRod, true, FishingState::Idle, true));
    assert!(!system_runs(FishingSystem::SwitchRod, true, FishingState::Casting, true));
    assert!(!system_runs(FishingSystem::SwitchRod, false, FishingState::Idle, true));
    assert!(system_runs(FishingSystem::HandleDebris, true, FishingState::ReelingHooked, true));
    assert!(!system_runs(FishingSystem::HandleDebris, true, FishingState::Idle, true));
    assert!(!system_runs(FishingSystem::AnimateFishingLine, true, FishingState::Casting, true));
    assert!(system_runs(FishingSystem::AnimateFishingLine, true, FishingState::Idle, true));
    assert!(system_runs(FishingSystem::MoveFish, true, FishingState::Casting, true));
    assert!(system_runs(FishingSystem::CastLine, true, FishingState::Casting, true));
    assert!(system_runs(FishingSystem::IsFishCaught, true, FishingState::ReelingHooked, true));
    assert!(!system_runs(FishingSystem::IsDoneReeling, true, FishingState::ReelingHooked, true));
    assert!(system_runs(FishingSystem::UpdateFishVisibility, true, FishingState::Casting, false));
    assert!(!system_runs(FishingSystem::UpdateFishVisibility, true, FishingState::Idle, true));
    assert!(!system_runs(FishingSystem::UpdateFishVisibility, false, FishingState::Idle, false));
    assert!(system_runs(FishingSystem::SwitchLure, true, FishingState::Idle, false));
}

#[test]
fn view_starts_idle_at_the_first_pond() {
    assert_eq!(initial_state(), FishingState::Idle);
    assert_eq!(initial_area(), FishingLocal::Pond1);
}

#[test]
fn tug_key_events() {
    assert_eq!(cast_input(true, false, true), Some(FishingEvent::PowerBarFull));
    assert_eq!(cast_input(true, false, false), None);
    assert_eq!(cast_input(false, true, false), Some(FishingEvent::TugReleased));
    assert_eq!(cast_input(false, false, false), None);
}

// ---- gear ----

#[test]
fn gear_index_wraps() {
    assert_eq!(next_gear_index(0, 3), 1);
    assert_eq!(next_gear_index(2, 3), 0);
    assert_eq!(next_gear_index(0, 1), 0);
}

#[test]
fn gear_cycle_comes_back_after_len_switches() {
    let len = 4;
    let mut i = 1;
    for _ in 0..len {
        i = next_gear_index(i, len);
    }
    assert_eq!(i, 1);
}

#[test]
fn gear_names_round_trip() {
    for rod in [RodKind::Normal, RodKind::Surf] {
        assert_eq!(RodKind::from_name(rod.name()), Some(rod));
    }
    for line in [LineKind::Fluorocarbon, LineKind::Braided, LineKind::Monofilament, LineKind::Golden] {
        assert_eq!(LineKind::from_name(line.name()), Some(line));
    }
    for lure in [LureKind::Bobber, LureKind::Frog, LureKind::Fish] {
        assert_eq!(LureKind::from_name(lure.name()), Some(lure));
    }
    assert_eq!(RodKind::from_name("Fly Rod"), None);
    assert_eq!(LureKind::from_name("bobber"), None);
}

#[test]
fn gear_attributes() {
    assert_eq!(RodKind::Normal.texture(), "rods/default.png");
    assert_eq!(RodKind::Surf.texture(), "rods/surf.png");
    assert_eq!(LureKind::Bobber.texture_index(), 0);
    assert_eq!(LureKind::Frog.texture_index(), 1);
    assert_eq!(LureKind::Fish.texture_index(), 2);
    assert_eq!(LureKind::Fish.name(), "Swim Bait");
}

#[test]
fn switching_gear_cycles_the_inventory() {
    let rods = vec!["Default Rod", "Surf Rod"];
    assert_eq!(switch_rod(0, &rods), (1, RodKind::Surf));
    assert_eq!(switch_rod(1, &rods), (0, RodKind::Normal));
    let lines = vec!["Monofilament Fishing Line", "Golden Fishing Line"];
    assert_eq!(switch_line(0, &lines), (1, LineKind::Golden));
    let lures = vec!["Bobber", "Frog Bait", "Swim Bait"];
    assert_eq!(switch_lure(1, &lures), (2, LureKind::Fish));
    assert_eq!(switch_lure(2, &lures), (0, LureKind::Bobber));
}

#[test]
fn string_equality() {
    assert!(str_equals("Bobber", "Bobber"));
    assert!(!str_equals("Bobber", "Bobbe"));
    assert!(!str_equals("Bobber", "Robber"));
    assert!(str_equals("", ""));
}

// ---- restocking ----

fn rolls(checks: [i32; 3], kinds: [i32; 3]) -> AreaRolls {
    AreaRolls { checks, kinds }
}

#[test]
fn counting_fish_by_area() {
    let areas = vec![FishingLocal::Pond1, FishingLocal::Ocean, FishingLocal::Pond1];
    assert_eq!(count_fish(&areas), (2, 0, 1));
}

#[test]
fn species_by_roll() {
    assert_eq!(choose_species(FishingLocal::Pond1, 50), Species::Bass);
    assert_eq!(choose_species(FishingLocal::Pond2, 51), Species::Catfish);
    assert_eq!(choose_species(FishingLocal::Ocean, 30), Species::MahiMahi);
    assert_eq!(choose_species(FishingLocal::Ocean, 31), Species::Tuna);
    assert_eq!(choose_species(FishingLocal::Ocean, 60), Species::Tuna);
    assert_eq!(choose_species(FishingLocal::Ocean, 61), Species::Swordfish);
    assert_eq!(choose_species(FishingLocal::Ocean, 89), Species::Swordfish);
    assert_eq!(choose_species(FishingLocal::Ocean, 90), Species::RedHandfish);
}

#[test]
fn empty_areas_get_three_fish_each() {
    let areas: Vec<FishingLocal> = vec![];
    let low = rolls([0, 9, 8], [0, 99, 50]);
    let plan = plan_restock(&areas, &low, &low, &low);
    assert_eq!(plan.len(), 9);
    let ids: Vec<u32> = plan.iter().map(|s| s.id).collect();
    assert_eq!(ids, vec![1, 2, 3, 4, 5, 6, 7, 8, 9]);
    assert_eq!(plan[0], Stocking { area: FishingLocal::Pond1, species: Species::Bass, id: 1 });
    assert_eq!(plan[1].species, Species::Catfish);
    assert_eq!(plan[3].area, FishingLocal::Pond2);
    assert_eq!(plan[6], Stocking { area: FishingLocal::Ocean, species: Species::MahiMahi, id: 7 });
    assert_eq!(plan[7].species, Species::RedHandfish);
    assert_eq!(plan[8].species, Species::Tuna);
}

#[test]
fn full_area_can_overshoot_by_one() {
    // ten fish in pond one: the shortfall is zero, so only a zero check adds a fish,
    // and after that the shortfall is negative.
    let mut areas = vec![FishingLocal::Pond1; 10];
    areas.extend(vec![FishingLocal::Pond2; 10]);
    areas.extend(vec![FishingLocal::Ocean; 10]);
    let none = rolls([1, 1, 1], [0, 0, 0]);
    let p1 = rolls([0, 0, 0], [0, 0, 0]);
    let plan = plan_restock(&areas, &p1, &none, &none);
    assert_eq!(plan.len(), 1);
    assert_eq!(plan[0], Stocking { area: FishingLocal::Pond1, species: Species::Bass, id: 31 });
}

#[test]
fn area_tries_count_on() {
    let mut out = Vec::new();
    let r = stock_area(FishingLocal::Pond2, 8, 20, &rolls([2, 3, 0], [70, 0, 0]), &mut out);
    // shortfall 2: first check 2 hits, then shortfall 1 and check 3 misses, then 0 hits.
    assert_eq!(r, (10, 22));
    assert_eq!(out.len(), 2);
    assert_eq!(out[0], Stocking { area: FishingLocal::Pond2, species: Species::Catfish, id: 21 });
    assert_eq!(out[1], Stocking { area: FishingLocal::Pond2, species: Species::Bass, id: 22 });
}

#[test]
fn restock_of_empty_areas_adds_one_to_three_each() {
    // the first check the generator gives is at most the shortfall of ten, so
    // every empty area gets its first fish; later tries may miss.
    let plan = restock(&vec![]);
    for (i, s) in plan.iter().enumerate() {
        assert_eq!(s.id, i as u32 + 1);
        match s.area {
            FishingLocal::Ocean => assert!(matches!(
                s.species,
                Species::MahiMahi | Species::Tuna | Species::Swordfish | Species::RedHandfish
            )),
            _ => assert!(matches!(s.species, Species::Bass | Species::Catfish)),
        }
    }
    for area in [FishingLocal::Pond1, FishingLocal::Pond2, FishingLocal::Ocean] {
        let n = plan.iter().filter(|s| s.area == area).count();
        assert!(1 <= n && n <= 3);
    }
    // the areas come in order
    let order: Vec<FishingLocal> = plan.iter().map(|s| s.area).collect();
    let mut sorted = order.clone();
    sorted.sort_by_key(|a| match a {
        FishingLocal::Pond1 => 0,
        FishingLocal::Pond2 => 1,
        FishingLocal::Ocean => 2,
    });
    assert_eq!(order, sorted);
}

#[test]
fn restock_never_lifts_an_area_past_eleven() {
    let mut areas = vec![FishingLocal::Pond2; 9];
    areas.extend(vec![FishingLocal::Ocean; 12]);
    for _ in 0..20 {
        let plan = restock(&areas);
        let p1 = plan.iter().filter(|s| s.area == FishingLocal::Pond1).count();
        let p2 = plan.iter().filter(|s| s.area == FishingLocal::Pond2).count();
        let ocean = plan.iter().filter(|s| s.area == FishingLocal::Ocean).count();
        assert!(9 + p2 <= 11);
        assert_eq!(ocean, 0);
        assert!(1 <= p1 && p1 <= 3);
        for (i, s) in plan.iter().enumerate() {
            assert_eq!(s.id, 22 + i as u32);
        }
    }
}

#[test]
fn initial_stock_and_restock_ids_are_fresh() {
    let stock = initial_stock();
    assert_eq!(stock.len(), 3);
    assert_eq!(stock[1], Stocking { area: FishingLocal::Pond2, species: Species::Bass, id: 2 });
    let areas: Vec<FishingLocal> = stock.iter().map(|s| s.area).collect();
    assert_eq!(count_fish(&areas), (2, 1, 0));
    let plan = restock(&areas);
    for (i, s) in plan.iter().enumerate() {
        assert_eq!(s.id, 4 + i as u32);
        assert!(stock.iter().all(|old| old.id != s.id));
    }
}

#[test]
fn initial_obstructions_roster() {
    let obst = initial_obstructions();
    assert_eq!(obst.len(), 7);
    assert_eq!(obst[0], (FishingLocal::Pond1, ObstType::Pad));
    assert_eq!(obst[5], (FishingLocal::Ocean, ObstType::Debris));
    assert_eq!(obst[6], (FishingLocal::Pond1, ObstType::Fissure));
}

// ---- motion ----

fn sight(kind: ObstType, area: FishingLocal, ahead_x: bool, ahead_y: bool) -> Sighting {
    Sighting { kind, area, ahead_x, ahead_y }
}

#[test]
fn compass_faces() {
    assert_eq!(compass_heading(0), Some(Heading { dx: 0, dy: 1 }));
    assert_eq!(compass_heading(3), Some(Heading { dx: 1, dy: -1 }));
    assert_eq!(compass_heading(7), Some(Heading { dx: -1, dy: 1 }));
    assert_eq!(compass_heading(8), None);
}

#[test]
fn fish_turns_to_last_liked_obstruction_in_its_area() {
    let seen = vec![
        sight(ObstType::Pad, FishingLocal::Pond1, true, true),
        sight(ObstType::Pad, FishingLocal::Pond2, false, false),
        sight(ObstType::Debris, FishingLocal::Pond1, false, false),
        sight(ObstType::Pad, FishingLocal::Pond1, false, true),
    ];
    assert_eq!(
        find_attraction(&seen, ObstType::Pad, FishingLocal::Pond1),
        Some(sight(ObstType::Pad, FishingLocal::Pond1, false, true))
    );
    let pref = Preference { kind: ObstType::Pad, skew: 2 };
    let still = Heading { dx: 0, dy: 0 };
    // move die 5 is below 4 + 2: the fish heads for the pad
    assert_eq!(steer_fish(still, pref, FishingLocal::Pond1, &seen, 5, 1), Heading { dx: -1, dy: 1 });
    // move die 6 wanders with the direction die
    assert_eq!(steer_fish(still, pref, FishingLocal::Pond1, &seen, 6, 1), Heading { dx: 1, dy: 1 });
    // the ninth face keeps the pull of the pad
    assert_eq!(steer_fish(still, pref, FishingLocal::Pond1, &seen, 8, 8), Heading { dx: -1, dy: 1 });
}

#[test]
fn unattracted_fish_wanders_from_four() {
    let pref = Preference { kind: ObstType::Fissure, skew: 3 };
    let cur = Heading { dx: 1, dy: 0 };
    let seen = vec![sight(ObstType::Fissure, FishingLocal::Ocean, true, true)];
    assert_eq!(steer_fish(cur, pref, FishingLocal::Pond1, &seen, 3, 4), cur);
    assert_eq!(steer_fish(cur, pref, FishingLocal::Pond1, &seen, 4, 4), Heading { dx: 0, dy: -1 });
    assert_eq!(steer_fish(cur, pref, FishingLocal::Pond1, &seen, 8, 8), cur);
}

#[test]
fn wandering_stays_in_step() {
    let pref = Preference { kind: ObstType::Tree, skew: 0 };
    for _ in 0..50 {
        let h = wander(Heading { dx: 0, dy: 0 }, pref, FishingLocal::Pond1, &vec![]);
        assert!((-1..=1).contains(&h.dx) && (-1..=1).contains(&h.dy));
    }
}

// ---- area layout ----

#[test]
fn area_spots() {
    assert_eq!(fish_spot(FishingLocal::Pond1, FishingLocal::Pond1), Spot::Center);
    assert_eq!(fish_spot(FishingLocal::Pond1, FishingLocal::Ocean), Spot::Away);
    assert_eq!(
        obstruction_spot(FishingLocal::Pond1, FishingLocal::Pond1, ObstType::Pad),
        Spot::Offset { dx: 160, dy: 100 }
    );
    assert_eq!(
        obstruction_spot(FishingLocal::Pond2, FishingLocal::Pond2, ObstType::Fissure),
        Spot::Offset { dx: 260, dy: 0 }
    );
    assert_eq!(
        obstruction_spot(FishingLocal::Ocean, FishingLocal::Ocean, ObstType::Debris),
        Spot::Offset { dx: 260, dy: 300 }
    );
    assert_eq!(
        obstruction_spot(FishingLocal::Ocean, FishingLocal::Ocean, ObstType::Tree),
        Spot::Unchanged
    );
    assert_eq!(
        obstruction_spot(FishingLocal::Ocean, FishingLocal::Pond1, ObstType::Pad),
        Spot::Away
    );
    assert_eq!(backdrop_layers(FishingLocal::Pond2), (FRONT_LAYER, BACK_LAYER));
    assert_eq!(backdrop_layers(FishingLocal::Ocean), (BACK_LAYER, FRONT_LAYER));
}

#[test]
fn only_shown_area_in_sight() {
    let fish = vec![FishingLocal::Pond1, FishingLocal::Pond2, FishingLocal::Ocean];
    let obst = vec![(FishingLocal::Pond2, ObstType::Debris), (FishingLocal::Pond1, ObstType::Pad)];
    let layout = lay_out_area(FishingLocal::Pond2, &fish, &obst);
    assert_eq!(layout.fish, vec![Spot::Away, Spot::Center, Spot::Away]);
    assert_eq!(layout.obstructions, vec![Spot::Offset { dx: -350, dy: 200 }, Spot::Away]);
    assert_eq!((layout.pond_layer, layout.beach_layer), (900, 100));
}

// ---- reeling ----

#[test]
fn debris_is_caught_once_and_stays_caught() {
    let mut d = DebrisHooked { hooked: false };
    assert!(!d.step(false));
    assert!(!d.follows_hook());
    assert!(d.step(true));
    assert!(d.follows_hook());
    assert!(!d.step(true));
    assert!(!d.step(false));
    assert!(d.hooked);
}

#[test]
fn debris_is_never_reported_caught_twice() {
    for first in [false, true] {
        for second in [false, true] {
            for start in [false, true] {
                let mut d = DebrisHooked { hooked: start };
                let a = d.step(first);
                let b = d.step(second);
                assert!(!(a && b));
                assert_eq!(d.hooked, start || first || second);
            }
        }
    }
}

#[test]
fn hooked_debris_positions() {
    assert_eq!(hooked_debris(&vec![true, false, true, true]), vec![0, 2, 3]);
    assert_eq!(hooked_debris(&vec![false, false]), Vec::<usize>::new());
}

#[test]
fn catch_pays_two_coins_per_weight() {
    assert_eq!(catch_reward(10, 3), 16);
    assert_eq!(catch_reward(0, 0), 0);
}

#[test]
fn fish_found_by_first_matching_id() {
    assert_eq!(find_fish_with_id(&vec![4, 7, 7], 7), Some(1));
    assert_eq!(find_fish_with_id(&vec![4, 7], 9), None);
}

#[test]
fn line_segments_grow_or_hide() {
    assert_eq!(plan_line_segments(3, 10), SegmentPlan::Grow(7));
    assert_eq!(plan_line_segments(10, 4), SegmentPlan::Hide(4, 10));
    assert_eq!(plan_line_segments(5, 5), SegmentPlan::Keep);
}

#[test]
fn line_end_choice() {
    assert_eq!(line_end(true, FishingState::ReelingHooked), LineEnd::HookedFish);
    assert_eq!(line_end(false, FishingState::ReelingUnhooked), LineEnd::Lure);
    assert_eq!(line_end(false, FishingState::Idle), LineEnd::RodTip);
}

#[test]
fn splash_plays_three_frames_then_hides() {
    assert_eq!(splash_step(0, true, true), (1, true));
    assert_eq!(splash_step(1, true, false), (1, true));
    assert_eq!(splash_step(1, true, true), (2, true));
    assert_eq!(splash_step(2, true, true), (2, false));
    assert_eq!(splash_step(2, false, true), (2, false));
}

#[test]
fn rod_turn_direction() {
    assert_eq!(rotation_direction(true, false), 1);
    assert_eq!(rotation_direction(false, true), -1);
    assert_eq!(rotation_direction(true, true), 0);
    assert_eq!(rotation_direction(false, false), 0);
}

#[test]
fn fish_revealed_with_any_cosmetic() {
    assert!(reveals_fish(&vec!["Polarized Sun Glasses"]));
    assert!(reveals_fish(&vec!["Straw Hat"]));
    assert!(!reveals_fish(&vec![]));
}
