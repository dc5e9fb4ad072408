//! The fishing state machine and the run conditions of the fishing systems.

use vstd::prelude::*;

verus! {

/// Where the player is in a cast.
#[derive(Clone, Copy, Debug, PartialEq, Eq, Structural)]
pub enum FishingState {
    Idle,
    Casting,
    ReelingUnhooked,
    ReelingHooked,
}

/// What a system of the fishing view observed during a frame.
#[derive(Clone, Copy, Debug, PartialEq, Eq, Structural)]
pub enum FishingEvent {
    /// The power bar was held until it filled up.
    PowerBarFull,
    /// The tug key was let go while the bar was filling.
    TugReleased,
    /// The line reached its cast distance and the lure landed.
    CastLanded,
    /// A fish touching the lure bit.
    FishHooked,
    /// The empty lure came back within reach of the rod tip.
    LureReeledIn,
    /// The hooked fish came within reach of the rod tip.
    FishLanded,
}

/// The state that `event` asks for when it is observed in `state`, if the
/// system that observes it runs in `state`.
pub open spec fn event_target(state: FishingState, event: FishingEvent) -> Option<FishingState> {
    match (state, event) {
        (FishingState::Idle, FishingEvent::PowerBarFull) => Some(FishingState::Casting),
        (FishingState::Idle, FishingEvent::TugReleased) => Some(FishingState::Casting),
        (FishingState::Casting, FishingEvent::CastLanded) => Some(FishingState::ReelingUnhooked),
        (FishingState::ReelingUnhooked, FishingEvent::FishHooked) => Some(FishingState::ReelingHooked),
        (FishingState::ReelingUnhooked, FishingEvent::LureReeledIn) => Some(FishingState::Idle),
        (FishingState::ReelingHooked, FishingEvent::FishLanded) => Some(FishingState::Idle),
        _ => None,
    }
}

/// The state after one event: its target, or `state` unchanged when the
/// event does not apply there.
pub open spec fn step(state: FishingState, event: FishingEvent) -> FishingState {
    match event_target(state, event) {
        Some(t) => t,
        None => state,
    }
}

/// The state after a frame in which `events` were observed in order: each
/// request replaces the one before it, and all of them are judged against
/// the state the frame started in.
pub open spec fn settle(state: FishingState, events: Seq<FishingEvent>) -> FishingState
    decreases events.len(),
{
    if events.len() == 0 {
        state
    } else {
        match event_target(state, events.last()) {
            Some(t) => t,
            None => settle(state, events.drop_last()),
        }
    }
}

/// The target that `event` asks for in `state`, if any.
pub fn target_of(state: FishingState, event: FishingEvent) -> (r: Option<FishingState>)
    ensures
        r == event_target(state, event),
{
    match (state, event) {
        (FishingState::Idle, FishingEvent::PowerBarFull) => Some(FishingState::Casting),
        (FishingState::Idle, FishingEvent::TugReleased) => Some(FishingState::Casting),
        (FishingState::Casting, FishingEvent::CastLanded) => Some(FishingState::ReelingUnhooked),
        (FishingState::ReelingUnhooked, FishingEvent::FishHooked) => Some(
            FishingState::ReelingHooked,
        ),
        (FishingState::ReelingUnhooked, FishingEvent::LureReeledIn) => Some(FishingState::Idle),
        (FishingState::ReelingHooked, FishingEvent::FishLanded) => Some(FishingState::Idle),
        _ => None,
    }
}

/// The state the fishing view starts in: idle.
pub fn initial_state() -> (r: FishingState)
    ensures
        r == FishingState::Idle,
{
    FishingState::Idle
}

/// The state after a single event.
pub fn next_state(state: FishingState, event: FishingEvent) -> (r: FishingState)
    ensures
        r == step(state, event),
{
    match target_of(state, event) {
        Some(t) => t,
        None => state,
    }
}

/// The state after a frame: the last event that applies in `state` decides.
pub fn settle_frame(state: FishingState, events: &Vec<FishingEvent>) -> (r: FishingState)
    ensures
        r == settle(state, events@),
{
    let mut result = state;
    let mut i: usize = 0;
    while i < events.len()
        invariant
            i <= events.len(),
            result == settle(state, events@.take(i as int)),
        decreases events.len() - i,
    {
        assert(events@.take(i as int + 1).drop_last() =~= events@.take(i as int));
        match target_of(state, events[i]) {
            Some(t) => {
                result = t;
            },
            None => {},
        }
        i = i + 1;
    }
    assert(events@.take(events.len() as int) =~= events@);
    result
}


/// What the tug key does to the power bar this frame, while idle: holding
/// it until the bar is full, or letting go of it, throws the cast.
pub open spec fn spec_cast_input(held: bool, just_released: bool, bar_full: bool) -> Option<
    FishingEvent,
> {
    if held {
        if bar_full {
            Some(FishingEvent::PowerBarFull)
        } else {
            None
        }
    } else if just_released {
        Some(FishingEvent::TugReleased)
    } else {
        None
    }
}

/// The event of the tug key this frame, if any.
pub fn cast_input(held: bool, just_released: bool, bar_full: bool) -> (r: Option<FishingEvent>)
    ensures
        r == spec_cast_input(held, just_released, bar_full),
{
    if held {
        if bar_full {
            Some(FishingEvent::PowerBarFull)
        } else {
            None
        }
    } else if just_released {
        Some(FishingEvent::TugReleased)
    } else {
        None
    }
}

/// True when a frame that starts in `from` and ends in `to` enters the
/// casting state, which starts the cast.
pub open spec fn spec_enters_cast(from: FishingState, to: FishingState) -> bool {
    from != FishingState::Casting && to == FishingState::Casting
}

/// True when the reel ends: from either reeling state back to idle, which
/// puts the line, lure, splash and power bar back.
pub open spec fn spec_resets_interface(from: FishingState, to: FishingState) -> bool {
    (from == FishingState::ReelingUnhooked || from == FishingState::ReelingHooked) && to
        == FishingState::Idle
}

/// Whether a frame from `from` to `to` starts a cast.
pub fn enters_cast(from: FishingState, to: FishingState) -> (r: bool)
    ensures
        r == spec_enters_cast(from, to),
{
    from != FishingState::Casting && to == FishingState::Casting
}

/// Whether a frame from `from` to `to` resets the fishing interface.
pub fn resets_interface(from: FishingState, to: FishingState) -> (r: bool)
    ensures
        r == spec_resets_interface(from, to),
{
    (from == FishingState::ReelingUnhooked || from == FishingState::ReelingHooked) && to
        == FishingState::Idle
}

/// The per-frame systems of the fishing view whose running depends on the
/// fishing state.
#[derive(Clone, Copy, Debug, PartialEq, Eq, Structural)]
pub enum FishingSystem {
    MoveFish,
    UpdateFishVisibility,
    FishAreaLure,
    PowerBarCast,
    SwitchRod,
    SwitchLine,
    SwitchLure,
    RodRotate,
    WaterForce,
    BuoyancyForce,
    PlayerForce,
    FishForce,
    SimulatePhysics,
    BendFishingRod,
    HandleDebris,
    IsDoneReeling,
    IsFishCaught,
    IsLineBroken,
    CastLine,
    AnimateFishingLine,
    MovePhysicsObjects,
    AnimateWaves,
    AdjustFishingLineSize,
    DrawFishingLine,
    AnimateSplash,
    FishUpdate,
}

/// True in both reeling states.
pub open spec fn is_reeling(state: FishingState) -> bool {
    state == FishingState::ReelingUnhooked || state == FishingState::ReelingHooked
}

/// When each system runs, while the fishing view is shown: by the fishing
/// state, and for the fish visibility update only until the fish
/// visibility has been updated.
pub open spec fn runs_in(system: FishingSystem, state: FishingState, visibility_updated: bool) -> bool {
    match system {
        FishingSystem::UpdateFishVisibility => !visibility_updated,
        FishingSystem::FishAreaLure => state == FishingState::ReelingUnhooked,
        FishingSystem::PowerBarCast => state == FishingState::Idle,
        FishingSystem::SwitchRod => state == FishingState::Idle,
        FishingSystem::SwitchLine => state == FishingState::Idle,
        FishingSystem::SwitchLure => state == FishingState::Idle,
        FishingSystem::BuoyancyForce => is_reeling(state),
        FishingSystem::PlayerForce => is_reeling(state),
        FishingSystem::HandleDebris => is_reeling(state),
        FishingSystem::IsDoneReeling => state == FishingState::ReelingUnhooked,
        FishingSystem::IsFishCaught => state == FishingState::ReelingHooked,
        FishingSystem::IsLineBroken => state == FishingState::ReelingHooked,
        FishingSystem::CastLine => state == FishingState::Casting,
        FishingSystem::AnimateFishingLine => state != FishingState::Casting,
        _ => true,
    }
}

/// Whether `system` runs this frame: only while the fishing view is shown,
/// and then as `runs_in` says.
pub fn system_runs(
    system: FishingSystem,
    fishing_view_shown: bool,
    state: FishingState,
    visibility_updated: bool,
) -> (r: bool)
    ensures
        r == (fishing_view_shown && runs_in(system, state, visibility_updated)),
{
    if !fishing_view_shown {
        return false;
    }
    let reeling = state == FishingState::ReelingUnhooked || state == FishingState::ReelingHooked;
    match system {
        FishingSystem::UpdateFishVisibility => !visibility_updated,
        FishingSystem::FishAreaLure => state == FishingState::ReelingUnhooked,
        FishingSystem::PowerBarCast => state == FishingState::Idle,
        FishingSystem::SwitchRod => state == FishingState::Idle,
        FishingSystem::SwitchLine => state == FishingState::Idle,
        FishingSystem::SwitchLure => state == FishingState::Idle,
        FishingSystem::BuoyancyForce => reeling,
        FishingSystem::PlayerForce => reeling,
        FishingSystem::HandleDebris => reeling,
        FishingSystem::IsDoneReeling => state == FishingState::ReelingUnhooked,
        FishingSystem::IsFishCaught => state == FishingState::ReelingHooked,
        FishingSystem::IsLineBroken => state == FishingState::ReelingHooked,
        FishingSystem::CastLine => state == FishingState::Casting,
        FishingSystem::AnimateFishingLine => state != FishingState::Casting,
        _ => true,
    }
}

/// A cast can only start from idle: no event leads into the casting state
/// from anywhere else.
pub proof fn lemma_cast_starts_from_idle(state: FishingState, event: FishingEvent)
    ensures
        step(state, event) == FishingState::Casting && state != FishingState::Casting ==> state
            == FishingState::Idle,
{
}

/// A fish is only hooked while the empty lure is being reeled: the hooked
/// state is entered from the unhooked reeling state alone.
pub proof fn lemma_hook_needs_unhooked_reel(state: FishingState, event: FishingEvent)
    ensures
        step(state, event) == FishingState::ReelingHooked && state != FishingState::ReelingHooked
            ==> state == FishingState::ReelingUnhooked,
{
}

/// Every way out of reeling leads back to idle, except hooking a fish,
/// and the interface is reset exactly on the ways back to idle.
pub proof fn lemma_reel_ends_in_idle(state: FishingState, event: FishingEvent)
    ensures
        is_reeling(state) && step(state, event) != state ==> step(state, event)
            == FishingState::Idle || step(state, event) == FishingState::ReelingHooked,
        spec_resets_interface(state, step(state, event)) <==> (is_reeling(state) && step(
            state,
            event,
        ) == FishingState::Idle),
{
}

/// The casting state only ever moves on to reeling the empty lure.
pub proof fn lemma_cast_lands_unhooked(event: FishingEvent)
    ensures
        step(FishingState::Casting, event) == FishingState::Casting || step(
            FishingState::Casting,
            event,
        ) == FishingState::ReelingUnhooked,
{
}

/// A frame moves the state at most one step: the state it ends in is the
/// one it started in, or the step of one of the events observed in it.
pub proof fn lemma_frame_is_one_step(state: FishingState, events: Seq<FishingEvent>)
    ensures
        settle(state, events) == state || exists|i: int|
            0 <= i < events.len() && settle(state, events) == #[trigger] step(state, events[i]),
    decreases events.len(),
{
    if events.len() > 0 {
        let last = events.len() - 1;
        match event_target(state, events.last()) {
            Some(t) => {
                assert(settle(state, events) == step(state, events[last]));
            },
            None => {
                lemma_frame_is_one_step(state, events.drop_last());
                if settle(state, events) != state {
                    let i = choose|i: int|
                        0 <= i < events.drop_last().len() && settle(state, events.drop_last())
                            == #[trigger] step(state, events.drop_last()[i]);
                    assert(events.drop_last()[i] == events[i]);
                }
            },
        }
    }
}

/// Either way of letting go of the power bar throws the cast from idle.
pub proof fn lemma_tug_throws_cast(held: bool, just_released: bool, bar_full: bool)
    ensures
        spec_cast_input(held, just_released, bar_full) matches Some(e) ==> step(
            FishingState::Idle,
            e,
        ) == FishingState::Casting,
        (held && bar_full) || (!held && just_released) <==> spec_cast_input(
            held,
            just_released,
            bar_full,
        ) is Some,
{
}

/// Gear can only be changed, and the power bar only filled, while idle.
pub proof fn lemma_gear_changes_only_when_idle(state: FishingState, visibility_updated: bool)
    ensures
        runs_in(FishingSystem::SwitchRod, state, visibility_updated) <==> state
            == FishingState::Idle,
        runs_in(FishingSystem::SwitchLine, state, visibility_updated) <==> state
            == FishingState::Idle,
        runs_in(FishingSystem::SwitchLure, state, visibility_updated) <==> state
            == FishingState::Idle,
        runs_in(FishingSystem::PowerBarCast, state, visibility_updated) <==> state
            == FishingState::Idle,
{
}


/// The whole transition table: from idle, filling the power bar or
/// letting go of it starts the cast; a cast that lands starts reeling the
/// empty lure; while reeling it, a bite hooks a fish and the lure coming in
/// ends the reel; while reeling a hooked fish, landing it ends the reel.
/// Every other event leaves the state as it is.
pub proof fn lemma_transition_table(state: FishingState, event: FishingEvent)
    ensures
        step(FishingState::Idle, FishingEvent::PowerBarFull) == FishingState::Casting,
        step(FishingState::Idle, FishingEvent::TugReleased) == FishingState::Casting,
        step(FishingState::Casting, FishingEvent::CastLanded) == FishingState::ReelingUnhooked,
        step(FishingState::ReelingUnhooked, FishingEvent::FishHooked)
            == FishingState::ReelingHooked,
        step(FishingState::ReelingUnhooked, FishingEvent::LureReeledIn) == FishingState::Idle,
        step(FishingState::ReelingHooked, FishingEvent::FishLanded) == FishingState::Idle,
        step(state, event) != state ==> {
            ||| state == FishingState::Idle && (event == FishingEvent::PowerBarFull || event
                == FishingEvent::TugReleased)
            ||| state == FishingState::Casting && event == FishingEvent::CastLanded
            ||| state == FishingState::ReelingUnhooked && (event == FishingEvent::FishHooked
                || event == FishingEvent::LureReeledIn)
            ||| state == FishingState::ReelingHooked && event == FishingEvent::FishLanded
        },
{
}

/// When each state-gated system runs: the bite check only while reeling
/// the empty lure, the power bar and the three gear switches only while
/// idle, buoyancy, the player's pull and the debris only while reeling, the
/// reel-in check only while reeling the empty lure, the landing and line
/// break checks only while a fish is hooked, the cast only while casting,
/// the line drawing whenever not casting, the visibility update until it
/// has happened, and every other system always. Each system that reports
/// an event runs exactly in the states where that event does something.
pub proof fn lemma_run_conditions(system: FishingSystem, state: FishingState, updated: bool)
    ensures
        runs_in(FishingSystem::FishAreaLure, state, updated) <==> state
            == FishingState::ReelingUnhooked,
        runs_in(FishingSystem::PowerBarCast, state, updated) <==> state == FishingState::Idle,
        runs_in(FishingSystem::BuoyancyForce, state, updated) <==> (state
            == FishingState::ReelingUnhooked || state == FishingState::ReelingHooked),
        runs_in(FishingSystem::PlayerForce, state, updated) <==> (state
            == FishingState::ReelingUnhooked || state == FishingState::ReelingHooked),
        runs_in(FishingSystem::HandleDebris, state, updated) <==> (state
            == FishingState::ReelingUnhooked || state == FishingState::ReelingHooked),
        runs_in(FishingSystem::IsDoneReeling, state, updated) <==> state
            == FishingState::ReelingUnhooked,
        runs_in(FishingSystem::IsFishCaught, state, updated) <==> state
            == FishingState::ReelingHooked,
        runs_in(FishingSystem::IsLineBroken, state, updated) <==> state
            == FishingState::ReelingHooked,
        runs_in(FishingSystem::CastLine, state, updated) <==> state == FishingState::Casting,
        runs_in(FishingSystem::AnimateFishingLine, state, updated) <==> state
            != FishingState::Casting,
        runs_in(FishingSystem::UpdateFishVisibility, state, updated) <==> !updated,
        (system == FishingSystem::MoveFish || system == FishingSystem::RodRotate || system
            == FishingSystem::WaterForce || system == FishingSystem::FishForce || system
            == FishingSystem::SimulatePhysics || system == FishingSystem::BendFishingRod || system
            == FishingSystem::MovePhysicsObjects || system == FishingSystem::AnimateWaves
            || system == FishingSystem::AdjustFishingLineSize || system
            == FishingSystem::DrawFishingLine || system == FishingSystem::AnimateSplash || system
            == FishingSystem::FishUpdate) ==> runs_in(system, state, updated),
        runs_in(FishingSystem::FishAreaLure, state, updated) <==> event_target(
            state,
            FishingEvent::FishHooked,
        ) is Some,
        runs_in(FishingSystem::IsDoneReeling, state, updated) <==> event_target(
            state,
            FishingEvent::LureReeledIn,
        ) is Some,
        runs_in(FishingSystem::IsFishCaught, state, updated) <==> event_target(
            state,
            FishingEvent::FishLanded,
        ) is Some,
        runs_in(FishingSystem::CastLine, state, updated) <==> event_target(
            state,
            FishingEvent::CastLanded,
        ) is Some,
        runs_in(FishingSystem::PowerBarCast, state, updated) <==> event_target(
            state,
            FishingEvent::PowerBarFull,
        ) is Some,
{
}

} // verus!
