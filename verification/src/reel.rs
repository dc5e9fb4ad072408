//! Bookkeeping while reeling: debris caught on the line, landing a fish,
//! the segments and the end of the drawn line, the splash, the rod's turn.

use vstd::prelude::*;
use crate::state::FishingState;

verus! {

/// Whether a piece of debris is caught on the line.
#[derive(Clone, Copy, Debug, PartialEq, Eq, Structural)]
pub struct DebrisHooked {
    pub hooked: bool,
}

/// The debris after a frame in which the hooked object did or did not
/// touch it: caught once touched, and caught for good.
pub open spec fn debris_after(d: DebrisHooked, touching: bool) -> DebrisHooked {
    DebrisHooked { hooked: d.hooked || touching }
}

/// Whether a frame catches the debris just now: touched while still free.
pub open spec fn newly_caught(d: DebrisHooked, touching: bool) -> bool {
    touching && !d.hooked
}

impl DebrisHooked {
    /// One frame of a piece of debris: it is caught once the hooked object
    /// touches it and stays caught. Returns whether it was caught just now,
    /// which is when its weight and drag join the hooked object's.
    pub fn step(&mut self, touching: bool) -> (newly_hooked: bool)
        ensures
            *final(self) == debris_after(*old(self), touching),
            newly_hooked == newly_caught(*old(self), touching),
    {
        if touching && !self.hooked {
            self.hooked = true;
            true
        } else {
            false
        }
    }

    /// Whether the debris is carried along with the hooked object.
    pub fn follows_hook(&self) -> (r: bool)
        ensures
            r == self.hooked,
    {
        self.hooked
    }
}

/// Caught debris stays caught, and its weight and drag are added once: a
/// frame that follows the one that caught a piece never reports it caught
/// again, whatever touches it then.
pub proof fn lemma_debris_caught_once(d: DebrisHooked, first: bool, second: bool)
    ensures
        d.hooked ==> debris_after(d, first).hooked,
        newly_caught(d, first) ==> !newly_caught(debris_after(d, first), second),
        debris_after(d, first).hooked ==> !newly_caught(debris_after(d, first), second),
{
}

/// The positions of the pieces of debris that are caught.
pub open spec fn hooked_positions(flags: Seq<bool>) -> Seq<usize>
    decreases flags.len(),
{
    if flags.len() == 0 {
        Seq::empty()
    } else if flags.last() {
        hooked_positions(flags.drop_last()).push((flags.len() - 1) as usize)
    } else {
        hooked_positions(flags.drop_last())
    }
}

/// The debris to take away when the line comes in: every piece that is
/// caught, in order.
pub fn hooked_debris(flags: &Vec<bool>) -> (r: Vec<usize>)
    ensures
        r@ == hooked_positions(flags@),
{
    let mut out: Vec<usize> = Vec::new();
    let mut i: usize = 0;
    while i < flags.len()
        invariant
            i <= flags.len(),
            out@ == hooked_positions(flags@.take(i as int)),
        decreases flags.len() - i,
    {
        assert(flags@.take(i as int + 1).drop_last() =~= flags@.take(i as int));
        if flags[i] {
            out.push(i);
        }
        i = i + 1;
    }
    assert(flags@.take(flags.len() as int) =~= flags@);
    out
}

/// The debris taken away is exactly the debris that is caught, each piece
/// once and in order.
pub proof fn lemma_hooked_debris_exact(flags: Seq<bool>)
    requires
        flags.len() <= usize::MAX,
    ensures
        forall|k: int|
            0 <= k < hooked_positions(flags).len() ==> (#[trigger] hooked_positions(flags)[k]) < flags.len()
                && flags[hooked_positions(flags)[k] as int],
        forall|i: int| 0 <= i < flags.len() && flags[i] ==> hooked_positions(flags).contains(i as usize),
        forall|a: int, b: int|
            0 <= a < b < hooked_positions(flags).len() ==> hooked_positions(flags)[a]
                < hooked_positions(flags)[b],
    decreases flags.len(),
{
    if flags.len() > 0 {
        let prev = flags.drop_last();
        lemma_hooked_debris_exact(prev);
        let hp = hooked_positions(flags);
        let pp = hooked_positions(prev);
        if flags.last() {
            assert(hp == pp.push((flags.len() - 1) as usize));
        } else {
            assert(hp == pp);
        }
        assert forall|k: int| 0 <= k < hp.len() implies (#[trigger] hp[k]) < flags.len()
            && flags[hp[k] as int] by {
            if k < pp.len() {
                assert(hp[k] == pp[k]);
                assert(pp[k] < prev.len());
                assert(prev[pp[k] as int] == flags[pp[k] as int]);
            }
        }
        assert forall|i: int| 0 <= i < flags.len() && flags[i] implies hp.contains(i as usize) by {
            if i < flags.len() - 1 {
                assert(prev[i] == flags[i]);
                let k = choose|k: int| 0 <= k < pp.len() && pp[k] == i as usize;
                assert(hp[k] == pp[k]);
            } else {
                assert(hp[hp.len() - 1] == i as usize);
            }
        }
        assert forall|a: int, b: int| 0 <= a < b < hp.len() implies hp[a] < hp[b] by {
            if b < pp.len() {
                assert(hp[a] == pp[a] && hp[b] == pp[b]);
            } else {
                assert(hp[a] == pp[a]);
                assert(pp[a] < prev.len());
            }
        }
    }
}

/// The coins for landing a fish of the given weight: two for each unit.
pub fn catch_reward(coins: u32, weight: u32) -> (r: u32)
    requires
        2 * weight <= u32::MAX,
        coins + 2 * weight <= u32::MAX,
    ensures
        r == coins + 2 * weight,
{
    coins + weight * 2
}

/// The first fish with the given id: the one that a bite on the lure
/// brings onto the line.
pub fn find_fish_with_id(ids: &Vec<u32>, id: u32) -> (r: Option<usize>)
    ensures
        r matches Some(i) ==> i < ids@.len() && ids@[i as int] == id && forall|j: int|
            0 <= j < i ==> ids@[j] != id,
        r is None ==> forall|j: int| 0 <= j < ids@.len() ==> ids@[j] != id,
{
    let mut i: usize = 0;
    while i < ids.len()
        invariant
            i <= ids.len(),
            forall|j: int| 0 <= j < i ==> ids@[j] != id,
        decreases ids.len() - i,
    {
        if ids[i] == id {
            return Some(i);
        }
        i = i + 1;
    }
    None
}

/// What to do with the segments of the drawn line so that `wanted` of them
/// show.
#[derive(Clone, Copy, Debug, PartialEq, Eq, Structural)]
pub enum SegmentPlan {
    /// Make this many more segments.
    Grow(usize),
    /// Hide the segments from the first position up to the second, exclusive.
    Hide(usize, usize),
    /// The segments are as many as wanted.
    Keep,
}

/// What to do with `have` line segments so that `wanted` of them show.
pub fn plan_line_segments(have: usize, wanted: usize) -> (r: SegmentPlan)
    ensures
        have < wanted ==> r == SegmentPlan::Grow((wanted - have) as usize),
        have > wanted ==> r == SegmentPlan::Hide(wanted, have),
        have == wanted ==> r == SegmentPlan::Keep,
{
    if have < wanted {
        SegmentPlan::Grow(wanted - have)
    } else if have > wanted {
        SegmentPlan::Hide(wanted, have)
    } else {
        SegmentPlan::Keep
    }
}

/// Where the far end of the drawn line is.
#[derive(Clone, Copy, Debug, PartialEq, Eq, Structural)]
pub enum LineEnd {
    /// At the hook of the fish on the line.
    HookedFish,
    /// At the lure.
    Lure,
    /// At the rod tip: no line is out.
    RodTip,
}

/// Where the far end of the line is: at a hooked fish if there is one, at
/// the lure while reeling it in empty, at the rod tip otherwise.
pub fn line_end(fish_on_line: bool, state: FishingState) -> (r: LineEnd)
    ensures
        fish_on_line ==> r == LineEnd::HookedFish,
        !fish_on_line && state == FishingState::ReelingUnhooked ==> r == LineEnd::Lure,
        !fish_on_line && state != FishingState::ReelingUnhooked ==> r == LineEnd::RodTip,
{
    if fish_on_line {
        LineEnd::HookedFish
    } else if state == FishingState::ReelingUnhooked {
        LineEnd::Lure
    } else {
        LineEnd::RodTip
    }
}

/// The number of frames of the splash animation.
pub const SPLASH_FRAMES: usize = 3;

/// One frame of the splash: while it shows and its frame timer has just
/// run out it moves to its next frame, and after the last one it hides.
pub open spec fn spec_splash_step(index: usize, visible: bool, timer_done: bool) -> (usize, bool) {
    if visible && index < 3 && timer_done {
        if index == 2 {
            (index, false)
        } else {
            ((index + 1) as usize, true)
        }
    } else {
        (index, visible)
    }
}

/// Advances the splash animation by a frame.
pub fn splash_step(index: usize, visible: bool, timer_done: bool) -> (r: (usize, bool))
    ensures
        r == spec_splash_step(index, visible, timer_done),
{
    if !visible {
        return (index, visible);
    }
    if index < SPLASH_FRAMES && timer_done {
        if index == 2 {
            (index, false)
        } else {
            (index + 1, true)
        }
    } else {
        (index, visible)
    }
}

/// The splash plays its three frames in order and then hides: a splash
/// that starts on a frame of the sheet stays on the sheet, never goes back,
/// and is hidden once its last frame's timer runs out.
pub proof fn lemma_splash_plays_through(index: usize, visible: bool, timer_done: bool)
    requires
        index < 3,
    ensures
        spec_splash_step(index, visible, timer_done).0 < 3,
        spec_splash_step(index, visible, timer_done).0 >= index,
        visible && timer_done && index == 2 ==> !spec_splash_step(index, visible, timer_done).1,
        !visible ==> !spec_splash_step(index, visible, timer_done).1,
{
}

/// The way the rod turns this frame: counterclockwise (1), clockwise (-1),
/// or not at all when both keys or neither are held.
pub fn rotation_direction(counterclockwise: bool, clockwise: bool) -> (r: i8)
    ensures
        r == (if counterclockwise {
            1int
        } else {
            0int
        }) - (if clockwise {
            1int
        } else {
            0int
        }),
{
    let mut direction: i8 = 0;
    if counterclockwise {
        direction = direction + 1;
    }
    if clockwise {
        direction = direction - 1;
    }
    direction
}

/// Whether entering the fishing view shows the fish in the water: they
/// show as soon as the player owns any cosmetic at all.
pub fn reveals_fish(cosmetics: &Vec<&str>) -> (r: bool)
    ensures
        r == (cosmetics@.len() > 0),
{
    let mut shown = false;
    let mut i: usize = 0;
    while i < cosmetics.len()
        invariant
            i <= cosmetics.len(),
            shown == (i > 0),
        decreases cosmetics.len() - i,
    {
        shown = true;
        i = i + 1;
    }
    shown
}


/// A piece of debris is caught after a frame exactly when it was caught
/// before or the hooked object touched it, and the frame reports a new
/// catch exactly when it was touched while still free.
pub proof fn lemma_debris_frame(d: DebrisHooked, touching: bool)
    ensures
        debris_after(d, touching).hooked <==> (d.hooked || touching),
        newly_caught(d, touching) <==> (touching && !d.hooked),
{
}

/// The splash frame by frame: while it shows and its timer has just run
/// out, frame 0 goes to 1 and 1 to 2, both still showing, and frame 2
/// hides; without the timer running out, or once hidden, nothing changes.
pub proof fn lemma_splash_frames(index: usize, visible: bool, timer_done: bool)
    ensures
        spec_splash_step(0, true, true) == (1usize, true),
        spec_splash_step(1, true, true) == (2usize, true),
        spec_splash_step(2, true, true) == (2usize, false),
        !timer_done ==> spec_splash_step(index, visible, timer_done) == (index, visible),
        !visible ==> spec_splash_step(index, visible, timer_done) == (index, visible),
        index >= 3 ==> spec_splash_step(index, visible, timer_done) == (index, visible),
{
}

} // verus!
