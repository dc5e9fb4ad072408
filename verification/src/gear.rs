//! The player's gear: cycling through the rods, lines and lures of the
//! inventory, and the kinds of gear that the names in the inventory stand for.

use vstd::prelude::*;

verus! {

/// The position after `index` in an inventory list of `len` items, wrapping
/// round to the front after the last one.
pub open spec fn spec_next_gear_index(index: int, len: int) -> int {
    if index == len - 1 {
        0
    } else {
        index + 1
    }
}

/// The position reached from `index` after `k` switches.
pub open spec fn advance(index: int, len: int, k: nat) -> int
    decreases k,
{
    if k == 0 {
        index
    } else {
        spec_next_gear_index(advance(index, len, (k - 1) as nat), len)
    }
}

/// Moves to the next item of a list of `len` items, wrapping round after
/// the last.
pub fn next_gear_index(index: usize, len: usize) -> (r: usize)
    requires
        index < len,
    ensures
        r == spec_next_gear_index(index as int, len as int),
        r == (index + 1) % (len as int),
        r < len,
{
    proof {
        lemma_next_is_mod(index as int, len as int);
    }
    if index == len - 1 {
        0
    } else {
        index + 1
    }
}

/// Switching gear `k` times from `index` lands on `(index + k) % len`: the
/// switches go round every item in turn and come back after `len` of them.
pub proof fn lemma_gear_cycle(index: int, len: int, k: nat)
    requires
        0 <= index < len,
    ensures
        advance(index, len, k) == (index + k) % len,
        0 <= advance(index, len, k) < len,
        k == len ==> advance(index, len, k) == index,
    decreases k,
{
    if k == 0 {
        vstd::arithmetic::div_mod::lemma_small_mod(index as nat, len as nat);
    } else {
        lemma_gear_cycle(index, len, (k - 1) as nat);
        let prev = advance(index, len, (k - 1) as nat);
        lemma_next_is_mod(prev, len);
        vstd::arithmetic::div_mod::lemma_mod_add_multiples_vanish(0, len);
        lemma_mod_succ(index + k - 1, len);
    }
    if k == len {
        vstd::arithmetic::div_mod::lemma_mod_add_multiples_vanish(index, len);
        vstd::arithmetic::div_mod::lemma_small_mod(index as nat, len as nat);
    }
}

proof fn lemma_next_is_mod(prev: int, len: int)
    requires
        0 <= prev < len,
    ensures
        spec_next_gear_index(prev, len) == (prev + 1) % len,
{
    if prev == len - 1 {
        vstd::arithmetic::div_mod::lemma_mod_self_0(len);
    } else {
        vstd::arithmetic::div_mod::lemma_small_mod((prev + 1) as nat, len as nat);
    }
}

proof fn lemma_mod_succ(x: int, len: int)
    requires
        0 <= x,
        0 < len,
    ensures
        (x % len + 1) % len == (x + 1) % len,
{
    vstd::arithmetic::div_mod::lemma_fundamental_div_mod(x, len);
    let q = x / len;
    let r = x % len;
    assert(x + 1 == len * q + (r + 1));
    vstd::arithmetic::div_mod::lemma_mod_multiples_vanish(q, r + 1, len);
    assert((len * q + (r + 1)) % len == (r + 1) % len);
}

/// Whether two strings hold the same characters.
pub fn str_equals(a: &str, b: &str) -> (r: bool)
    ensures
        r == (a@ == b@),
{
    let n = a.unicode_len();
    let m = b.unicode_len();
    if n != m {
        return false;
    }
    let mut i: usize = 0;
    while i < n
        invariant
            n == a@.len(),
            m == b@.len(),
            n == m,
            i <= n,
            forall|j: int| 0 <= j < i ==> a@[j] == b@[j],
        decreases n - i,
    {
        if a.get_char(i) != b.get_char(i) {
            return false;
        }
        i = i + 1;
    }
    assert(a@ =~= b@);
    true
}


/// The fishing rods that the inventory can hold.
#[derive(Clone, Copy, Debug, PartialEq, Eq, Structural)]
pub enum RodKind {
    Normal,
    Surf,
}

/// The fishing lines that the inventory can hold.
#[derive(Clone, Copy, Debug, PartialEq, Eq, Structural)]
pub enum LineKind {
    Fluorocarbon,
    Braided,
    Monofilament,
    Golden,
}

/// The lures that the inventory can hold.
#[derive(Clone, Copy, Debug, PartialEq, Eq, Structural)]
pub enum LureKind {
    Bobber,
    Frog,
    Fish,
}

/// The inventory name of each rod.
pub open spec fn rod_name(kind: RodKind) -> Seq<char> {
    match kind {
        RodKind::Normal => "Default Rod"@,
        RodKind::Surf => "Surf Rod"@,
    }
}

/// The inventory name of each line.
pub open spec fn line_name(kind: LineKind) -> Seq<char> {
    match kind {
        LineKind::Fluorocarbon => "FluoroCarbon Fishing Line"@,
        LineKind::Braided => "Braided Fishing Line"@,
        LineKind::Monofilament => "Monofilament Fishing Line"@,
        LineKind::Golden => "Golden Fishing Line"@,
    }
}

/// The inventory name of each lure.
pub open spec fn lure_name(kind: LureKind) -> Seq<char> {
    match kind {
        LureKind::Bobber => "Bobber"@,
        LureKind::Frog => "Frog Bait"@,
        LureKind::Fish => "Swim Bait"@,
    }
}

/// The rod that an inventory name stands for, if any.
pub open spec fn rod_named(name: Seq<char>) -> Option<RodKind> {
    if name == rod_name(RodKind::Normal) {
        Some(RodKind::Normal)
    } else if name == rod_name(RodKind::Surf) {
        Some(RodKind::Surf)
    } else {
        None
    }
}

/// The line that an inventory name stands for, if any.
pub open spec fn line_named(name: Seq<char>) -> Option<LineKind> {
    if name == line_name(LineKind::Fluorocarbon) {
        Some(LineKind::Fluorocarbon)
    } else if name == line_name(LineKind::Braided) {
        Some(LineKind::Braided)
    } else if name == line_name(LineKind::Monofilament) {
        Some(LineKind::Monofilament)
    } else if name == line_name(LineKind::Golden) {
        Some(LineKind::Golden)
    } else {
        None
    }
}

/// The lure that an inventory name stands for, if any.
pub open spec fn lure_named(name: Seq<char>) -> Option<LureKind> {
    if name == lure_name(LureKind::Bobber) {
        Some(LureKind::Bobber)
    } else if name == lure_name(LureKind::Frog) {
        Some(LureKind::Frog)
    } else if name == lure_name(LureKind::Fish) {
        Some(LureKind::Fish)
    } else {
        None
    }
}

/// The frame of the lure sprite sheet that shows each lure.
pub open spec fn lure_texture_index(kind: LureKind) -> usize {
    match kind {
        LureKind::Bobber => 0,
        LureKind::Frog => 1,
        LureKind::Fish => 2,
    }
}

/// The texture drawn for each rod.
pub open spec fn rod_texture(kind: RodKind) -> Seq<char> {
    match kind {
        RodKind::Normal => "rods/default.png"@,
        RodKind::Surf => "rods/surf.png"@,
    }
}

impl RodKind {
    /// The rod's name in the inventory.
    pub fn name(&self) -> (r: &'static str)
        ensures
            r@ == rod_name(*self),
    {
        match self {
            RodKind::Normal => "Default Rod",
            RodKind::Surf => "Surf Rod",
        }
    }

    /// The texture drawn for the rod.
    pub fn texture(&self) -> (r: &'static str)
        ensures
            r@ == rod_texture(*self),
    {
        match self {
            RodKind::Normal => "rods/default.png",
            RodKind::Surf => "rods/surf.png",
        }
    }

    /// The rod that an inventory name stands for, if any.
    pub fn from_name(name: &str) -> (r: Option<RodKind>)
        ensures
            r == rod_named(name@),
    {
        if str_equals(name, "Default Rod") {
            Some(RodKind::Normal)
        } else if str_equals(name, "Surf Rod") {
            Some(RodKind::Surf)
        } else {
            None
        }
    }
}

impl LineKind {
    /// The line's name in the inventory.
    pub fn name(&self) -> (r: &'static str)
        ensures
            r@ == line_name(*self),
    {
        match self {
            LineKind::Fluorocarbon => "FluoroCarbon Fishing Line",
            LineKind::Braided => "Braided Fishing Line",
            LineKind::Monofilament => "Monofilament Fishing Line",
            LineKind::Golden => "Golden Fishing Line",
        }
    }

    /// The line that an inventory name stands for, if any.
    pub fn from_name(name: &str) -> (r: Option<LineKind>)
        ensures
            r == line_named(name@),
    {
        if str_equals(name, "FluoroCarbon Fishing Line") {
            Some(LineKind::Fluorocarbon)
        } else if str_equals(name, "Braided Fishing Line") {
            Some(LineKind::Braided)
        } else if str_equals(name, "Monofilament Fishing Line") {
            Some(LineKind::Monofilament)
        } else if str_equals(name, "Golden Fishing Line") {
            Some(LineKind::Golden)
        } else {
            None
        }
    }
}

impl LureKind {
    /// The lure's name in the inventory.
    pub fn name(&self) -> (r: &'static str)
        ensures
            r@ == lure_name(*self),
    {
        match self {
            LureKind::Bobber => "Bobber",
            LureKind::Frog => "Frog Bait",
            LureKind::Fish => "Swim Bait",
        }
    }

    /// The frame of the lure sprite sheet that shows the lure.
    pub fn texture_index(&self) -> (r: usize)
        ensures
            r == lure_texture_index(*self),
    {
        match self {
            LureKind::Bobber => 0,
            LureKind::Frog => 1,
            LureKind::Fish => 2,
        }
    }

    /// The lure that an inventory name stands for, if any.
    pub fn from_name(name: &str) -> (r: Option<LureKind>)
        ensures
            r == lure_named(name@),
    {
        if str_equals(name, "Bobber") {
            Some(LureKind::Bobber)
        } else if str_equals(name, "Frog Bait") {
            Some(LureKind::Frog)
        } else if str_equals(name, "Swim Bait") {
            Some(LureKind::Fish)
        } else {
            None
        }
    }
}

/// Switches to the next rod of the inventory: the new position, and the rod
/// that the name there stands for.
pub fn switch_rod(index: usize, rod_names: &Vec<&str>) -> (r: (usize, RodKind))
    requires
        index < rod_names.len(),
        rod_named(rod_names@[spec_next_gear_index(index as int, rod_names.len() as int)]@)
            is Some,
    ensures
        r.0 == spec_next_gear_index(index as int, rod_names.len() as int),
        rod_named(rod_names@[r.0 as int]@) == Some(r.1),
{
    let next = next_gear_index(index, rod_names.len());
    let kind = RodKind::from_name(rod_names[next]);
    (next, kind.unwrap())
}

/// Switches to the next line of the inventory: the new position, and the
/// line that the name there stands for.
pub fn switch_line(index: usize, line_names: &Vec<&str>) -> (r: (usize, LineKind))
    requires
        index < line_names.len(),
        line_named(line_names@[spec_next_gear_index(index as int, line_names.len() as int)]@)
            is Some,
    ensures
        r.0 == spec_next_gear_index(index as int, line_names.len() as int),
        line_named(line_names@[r.0 as int]@) == Some(r.1),
{
    let next = next_gear_index(index, line_names.len());
    let kind = LineKind::from_name(line_names[next]);
    (next, kind.unwrap())
}

/// Switches to the next lure of the inventory: the new position, and the
/// lure that the name there stands for.
pub fn switch_lure(index: usize, lure_names: &Vec<&str>) -> (r: (usize, LureKind))
    requires
        index < lure_names.len(),
        lure_named(lure_names@[spec_next_gear_index(index as int, lure_names.len() as int)]@)
            is Some,
    ensures
        r.0 == spec_next_gear_index(index as int, lure_names.len() as int),
        lure_named(lure_names@[r.0 as int]@) == Some(r.1),
{
    let next = next_gear_index(index, lure_names.len());
    let kind = LureKind::from_name(lure_names[next]);
    (next, kind.unwrap())
}

/// Every kind of gear is found again under its own inventory name.
pub proof fn lemma_gear_names_round_trip(rod: RodKind, line: LineKind, lure: LureKind)
    ensures
        rod_named(rod_name(rod)) == Some(rod),
        line_named(line_name(line)) == Some(line),
        lure_named(lure_name(lure)) == Some(lure),
{
    reveal_strlit("Default Rod");
    reveal_strlit("Surf Rod");
    reveal_strlit("FluoroCarbon Fishing Line");
    reveal_strlit("Braided Fishing Line");
    reveal_strlit("Monofilament Fishing Line");
    reveal_strlit("Golden Fishing Line");
    reveal_strlit("Bobber");
    reveal_strlit("Frog Bait");
    reveal_strlit("Swim Bait");
    assert(rod_name(RodKind::Normal).len() != rod_name(RodKind::Surf).len());
    assert(line_name(LineKind::Fluorocarbon)[0] != line_name(LineKind::Monofilament)[0]);
    assert(line_name(LineKind::Fluorocarbon).len() != line_name(LineKind::Braided).len());
    assert(line_name(LineKind::Fluorocarbon).len() != line_name(LineKind::Golden).len());
    assert(line_name(LineKind::Braided).len() != line_name(LineKind::Monofilament).len());
    assert(line_name(LineKind::Braided).len() != line_name(LineKind::Golden).len());
    assert(line_name(LineKind::Monofilament).len() != line_name(LineKind::Golden).len());
    assert(lure_name(LureKind::Bobber).len() != lure_name(LureKind::Frog).len());
    assert(lure_name(LureKind::Bobber).len() != lure_name(LureKind::Fish).len());
    assert(lure_name(LureKind::Frog)[0] != lure_name(LureKind::Fish)[0]);
}


/// Each inventory name stands for the gear registered under it, and no
/// other name stands for any gear: "Default Rod" is the normal rod and
/// "Surf Rod" the surf rod; "FluoroCarbon Fishing Line", "Braided Fishing
/// Line", "Monofilament Fishing Line" and "Golden Fishing Line" are the
/// fluorocarbon, braided, monofilament and golden lines; "Bobber", "Frog
/// Bait" and "Swim Bait" are the bobber, the frog and the swim bait. The
/// bobber, frog and swim bait show frames 0, 1 and 2 of the lure sheet, and
/// the normal and surf rods the textures "rods/default.png" and
/// "rods/surf.png".
pub proof fn lemma_gear_table(name: Seq<char>)
    ensures
        rod_named("Default Rod"@) == Some(RodKind::Normal),
        rod_named("Surf Rod"@) == Some(RodKind::Surf),
        line_named("FluoroCarbon Fishing Line"@) == Some(LineKind::Fluorocarbon),
        line_named("Braided Fishing Line"@) == Some(LineKind::Braided),
        line_named("Monofilament Fishing Line"@) == Some(LineKind::Monofilament),
        line_named("Golden Fishing Line"@) == Some(LineKind::Golden),
        lure_named("Bobber"@) == Some(LureKind::Bobber),
        lure_named("Frog Bait"@) == Some(LureKind::Frog),
        lure_named("Swim Bait"@) == Some(LureKind::Fish),
        rod_named(name) is Some ==> name == "Default Rod"@ || name == "Surf Rod"@,
        line_named(name) is Some ==> name == "FluoroCarbon Fishing Line"@ || name
            == "Braided Fishing Line"@ || name == "Monofilament Fishing Line"@ || name
            == "Golden Fishing Line"@,
        lure_named(name) is Some ==> name == "Bobber"@ || name == "Frog Bait"@ || name
            == "Swim Bait"@,
        lure_texture_index(LureKind::Bobber) == 0,
        lure_texture_index(LureKind::Frog) == 1,
        lure_texture_index(LureKind::Fish) == 2,
        rod_texture(RodKind::Normal) == "rods/default.png"@,
        rod_texture(RodKind::Surf) == "rods/surf.png"@,
{
    lemma_gear_names_round_trip(RodKind::Normal, LineKind::Fluorocarbon, LureKind::Bobber);
    lemma_gear_names_round_trip(RodKind::Surf, LineKind::Braided, LureKind::Frog);
    lemma_gear_names_round_trip(RodKind::Normal, LineKind::Monofilament, LureKind::Fish);
    lemma_gear_names_round_trip(RodKind::Normal, LineKind::Golden, LureKind::Bobber);
}

} // verus!
