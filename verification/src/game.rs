//! What is read from the game, and what it means.

use vstd::prelude::*;

use crate::clr::{Var, VarView};
use crate::single::Single;

verus! {

/// A bobber as it was read.
#[derive(Debug, Clone, Copy, PartialEq, Eq, Structural)]
pub struct Bobber {
    pub index: i32,
    /// `ai[0]`: 0 while it floats, 1 and more while it is reeled in.
    pub ai0: Single,
    /// `ai[1]`: 0 while nothing happens, below 0 while something bites.
    pub ai1: Single,
    /// `localAI[1]`: with a bite, the item or minus the enemy on the hook.
    pub local_ai1: Single,
}

impl Bobber {
    /// Something bites, and what it is has been settled.
    pub open spec fn bites(self) -> bool {
        self.ai1.negative() && !self.ai1.is_nan() && !self.ai1.is_zero()
            && !self.local_ai1.is_zero()
    }

    /// What bites.
    pub open spec fn catch(self) -> i32 {
        self.local_ai1.clamped() as i32
    }

    /// Something bites right now, and what it is has been settled.
    pub fn has_bite(&self) -> (r: bool)
        ensures
            r == self.bites(),
            r == (0x8000_0000 < self.ai1.bits <= 0xFF80_0000 && self.local_ai1.bits != 0
                && self.local_ai1.bits != 0x8000_0000),
    {
        self.ai1.below_zero() && self.local_ai1.nonzero()
    }

    /// What bites: an item where it is positive, minus an enemy where it is
    /// negative. Only with a bite does it mean anything.
    pub fn rolled(&self) -> (r: i32)
        ensures
            r == self.catch(),
            r == self.local_ai1.clamped(),
    {
        self.local_ai1.truncated()
    }

    /// The bobber is on its way back to the player, and the rod cannot be cast.
    pub fn is_reeling(&self) -> (r: bool)
        ensures
            r == (!self.ai0.negative() && !self.ai0.is_nan() && self.ai0.exponent() >= 127),
            r == (0x3F80_0000 <= self.ai0.bits <= 0x7F80_0000),
    {
        self.ai0.at_least_one()
    }
}

/// How many projectiles the game keeps.
pub const MAX_PROJECTILES: i32 = 1001;

/// The slots of the main grid of the inventory.
pub const INVENTORY_MAIN_SLOTS: i32 = 50;

/// How many slots the inventory has, with those for coins and ammunition and the one under
/// the cursor.
pub const INVENTORY_SLOTS: i32 = 59;

// ---------------------------------------------------------------------------
// The search for the bobber
// ---------------------------------------------------------------------------

/// A part of a projectile.
#[derive(Debug, Clone, Copy, PartialEq, Eq, Structural)]
pub enum Part {
    /// The projectile itself.
    Slot,
    Active,
    Bobber,
    Owner,
    Ai0,
    Ai1,
    LocalAi1,
}

/// A projectile as the game holds it.
pub struct ProjectileView {
    pub slot: VarView,
    pub active: VarView,
    pub bobber: VarView,
    pub owner: VarView,
    pub ai0: VarView,
    pub ai1: VarView,
    pub local_ai1: VarView,
}

impl ProjectileView {
    pub open spec fn part(self, part: Part) -> VarView {
        match part {
            Part::Slot => self.slot,
            Part::Active => self.active,
            Part::Bobber => self.bobber,
            Part::Owner => self.owner,
            Part::Ai0 => self.ai0,
            Part::Ai1 => self.ai1,
            Part::LocalAi1 => self.local_ai1,
        }
    }

    /// Whether it is a bobber of the player `me`.
    pub open spec fn is_bobber_of(self, me: i32) -> bool {
        &&& !(self.slot is Null)
        &&& self.active.truth_or(false)
        &&& self.bobber.truth_or(false)
        &&& self.owner.int_or(-1int as i32) == me
    }

    /// The bobber that it is.
    pub open spec fn bobber(self, index: i32) -> Bobber {
        Bobber {
            index,
            ai0: self.ai0.float_or_zero(),
            ai1: self.ai1.float_or_zero(),
            local_ai1: self.local_ai1.float_or_zero(),
        }
    }
}

/// What a search needs next.
#[derive(Debug, Clone, Copy, PartialEq, Eq, Structural)]
pub enum Need {
    /// This part of this projectile.
    Read { index: i32, part: Part },
    /// Nothing: this is the bobber.
    Found(Bobber),
    /// Nothing: there is none.
    Nothing,
}

/// A search for the bobber of the player `me`. It begins where the bobber was found
/// last, and reads no more of a projectile than it takes to rule it out.
#[derive(Debug, Clone, Copy, PartialEq, Eq, Structural)]
pub struct Search {
    pub me: i32,
    pub hint: Option<i32>,
    pub need: Need,
    pub ai0: Single,
    pub ai1: Single,
}

/// Whether a number is that of a projectile.
pub open spec fn in_range(index: int) -> bool {
    0 <= index < MAX_PROJECTILES
}

/// The hint where it is the number of a projectile.
pub open spec fn usable(hint: Option<i32>) -> Option<i32> {
    match hint {
        Some(i) if in_range(i as int) => Some(i),
        _ => None,
    }
}

/// The first number from `from` on that is not the hint.
pub open spec fn skipping(hint: Option<i32>, from: int) -> int {
    if hint == Some(from as i32) && in_range(from) {
        from + 1
    } else {
        from
    }
}

impl Search {
    /// The search turned to the first projectile from `from` on.
    pub open spec fn at(self, from: int) -> Search {
        let index = skipping(self.hint, from);
        Search {
            need: if index < MAX_PROJECTILES {
                Need::Read { index: index as i32, part: Part::Slot }
            } else {
                Need::Nothing
            },
            ..self
        }
    }

    /// The search done with the projectile `index`.
    pub open spec fn past(self, index: int) -> Search {
        if self.hint == Some(index as i32) {
            self.at(0)
        } else {
            self.at(index + 1)
        }
    }

    pub open spec fn asks(self, index: i32, part: Part) -> Search {
        Search { need: Need::Read { index, part }, ..self }
    }

    /// A search before its first answer. Without a player there is nothing to find.
    pub open spec fn initial(me: i32, hint: Option<i32>) -> Search {
        let blank = Search {
            me,
            hint,
            need: Need::Nothing,
            ai0: Single { bits: 0 },
            ai1: Single { bits: 0 },
        };
        if me < 0 {
            blank
        } else {
            match usable(hint) {
                Some(i) => blank.asks(i, Part::Slot),
                None => blank.at(0),
            }
        }
    }

    /// The search after what it needed was read.
    pub open spec fn told(self, value: VarView) -> Search {
        match self.need {
            Need::Read { index, part } => match part {
                Part::Slot => if value is Null {
                    self.past(index as int)
                } else {
                    self.asks(index, Part::Active)
                },
                Part::Active => if value.truth_or(false) {
                    self.asks(index, Part::Bobber)
                } else {
                    self.past(index as int)
                },
                Part::Bobber => if value.truth_or(false) {
                    self.asks(index, Part::Owner)
                } else {
                    self.past(index as int)
                },
                Part::Owner => if value.int_or(-1int as i32) == self.me {
                    self.asks(index, Part::Ai0)
                } else {
                    self.past(index as int)
                },
                Part::Ai0 => Search { ai0: value.float_or_zero(), ..self }.asks(index, Part::Ai1),
                Part::Ai1 => Search { ai1: value.float_or_zero(), ..self }.asks(
                    index,
                    Part::LocalAi1,
                ),
                Part::LocalAi1 => Search {
                    need: Need::Found(
                        Bobber {
                            index,
                            ai0: self.ai0,
                            ai1: self.ai1,
                            local_ai1: value.float_or_zero(),
                        },
                    ),
                    ..self
                },
            },
            _ => self,
        }
    }

    /// Whether what is needed is part of a projectile that there is.
    pub open spec fn wf(self) -> bool {
        self.need matches Need::Read { index, part } ==> in_range(index as int)
    }

    fn go_on(&mut self, from: i32)
        requires
            0 <= from <= MAX_PROJECTILES,
        ensures
            *final(self) == old(self).at(from as int),
            final(self).wf(),
    {
        let mut index: i32 = from;
        if let Some(i) = self.hint {
            if i == from && from < MAX_PROJECTILES {
                index = index + 1;
            }
        }
        self.need = if index < MAX_PROJECTILES {
            Need::Read { index, part: Part::Slot }
        } else {
            Need::Nothing
        };
    }

    fn pass(&mut self, index: i32)
        requires
            in_range(index as int),
        ensures
            *final(self) == old(self).past(index as int),
            final(self).wf(),
    {
        match self.hint {
            Some(i) if i == index => self.go_on(0),
            _ => self.go_on(index + 1),
        }
    }

    /// Hands the search what it needed.
    pub fn tell(&mut self, value: &Var)
        requires
            old(self).wf(),
        ensures
            *final(self) == old(self).told(value@),
            final(self).wf(),
    {
        if let Need::Read { index, part } = self.need {
            let next: Option<Part> = match part {
                Part::Slot => if value.is_null() {
                    None
                } else {
                    Some(Part::Active)
                },
                Part::Active => if value.bool_or(false) {
                    Some(Part::Bobber)
                } else {
                    None
                },
                Part::Bobber => if value.bool_or(false) {
                    Some(Part::Owner)
                } else {
                    None
                },
                Part::Owner => if value.int_or(-1) == self.me {
                    Some(Part::Ai0)
                } else {
                    None
                },
                Part::Ai0 => {
                    self.ai0 = value.float_or_zero();
                    Some(Part::Ai1)
                },
                Part::Ai1 => {
                    self.ai1 = value.float_or_zero();
                    Some(Part::LocalAi1)
                },
                Part::LocalAi1 => {
                    self.need = Need::Found(
                        Bobber {
                            index,
                            ai0: self.ai0,
                            ai1: self.ai1,
                            local_ai1: value.float_or_zero(),
                        },
                    );
                    return ;
                },
            };
            match next {
                Some(part) => {
                    self.need = Need::Read { index, part };
                },
                None => self.pass(index),
            }
        }
    }
}

/// Begins a search for the bobber of the player `me`. A player has one bobber at
/// most. A whole search is long, so the place where it was found last comes first.
pub fn find_bobber(me: i32, hint: Option<i32>) -> (r: Search)
    ensures
        r == Search::initial(me, hint),
        r.wf(),
{
    let mut search = Search {
        me,
        hint,
        need: Need::Nothing,
        ai0: Single { bits: 0 },
        ai1: Single { bits: 0 },
    };
    if me >= 0 {
        match hint {
            Some(i) if 0 <= i && i < MAX_PROJECTILES => {
                search.need = Need::Read { index: i, part: Part::Slot };
            },
            _ => search.go_on(0),
        }
    }
    search
}

/// A search that is handed what stands in `projectiles`, for at most `limit` answers.
pub open spec fn searched(search: Search, projectiles: Seq<ProjectileView>, limit: nat) -> Need
    decreases limit,
{
    match search.need {
        Need::Read { index, part } => if limit == 0 {
            search.need
        } else {
            searched(
                search.told(projectiles[index as int].part(part)),
                projectiles,
                (limit - 1) as nat,
            )
        },
        done => done,
    }
}

/// What a search ought to find: the bobber where it was found last, or else the
/// first one.
pub open spec fn sought(
    me: i32,
    hint: Option<i32>,
    projectiles: Seq<ProjectileView>,
    from: int,
) -> Need
    decreases projectiles.len() - from,
{
    if from >= projectiles.len() {
        Need::Nothing
    } else if hint != Some(from as i32) && projectiles[from].is_bobber_of(me) {
        Need::Found(projectiles[from].bobber(from as i32))
    } else {
        sought(me, hint, projectiles, from + 1)
    }
}

/// One projectile is either found or passed in at most seven answers.
proof fn lemma_one_projectile(
    search: Search,
    projectiles: Seq<ProjectileView>,
    index: i32,
    limit: nat,
)
    requires
        projectiles.len() == MAX_PROJECTILES,
        in_range(index as int),
        search.need == (Need::Read { index, part: Part::Slot }),
        limit >= 7,
    ensures
        ({
            let p = projectiles[index as int];
            if p.is_bobber_of(search.me) {
                searched(search, projectiles, limit) == Need::Found(p.bobber(index))
            } else {
                exists|n: nat|
                    n <= 7 && n <= limit && searched(search, projectiles, limit) == #[trigger]
                    searched(search.past(index as int), projectiles, (limit - n) as nat)
            }
        }),
{
    let p = projectiles[index as int];
    reveal_with_fuel(searched, 8);
    let s1 = search.told(p.slot);
    let s2 = s1.told(p.active);
    let s3 = s2.told(p.bobber);
    let s4 = s3.told(p.owner);
    let past = search.past(index as int);
    if p.slot is Null {
        assert(s1 == past);
        assert(searched(search, projectiles, limit) == searched(
            past,
            projectiles,
            (limit - 1) as nat,
        ));
    } else if !p.active.truth_or(false) {
        assert(s2 == past);
        assert(searched(search, projectiles, limit) == searched(
            past,
            projectiles,
            (limit - 2) as nat,
        ));
    } else if !p.bobber.truth_or(false) {
        assert(s3 == past);
        assert(searched(search, projectiles, limit) == searched(
            past,
            projectiles,
            (limit - 3) as nat,
        ));
    } else if p.owner.int_or(-1int as i32) != search.me {
        assert(s4 == past);
        assert(searched(search, projectiles, limit) == searched(
            past,
            projectiles,
            (limit - 4) as nat,
        ));
    } else {
        let s5 = s4.told(p.ai0);
        let s6 = s5.told(p.ai1);
        let s7 = s6.told(p.local_ai1);
        assert(s7.need == Need::Found(p.bobber(index)));
    }
}

/// From a place behind the hint on, a search finds the first bobber.
proof fn lemma_sweep(search: Search, projectiles: Seq<ProjectileView>, from: int, limit: nat)
    requires
        projectiles.len() == MAX_PROJECTILES,
        0 <= from <= MAX_PROJECTILES,
        limit >= 7 * (MAX_PROJECTILES - from),
    ensures
        searched(search.at(from), projectiles, limit) == sought(
            search.me,
            search.hint,
            projectiles,
            from,
        ),
    decreases MAX_PROJECTILES - from,
{
    let index = skipping(search.hint, from);
    let s = search.at(from);
    if index != from {
        assert(sought(search.me, search.hint, projectiles, from) == sought(
            search.me,
            search.hint,
            projectiles,
            from + 1,
        ));
    }
    if index < MAX_PROJECTILES {
        lemma_one_projectile(s, projectiles, index as i32, limit);
        if !projectiles[index].is_bobber_of(search.me) {
            let n = choose|n: nat|
                n <= 7 && n <= limit && searched(s, projectiles, limit) == #[trigger] searched(
                    s.past(index),
                    projectiles,
                    (limit - n) as nat,
                );
            lemma_sweep(s, projectiles, index + 1, (limit - n) as nat);
        }
    }
}

/// On a game that stands still a search ends, and finds what it ought to: the bobber
/// of the player where it was found last, else the first one, else none. It never
/// needs more than seven answers for a projectile.
pub proof fn law_search_finds_the_bobber(
    me: i32,
    hint: Option<i32>,
    projectiles: Seq<ProjectileView>,
)
    requires
        projectiles.len() == MAX_PROJECTILES,
    ensures
        searched(Search::initial(me, hint), projectiles, 7 * (MAX_PROJECTILES as nat + 1)) == (
        if me < 0 {
            Need::Nothing
        } else if usable(hint) is Some && projectiles[usable(hint)->0 as int].is_bobber_of(me) {
            Need::Found(projectiles[usable(hint)->0 as int].bobber(usable(hint)->0))
        } else {
            sought(me, hint, projectiles, 0)
        }),
{
    let s = Search::initial(me, hint);
    let limit = 7 * (MAX_PROJECTILES as nat + 1);
    if me >= 0 {
        match usable(hint) {
            Some(i) => {
                lemma_one_projectile(s, projectiles, i, limit);
                if !projectiles[i as int].is_bobber_of(me) {
                    let n = choose|n: nat|
                        n <= 7 && n <= limit && searched(s, projectiles, limit) == #[trigger]
                        searched(s.past(i as int), projectiles, (limit - n) as nat);
                    lemma_sweep(s, projectiles, 0, (limit - n) as nat);
                }
            },
            None => {
                lemma_sweep(s, projectiles, 0, limit);
                assert(s.at(0) == s);
            },
        }
    }
}

// ---------------------------------------------------------------------------
// The inventory
// ---------------------------------------------------------------------------

/// A part of an item in the inventory.
#[derive(Debug, Clone, Copy, PartialEq, Eq, Structural)]
pub enum ItemPart {
    /// The item itself.
    Slot,
    Kind,
    Stack,
    Bait,
}

/// An item as the game holds it.
pub struct ItemView {
    pub slot: VarView,
    pub kind: VarView,
    pub stack: VarView,
    pub bait: VarView,
}

impl ItemView {
    pub open spec fn part(self, part: ItemPart) -> VarView {
        match part {
            ItemPart::Slot => self.slot,
            ItemPart::Kind => self.kind,
            ItemPart::Stack => self.stack,
            ItemPart::Bait => self.bait,
        }
    }

    /// How much bait it is.
    pub open spec fn as_bait(self) -> int {
        if !(self.slot is Null) && self.stack.int_or(0) > 0 && self.bait.int_or(0) > 0 {
            self.stack.int_or(0) as int
        } else {
            0
        }
    }

    /// Whether its slot is free.
    pub open spec fn is_free(self) -> bool {
        self.slot is Null || self.kind.int_or(0) == 0 || self.stack.int_or(0) == 0
    }
}

/// What a count needs next: a part of an item, or nothing any more.
#[derive(Debug, Clone, Copy, PartialEq, Eq, Structural)]
pub enum Look {
    Read { index: i32, part: ItemPart },
    Done,
}

impl Look {
    /// The first look at an item, with so many slots to look at.
    pub open spec fn at(index: int, slots: i32) -> Look {
        if index < slots {
            Look::Read { index: index as i32, part: ItemPart::Slot }
        } else {
            Look::Done
        }
    }

    /// Whether what is needed is part of a slot that there is.
    pub open spec fn wf(self, slots: i32) -> bool {
        self matches Look::Read { index, part } ==> 0 <= index < slots
    }

    fn behind(index: i32, slots: i32) -> (r: Look)
        requires
            0 <= index < slots,
        ensures
            r == Look::at(index + 1, slots),
            r.wf(slots),
    {
        if index + 1 < slots {
            Look::Read { index: index + 1, part: ItemPart::Slot }
        } else {
            Look::Done
        }
    }
}

/// A count of the bait in the whole inventory. An item is bait where the game gives it bait
/// power.
#[derive(Debug, Clone, Copy, PartialEq, Eq, Structural)]
pub struct BaitCount {
    pub look: Look,
    pub stack: i32,
    pub total: i32,
}

impl BaitCount {
    pub open spec fn initial() -> BaitCount {
        BaitCount { look: Look::at(0, INVENTORY_SLOTS), stack: 0, total: 0 }
    }

    pub open spec fn told(self, value: VarView) -> BaitCount {
        match self.look {
            Look::Read { index, part } => match part {
                ItemPart::Slot => if value is Null {
                    BaitCount { look: Look::at(index + 1, INVENTORY_SLOTS), ..self }
                } else {
                    BaitCount { look: Look::Read { index, part: ItemPart::Stack }, ..self }
                },
                ItemPart::Stack => if value.int_or(0) <= 0 {
                    BaitCount { look: Look::at(index + 1, INVENTORY_SLOTS), ..self }
                } else {
                    BaitCount {
                        look: Look::Read { index, part: ItemPart::Bait },
                        stack: value.int_or(0),
                        ..self
                    }
                },
                ItemPart::Bait => BaitCount {
                    look: Look::at(index + 1, INVENTORY_SLOTS),
                    total: if value.int_or(0) > 0 {
                        (self.total + self.stack) as i32
                    } else {
                        self.total
                    },
                    ..self
                },
                ItemPart::Kind => self,
            },
            Look::Done => self,
        }
    }

    /// Whether the sum can be counted, where this answer adds to it.
    pub open spec fn fits(self, value: VarView) -> bool {
        self.look matches Look::Read { index, part } && part == ItemPart::Bait && value.int_or(0)
            > 0 ==> i32::MIN <= self.total + self.stack <= i32::MAX
    }

    /// Whether the sum can be counted, where this answer adds to it.
    pub fn has_room(&self, value: &Var) -> (r: bool)
        ensures
            r == self.fits(value@),
    {
        match self.look {
            Look::Read { index: _, part: ItemPart::Bait } => {
                let sum: i64 = self.total as i64 + self.stack as i64;
                value.int_or(0) <= 0 || i32::MIN as i64 <= sum && sum <= i32::MAX as i64
            },
            _ => true,
        }
    }

    /// Hands the count what it needed.
    pub fn tell(&mut self, value: &Var)
        requires
            old(self).look.wf(INVENTORY_SLOTS),
            old(self).fits(value@),
        ensures
            *final(self) == old(self).told(value@),
            final(self).look.wf(INVENTORY_SLOTS),
    {
        if let Look::Read { index, part } = self.look {
            match part {
                ItemPart::Slot => {
                    self.look = if value.is_null() {
                        Look::behind(index, INVENTORY_SLOTS)
                    } else {
                        Look::Read { index, part: ItemPart::Stack }
                    };
                },
                ItemPart::Stack => {
                    let stack: i32 = value.int_or(0);
                    if stack <= 0 {
                        self.look = Look::behind(index, INVENTORY_SLOTS);
                    } else {
                        self.stack = stack;
                        self.look = Look::Read { index, part: ItemPart::Bait };
                    }
                },
                ItemPart::Bait => {
                    if value.int_or(0) > 0 {
                        self.total = self.total + self.stack;
                    }
                    self.look = Look::behind(index, INVENTORY_SLOTS);
                },
                ItemPart::Kind => {},
            }
        }
    }
}

/// Begins a count of the bait.
pub fn bait_total() -> (r: BaitCount)
    ensures
        r == BaitCount::initial(),
        r.look.wf(INVENTORY_SLOTS),
{
    BaitCount { look: Look::Read { index: 0, part: ItemPart::Slot }, stack: 0, total: 0 }
}

/// A count of the free slots.
#[derive(Debug, Clone, Copy, PartialEq, Eq, Structural)]
pub struct FreeCount {
    pub look: Look,
    pub free: i32,
}

impl FreeCount {
    pub open spec fn initial() -> FreeCount {
        FreeCount { look: Look::at(0, INVENTORY_MAIN_SLOTS), free: 0 }
    }

    /// The count after a slot.
    pub open spec fn past(self, index: int, is_free: bool) -> FreeCount {
        FreeCount {
            look: Look::at(index + 1, INVENTORY_MAIN_SLOTS),
            free: if is_free {
                (self.free + 1) as i32
            } else {
                self.free
            },
        }
    }

    pub open spec fn told(self, value: VarView) -> FreeCount {
        match self.look {
            Look::Read { index, part } => match part {
                ItemPart::Slot => if value is Null {
                    self.past(index as int, true)
                } else {
                    FreeCount { look: Look::Read { index, part: ItemPart::Kind }, ..self }
                },
                ItemPart::Kind => if value.int_or(0) == 0 {
                    self.past(index as int, true)
                } else {
                    FreeCount { look: Look::Read { index, part: ItemPart::Stack }, ..self }
                },
                ItemPart::Stack => self.past(index as int, value.int_or(0) == 0),
                ItemPart::Bait => self,
            },
            Look::Done => self,
        }
    }

    /// No more slots are free than have been looked at.
    pub open spec fn wf(self) -> bool {
        &&& self.look.wf(INVENTORY_MAIN_SLOTS)
        &&& 0 <= self.free <= INVENTORY_MAIN_SLOTS
        &&& self.look matches Look::Read { index, part } ==> self.free <= index
    }

    fn pass(&mut self, index: i32, is_free: bool)
        requires
            old(self).wf(),
            0 <= index < INVENTORY_MAIN_SLOTS,
            old(self).free <= index,
        ensures
            *final(self) == old(self).past(index as int, is_free),
            final(self).wf(),
    {
        if is_free {
            self.free = self.free + 1;
        }
        self.look = Look::behind(index, INVENTORY_MAIN_SLOTS);
    }

    /// Hands the count what it needed.
    pub fn tell(&mut self, value: &Var)
        requires
            old(self).wf(),
        ensures
            *final(self) == old(self).told(value@),
            final(self).wf(),
    {
        if let Look::Read { index, part } = self.look {
            match part {
                ItemPart::Slot => {
                    if value.is_null() {
                        self.pass(index, true);
                    } else {
                        self.look = Look::Read { index, part: ItemPart::Kind };
                    }
                },
                ItemPart::Kind => {
                    if value.int_or(0) == 0 {
                        self.pass(index, true);
                    } else {
                        self.look = Look::Read { index, part: ItemPart::Stack };
                    }
                },
                ItemPart::Stack => self.pass(index, value.int_or(0) == 0),
                ItemPart::Bait => {},
            }
        }
    }
}

/// Begins a count of the free slots of the main grid.
pub fn free_slots() -> (r: FreeCount)
    ensures
        r == FreeCount::initial(),
        r.wf(),
{
    FreeCount { look: Look::Read { index: 0, part: ItemPart::Slot }, free: 0 }
}

/// A search for an item in the main grid.
#[derive(Debug, Clone, Copy, PartialEq, Eq, Structural)]
pub struct ItemSearch {
    pub item: i32,
    pub look: Look,
    /// The first slot that holds the item.
    pub slot: Option<i32>,
}

impl ItemView {
    /// Whether it is an item of that kind.
    pub open spec fn is_kind(self, item: i32) -> bool {
        !(self.slot is Null) && self.kind.int_or(0) == item && self.stack.int_or(0) > 0
    }
}

impl ItemSearch {
    pub open spec fn initial(item: i32) -> ItemSearch {
        ItemSearch { item, look: Look::at(0, INVENTORY_MAIN_SLOTS), slot: None }
    }

    pub open spec fn told(self, value: VarView) -> ItemSearch {
        match self.look {
            Look::Read { index, part } => match part {
                ItemPart::Slot => ItemSearch {
                    look: if value is Null {
                        Look::at(index + 1, INVENTORY_MAIN_SLOTS)
                    } else {
                        Look::Read { index, part: ItemPart::Kind }
                    },
                    ..self
                },
                ItemPart::Kind => ItemSearch {
                    look: if value.int_or(0) == self.item {
                        Look::Read { index, part: ItemPart::Stack }
                    } else {
                        Look::at(index + 1, INVENTORY_MAIN_SLOTS)
                    },
                    ..self
                },
                ItemPart::Stack => if value.int_or(0) > 0 {
                    ItemSearch { look: Look::Done, slot: Some(index), ..self }
                } else {
                    ItemSearch { look: Look::at(index + 1, INVENTORY_MAIN_SLOTS), ..self }
                },
                ItemPart::Bait => self,
            },
            Look::Done => self,
        }
    }

    /// Hands the search what it needed.
    pub fn tell(&mut self, value: &Var)
        requires
            old(self).look.wf(INVENTORY_MAIN_SLOTS),
        ensures
            *final(self) == old(self).told(value@),
            final(self).look.wf(INVENTORY_MAIN_SLOTS),
    {
        if let Look::Read { index, part } = self.look {
            match part {
                ItemPart::Slot => {
                    self.look = if value.is_null() {
                        Look::behind(index, INVENTORY_MAIN_SLOTS)
                    } else {
                        Look::Read { index, part: ItemPart::Kind }
                    };
                },
                ItemPart::Kind => {
                    self.look = if value.int_or(0) == self.item {
                        Look::Read { index, part: ItemPart::Stack }
                    } else {
                        Look::behind(index, INVENTORY_MAIN_SLOTS)
                    };
                },
                ItemPart::Stack => {
                    if value.int_or(0) > 0 {
                        self.slot = Some(index);
                        self.look = Look::Done;
                    } else {
                        self.look = Look::behind(index, INVENTORY_MAIN_SLOTS);
                    }
                },
                ItemPart::Bait => {},
            }
        }
    }
}

/// Begins a search for an item.
pub fn find_item(item: i32) -> (r: ItemSearch)
    ensures
        r == ItemSearch::initial(item),
        r.look.wf(INVENTORY_MAIN_SLOTS),
{
    ItemSearch { item, look: Look::Read { index: 0, part: ItemPart::Slot }, slot: None }
}

/// A search that is handed what stands in `items`, for at most `limit` answers.
pub open spec fn item_searched(
    search: ItemSearch,
    items: Seq<ItemView>,
    limit: nat,
) -> ItemSearch
    decreases limit,
{
    match search.look {
        Look::Read { index, part } if limit > 0 => item_searched(
            search.told(items[index as int].part(part)),
            items,
            (limit - 1) as nat,
        ),
        _ => search,
    }
}

proof fn lemma_item_searched(search: ItemSearch, items: Seq<ItemView>, index: int, limit: nat)
    requires
        items.len() == INVENTORY_MAIN_SLOTS,
        0 <= index <= INVENTORY_MAIN_SLOTS,
        search.look == Look::at(index, INVENTORY_MAIN_SLOTS),
        search.slot is None,
        limit >= 3 * (INVENTORY_MAIN_SLOTS - index),
    ensures
        ({
            let end = item_searched(search, items, limit);
            &&& end.look == Look::Done
            &&& match end.slot {
                Some(i) => index <= i < INVENTORY_MAIN_SLOTS && items[i as int].is_kind(search.item)
                    && forall|j: int| index <= j < i ==> !(#[trigger] items[j]).is_kind(search.item),
                None => forall|j: int|
                    index <= j < INVENTORY_MAIN_SLOTS ==> !(#[trigger] items[j]).is_kind(
                        search.item,
                    ),
            }
        }),
    decreases INVENTORY_MAIN_SLOTS - index,
{
    if index < INVENTORY_MAIN_SLOTS {
        let item = items[index];
        reveal_with_fuel(item_searched, 4);
        let s1 = search.told(item.slot);
        let s2 = s1.told(item.kind);
        let s3 = s2.told(item.stack);
        if item.slot is Null {
            lemma_item_searched(s1, items, index + 1, (limit - 1) as nat);
        } else if item.kind.int_or(0) != search.item {
            lemma_item_searched(s2, items, index + 1, (limit - 2) as nat);
        } else if item.stack.int_or(0) <= 0 {
            lemma_item_searched(s3, items, index + 1, (limit - 3) as nat);
        }
    }
}

/// On a game that stands still the search ends with the first slot that holds the item,
/// and with none where no slot does.
pub proof fn law_first_slot_of_an_item_is_found(item: i32, items: Seq<ItemView>)
    requires
        items.len() == INVENTORY_MAIN_SLOTS,
    ensures
        ({
            let end = item_searched(
                ItemSearch::initial(item),
                items,
                3 * INVENTORY_MAIN_SLOTS as nat,
            );
            &&& end.look == Look::Done
            &&& match end.slot {
                Some(i) => 0 <= i < INVENTORY_MAIN_SLOTS && items[i as int].is_kind(item)
                    && forall|j: int| 0 <= j < i ==> !(#[trigger] items[j]).is_kind(item),
                None => forall|j: int|
                    0 <= j < INVENTORY_MAIN_SLOTS ==> !(#[trigger] items[j]).is_kind(item),
            }
        }),
{
    lemma_item_searched(ItemSearch::initial(item), items, 0, 3 * INVENTORY_MAIN_SLOTS as nat);
}

/// How much bait the first `n` items are.
pub open spec fn bait_among(items: Seq<ItemView>, n: int) -> int
    decreases n,
{
    if n <= 0 {
        0
    } else {
        bait_among(items, n - 1) + items[n - 1].as_bait()
    }
}

/// How many of the first `n` slots are free.
pub open spec fn free_among(items: Seq<ItemView>, n: int) -> int
    decreases n,
{
    if n <= 0 {
        0
    } else {
        free_among(items, n - 1) + if items[n - 1].is_free() {
            1int
        } else {
            0
        }
    }
}

/// A count of bait that is handed what stands in `items`, for at most `limit` answers.
pub open spec fn bait_counted(count: BaitCount, items: Seq<ItemView>, limit: nat) -> BaitCount
    decreases limit,
{
    match count.look {
        Look::Read { index, part } if limit > 0 => bait_counted(
            count.told(items[index as int].part(part)),
            items,
            (limit - 1) as nat,
        ),
        _ => count,
    }
}

/// A count of free slots that is handed what stands in `items`, for at most `limit`
/// answers.
pub open spec fn free_counted(count: FreeCount, items: Seq<ItemView>, limit: nat) -> FreeCount
    decreases limit,
{
    match count.look {
        Look::Read { index, part } if limit > 0 => free_counted(
            count.told(items[index as int].part(part)),
            items,
            (limit - 1) as nat,
        ),
        _ => count,
    }
}

/// Whether every answer of a count of the bait can be counted.
pub open spec fn bait_admitted(count: BaitCount, items: Seq<ItemView>, limit: nat) -> bool
    decreases limit,
{
    match count.look {
        Look::Read { index, part } if limit > 0 => {
            let value = items[index as int].part(part);
            count.fits(value) && bait_admitted(count.told(value), items, (limit - 1) as nat)
        },
        _ => true,
    }
}

proof fn lemma_bait_grows(items: Seq<ItemView>, n: int, m: int)
    requires
        0 <= n <= m,
    ensures
        0 <= bait_among(items, n) <= bait_among(items, m),
    decreases m,
{
    if n < m {
        lemma_bait_grows(items, n, m - 1);
    } else if n > 0 {
        lemma_bait_grows(items, n - 1, n - 1);
    }
}

proof fn lemma_bait_counted(count: BaitCount, items: Seq<ItemView>, index: int, limit: nat)
    requires
        items.len() == INVENTORY_SLOTS,
        0 <= index <= INVENTORY_SLOTS,
        count.look == Look::at(index, INVENTORY_SLOTS),
        count.total == bait_among(items, index),
        bait_among(items, INVENTORY_SLOTS as int) <= i32::MAX,
        limit >= 3 * (INVENTORY_SLOTS - index),
    ensures
        bait_admitted(count, items, limit),
        bait_counted(count, items, limit).look == Look::Done,
        bait_counted(count, items, limit).total == bait_among(items, INVENTORY_SLOTS as int),
    decreases INVENTORY_SLOTS - index,
{
    if index < INVENTORY_SLOTS {
        let item = items[index];
        reveal_with_fuel(bait_counted, 4);
        reveal_with_fuel(bait_admitted, 4);
        lemma_bait_grows(items, index, index + 1);
        lemma_bait_grows(items, index + 1, INVENTORY_SLOTS as int);
        let c1 = count.told(item.slot);
        let c2 = c1.told(item.stack);
        let c3 = c2.told(item.bait);
        if item.slot is Null {
            lemma_bait_counted(c1, items, index + 1, (limit - 1) as nat);
        } else if item.stack.int_or(0) <= 0 {
            lemma_bait_counted(c2, items, index + 1, (limit - 2) as nat);
        } else {
            lemma_bait_counted(c3, items, index + 1, (limit - 3) as nat);
        }
    }
}

/// On a game that stands still the count of the bait is the sum of the stacks that are
/// bait, in whatever slots they lie; and as long as that sum can be counted, every answer
/// on the way to it can be.
pub proof fn law_bait_is_summed(items: Seq<ItemView>)
    requires
        items.len() == INVENTORY_SLOTS,
        bait_among(items, INVENTORY_SLOTS as int) <= i32::MAX,
    ensures
        ({
            let end = bait_counted(BaitCount::initial(), items, 3 * INVENTORY_SLOTS as nat);
            end.look == Look::Done && end.total == bait_among(items, INVENTORY_SLOTS as int)
        }),
        bait_admitted(BaitCount::initial(), items, 3 * INVENTORY_SLOTS as nat),
{
    lemma_bait_counted(BaitCount::initial(), items, 0, 3 * INVENTORY_SLOTS as nat);
}

proof fn lemma_free_counted(count: FreeCount, items: Seq<ItemView>, index: int, limit: nat)
    requires
        items.len() == INVENTORY_MAIN_SLOTS,
        0 <= index <= INVENTORY_MAIN_SLOTS,
        count.look == Look::at(index, INVENTORY_MAIN_SLOTS),
        count.free == free_among(items, index),
        0 <= count.free <= index,
        limit >= 3 * (INVENTORY_MAIN_SLOTS - index),
    ensures
        free_counted(count, items, limit).look == Look::Done,
        free_counted(count, items, limit).free == free_among(items, INVENTORY_MAIN_SLOTS as int),
    decreases INVENTORY_MAIN_SLOTS - index,
{
    if index < INVENTORY_MAIN_SLOTS {
        let item = items[index];
        reveal_with_fuel(free_counted, 4);
        let c1 = count.told(item.slot);
        let c2 = c1.told(item.kind);
        let c3 = c2.told(item.stack);
        if item.slot is Null {
            lemma_free_counted(c1, items, index + 1, (limit - 1) as nat);
        } else if item.kind.int_or(0) == 0 {
            lemma_free_counted(c2, items, index + 1, (limit - 2) as nat);
        } else {
            lemma_free_counted(c3, items, index + 1, (limit - 3) as nat);
        }
    }
}

/// On a game that stands still the count of the free slots is their number.
pub proof fn law_free_slots_are_counted(items: Seq<ItemView>)
    requires
        items.len() == INVENTORY_MAIN_SLOTS,
    ensures
        ({
            let end = free_counted(FreeCount::initial(), items, 3 * INVENTORY_MAIN_SLOTS as nat);
            end.look == Look::Done && end.free == free_among(items, INVENTORY_MAIN_SLOTS as int)
        }),
{
    lemma_free_counted(FreeCount::initial(), items, 0, 3 * INVENTORY_MAIN_SLOTS as nat);
}

// ---------------------------------------------------------------------------
// Single readings
// ---------------------------------------------------------------------------

/// What the game holds, as single readings of it.
pub struct Readings {
    pub player: i32,
    pub local: Option<i32>,
    pub throttled: bool,
    pub cursor: (i32, i32),
}

/// What single readings of the game mean.
pub open spec fn readings(me: VarView, throttle: VarView, x: VarView, y: VarView) -> Readings {
    Readings {
        player: me.int_or(-1int as i32),
        local: if me.int_or(-1int as i32) < 0 {
            None
        } else {
            Some(me.int_or(-1int as i32))
        },
        throttled: throttle.truth_or(true),
        cursor: (x.int_or(-1int as i32), y.int_or(-1int as i32)),
    }
}

/// The number of the local player, out of what the game holds there; -1 where that is
/// no number.
pub fn my_player(value: &Var) -> (r: i32)
    ensures
        r == value@.int_or(-1int as i32),
        r == readings(value@, value@, value@, value@).player,
{
    value.int_or(-1)
}

/// Which element of the list of players is the local one; none before a world is
/// entered.
pub fn local_player(value: &Var) -> (r: Option<i32>)
    ensures
        r == if value@.int_or(-1int as i32) < 0 {
            None
        } else {
            Some(value@.int_or(-1int as i32))
        },
        r == readings(value@, value@, value@, value@).local,
{
    let index: i32 = my_player(value);
    if index < 0 {
        None
    } else {
        Some(index)
    }
}

/// Whether the game sleeps while its window is behind others; it does unless it says
/// otherwise.
pub fn inactive_throttle(value: &Var) -> (r: bool)
    ensures
        r == value@.truth_or(true),
        r == readings(value@, value@, value@, value@).throttled,
{
    value.bool_or(true)
}

/// Where the cursor of the game is on the screen; -1 where a coordinate is no number.
pub fn mouse(x: &Var, y: &Var) -> (r: (i32, i32))
    ensures
        r == (x@.int_or(-1int as i32), y@.int_or(-1int as i32)),
        r == readings(x@, x@, x@, y@).cursor,
{
    (x.int_or(-1), y.int_or(-1))
}

/// The version of the game, where it can be read and is a text.
pub fn version(value: Option<&Var>) -> (r: Option<String>)
    ensures
        match r {
            Some(s) => value is Some && value->0@.string() == Some(s@),
            None => value is Some ==> value->0@.string() is None,
        },
{
    match value {
        Some(v) => v.as_string(),
        None => None,
    }
}

} // verus!
