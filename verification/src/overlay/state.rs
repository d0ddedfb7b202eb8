//! The state that the worker and the panel share.
//!
//! The worker writes what it reads from the game, the panel writes the switches.

use std::collections::HashMap;

use vstd::prelude::*;

use crate::single::Single;

verus! {

/// What the filter says of one item.
#[derive(Debug, Clone, Copy, PartialEq, Eq, Structural)]
pub enum Mark {
    /// Nothing; the mode of the list decides.
    Neutral,
    /// Green: take it.
    Allow,
    /// Red: leave it.
    Deny,
}

impl Mark {
    /// The mark after a click on the cell of the item.
    pub open spec fn following(self) -> Mark {
        match self {
            Mark::Neutral => Mark::Allow,
            Mark::Allow => Mark::Deny,
            Mark::Deny => Mark::Neutral,
        }
    }

    /// A click on the cell: neutral, then allowed, then denied, then neutral again.
    pub fn next(self) -> (r: Mark)
        ensures
            r == self.following(),
    {
        match self {
            Mark::Neutral => Mark::Allow,
            Mark::Allow => Mark::Deny,
            Mark::Deny => Mark::Neutral,
        }
    }
}

/// What the game says of an item that can be caught.
#[derive(Debug)]
pub struct Facts {
    /// The name as the game shows it.
    pub display: String,
    /// Whether the angler asks for it.
    pub quest: bool,
}

/// The model of [`Facts`].
pub struct FactsView {
    pub display: Seq<char>,
    pub quest: bool,
}

impl View for Facts {
    type V = FactsView;

    open spec fn view(&self) -> FactsView {
        FactsView { display: self.display@, quest: self.quest }
    }
}

/// What the worker last read from the game.
#[derive(Debug)]
pub struct Status {
    pub connected: String,
    pub fishing: String,
    pub bobber_cast: bool,
    /// Where the rod is cast to. `None` while the player has not cast it yet.
    pub aim: Option<(i32, i32)>,
    /// The bobber in the water was cast before the automaton was switched on.
    pub recast: bool,
    pub free_slots: i32,
    pub bait: i32,
    /// Which of the three potions have run out.
    pub potions_missing: [bool; 3],
    pub detour_ready: bool,
}

/// The model of [`Status`].
pub struct StatusView {
    pub connected: Seq<char>,
    pub fishing: Seq<char>,
    pub bobber_cast: bool,
    pub aim: Option<(i32, i32)>,
    pub recast: bool,
    pub free_slots: i32,
    pub bait: i32,
    pub potions_missing: Seq<bool>,
    pub detour_ready: bool,
}

impl View for Status {
    type V = StatusView;

    open spec fn view(&self) -> StatusView {
        StatusView {
            connected: self.connected@,
            fishing: self.fishing@,
            bobber_cast: self.bobber_cast,
            aim: self.aim,
            recast: self.recast,
            free_slots: self.free_slots,
            bait: self.bait,
            potions_missing: self.potions_missing@,
            detour_ready: self.detour_ready,
        }
    }
}

impl StatusView {
    pub open spec fn initial() -> StatusView {
        StatusView {
            connected: Seq::empty(),
            fishing: Seq::empty(),
            bobber_cast: false,
            aim: None,
            recast: false,
            free_slots: 0,
            bait: 0,
            potions_missing: seq![false, false, false],
            detour_ready: false,
        }
    }
}

impl Default for Status {
    fn default() -> (r: Status)
        ensures
            r@ == StatusView::initial(),
    {
        let r = Status {
            connected: String::new(),
            fishing: String::new(),
            bobber_cast: false,
            aim: None,
            recast: false,
            free_slots: 0,
            bait: 0,
            potions_missing: [false, false, false],
            detour_ready: false,
        };
        assert(r@.potions_missing =~= seq![false, false, false]);
        r
    }
}

/// The counters of the statistics window.
#[derive(Debug, Clone, Copy, PartialEq, Eq, Structural)]
pub struct Stats {
    pub seconds: u64,
    pub caught: u32,
    pub crates: u32,
    pub potions: u32,
    pub skipped: u32,
    /// Seconds from a cast to a bite, on the average.
    pub average_bite: Single,
}

impl Stats {
    pub open spec fn initial() -> Stats {
        Stats {
            seconds: 0,
            caught: 0,
            crates: 0,
            potions: 0,
            skipped: 0,
            average_bite: Single { bits: 0 },
        }
    }
}

impl Default for Stats {
    fn default() -> (r: Stats)
        ensures
            r == Stats::initial(),
    {
        Stats {
            seconds: 0,
            caught: 0,
            crates: 0,
            potions: 0,
            skipped: 0,
            average_bite: Single { bits: 0 },
        }
    }
}

/// Everything that the worker and the panel share.
#[derive(Debug)]
pub struct Shared {
    pub auto_fish: bool,
    pub quick_stack: bool,
    pub auto_potions: bool,
    /// Whether to hook what spawns an enemy.
    pub pull_enemy_spawns: bool,
    pub whitelist_mode: bool,
    /// Which of the three potions to drink.
    pub potions: [bool; 3],
    pub filter: HashMap<i32, Mark>,
    /// What can be caught at all.
    pub fishable: Vec<i32>,
    /// The names of these items in lower case, for the search.
    pub names: Vec<(i32, String)>,
    pub facts: HashMap<i32, Facts>,
    pub status: Status,
    pub stats: Stats,
    /// A switch was turned and the configuration has to be saved.
    pub dirty: bool,
}

/// The model of [`Shared`].
pub struct SharedView {
    pub auto_fish: bool,
    pub quick_stack: bool,
    pub auto_potions: bool,
    pub pull_enemy_spawns: bool,
    pub whitelist_mode: bool,
    pub potions: Seq<bool>,
    pub filter: Map<i32, Mark>,
    pub fishable: Seq<i32>,
    pub names: Seq<(i32, Seq<char>)>,
    pub facts: Map<i32, FactsView>,
    pub status: StatusView,
    pub stats: Stats,
    pub dirty: bool,
}

impl View for Shared {
    type V = SharedView;

    open spec fn view(&self) -> SharedView {
        SharedView {
            auto_fish: self.auto_fish,
            quick_stack: self.quick_stack,
            auto_potions: self.auto_potions,
            pull_enemy_spawns: self.pull_enemy_spawns,
            whitelist_mode: self.whitelist_mode,
            potions: self.potions@,
            filter: self.filter@,
            fishable: self.fishable@,
            names: self.names@.map_values(|n: (i32, String)| (n.0, n.1@)),
            facts: self.facts@.map_values(|f: Facts| f@),
            status: self.status@,
            stats: self.stats,
            dirty: self.dirty,
        }
    }
}

impl SharedView {
    pub open spec fn initial() -> SharedView {
        SharedView {
            auto_fish: false,
            quick_stack: true,
            auto_potions: false,
            pull_enemy_spawns: false,
            whitelist_mode: false,
            potions: seq![true, false, true],
            filter: Map::empty(),
            fishable: Seq::empty(),
            names: Seq::empty(),
            facts: Map::empty(),
            status: StatusView::initial(),
            stats: Stats::initial(),
            dirty: false,
        }
    }

    /// The mark of an item; an item without one is neutral.
    pub open spec fn mark(self, item: i32) -> Mark {
        if self.filter.dom().contains(item) {
            self.filter[item]
        } else {
            Mark::Neutral
        }
    }

    /// Whether a catch is to be hooked. A negative catch is no item but an enemy.
    pub open spec fn pulls(self, catch: i32) -> bool {
        if catch < 0 {
            self.pull_enemy_spawns
        } else {
            match self.mark(catch) {
                Mark::Allow => true,
                Mark::Deny => false,
                Mark::Neutral => !self.whitelist_mode,
            }
        }
    }

    /// The state after a click on the cell of an item: the mark moves on, and a
    /// neutral item leaves the filter.
    pub open spec fn cycled(self, item: i32) -> SharedView {
        let next = self.mark(item).following();
        SharedView {
            filter: if next == Mark::Neutral {
                self.filter.remove(item)
            } else {
                self.filter.insert(item, next)
            },
            dirty: true,
            ..self
        }
    }

    /// What is known of an item.
    pub open spec fn facts_of(self, item: i32) -> Option<FactsView> {
        if self.facts.dom().contains(item) {
            Some(self.facts[item])
        } else {
            None
        }
    }
}

impl Default for Shared {
    fn default() -> (r: Shared)
        ensures
            r@ == SharedView::initial(),
    {
        let r = Shared {
            auto_fish: false,
            quick_stack: true,
            auto_potions: false,
            pull_enemy_spawns: false,
            whitelist_mode: false,
            potions: [true, false, true],
            filter: HashMap::new(),
            fishable: Vec::new(),
            names: Vec::new(),
            facts: HashMap::new(),
            status: Status::default(),
            stats: Stats::default(),
            dirty: false,
        };
        assert(r@.potions =~= seq![true, false, true]);
        assert(r@.names =~= Seq::empty());
        assert(r@.facts =~= Map::empty());
        r
    }
}

impl Shared {
    /// The mark of an item.
    pub fn mark(&self, item: i32) -> (r: Mark)
        ensures
            r == self@.mark(item),
    {
        broadcast use vstd::std_specs::hash::group_hash_axioms;

        match self.filter.get(&item) {
            Some(mark) => *mark,
            None => Mark::Neutral,
        }
    }

    /// The decision on a catch, from the mode of the list and the mark of the item.
    pub fn should_pull(&self, item: i32) -> (r: bool)
        ensures
            r == self@.pulls(item),
            item < 0 ==> r == self.pull_enemy_spawns,
    {
        // A negative value is an enemy that spawns; icons do not filter those.
        if item < 0 {
            return self.pull_enemy_spawns;
        }
        match self.mark(item) {
            Mark::Allow => true,
            Mark::Deny => false,
            Mark::Neutral => !self.whitelist_mode,
        }
    }

    /// What is known of an item.
    pub fn facts(&self, item: i32) -> (r: Option<&Facts>)
        ensures
            match r {
                Some(f) => self@.facts_of(item) == Some(f@),
                None => self@.facts_of(item) is None,
            },
    {
        broadcast use vstd::std_specs::hash::group_hash_axioms;

        self.facts.get(&item)
    }

    /// A click on the cell of an item.
    pub fn cycle(&mut self, item: i32)
        ensures
            final(self)@ == old(self)@.cycled(item),
    {
        broadcast use vstd::std_specs::hash::group_hash_axioms;

        let next = self.mark(item).next();
        if next == Mark::Neutral {
            self.filter.remove(&item);
        } else {
            self.filter.insert(item, next);
        }
        self.dirty = true;
    }
}

/// The place where the shared state lives. A panic under its lock poisons it, and
/// from then on nobody gets in.
#[derive(Debug)]
pub struct Store {
    pub poisoned: bool,
    pub slot: Option<Shared>,
}

impl View for Store {
    /// `None` once the store is poisoned.
    type V = Option<SharedView>;

    open spec fn view(&self) -> Option<SharedView> {
        if self.poisoned {
            None
        } else {
            match self.slot {
                Some(shared) => Some(shared@),
                None => Some(SharedView::initial()),
            }
        }
    }
}

impl Store {
    /// An untouched store.
    pub fn new() -> (r: Store)
        ensures
            r@ == Some(SharedView::initial()),
    {
        Store { poisoned: false, slot: None }
    }

    /// The shared state, made on the first use; nothing once the store is poisoned.
    pub fn open(&mut self) -> (r: Option<&mut Shared>)
        ensures
            match r {
                Some(shared) => old(self)@ == Some(shared@) && final(self)@ == Some(
                    final(shared)@,
                ),
                None => old(self)@ is None && *final(self) == *old(self),
            },
    {
        if self.poisoned {
            return None;
        }
        if self.slot.is_none() {
            self.slot = Some(Shared::default());
        }
        self.slot.as_mut()
    }
}

/// Runs `f` on the shared state, made on the first use. Nothing runs once the
/// store is poisoned.
pub fn with<R, F: FnOnce(&mut Shared) -> R>(store: &mut Store, f: F) -> (r: Option<R>)
    requires
        forall|s: &mut Shared| f.requires((s,)),
    ensures
        match r {
            Some(value) => exists|s: &mut Shared| #[trigger]
                f.ensures((s,), value) && old(store)@ == Some(s@) && final(store)@ == Some(
                    final(s)@,
                ),
            None => old(store)@ is None && *final(store) == *old(store),
        },
{
    match store.open() {
        Some(shared) => {
            let value = f(shared);
            let r = Some(value);
            assert(exists|s: &mut Shared| #[trigger] f.ensures((s,), value));
            let ghost seen = choose|s: &mut Shared| #[trigger] f.ensures((s,), value);
            assert(f.ensures((seen,), r->0));
            r
        },
        None => None,
    }
}

/// Three clicks on a cell bring back the mark that it had, and touch no other item.
pub proof fn law_three_clicks_restore_the_mark(shared: SharedView, item: i32, other: i32)
    ensures
        shared.cycled(item).cycled(item).cycled(item).mark(item) == shared.mark(item),
        other != item ==> shared.cycled(item).mark(other) == shared.mark(other),
{
}

/// A mark decides on its item whatever the mode of the list; an item without one
/// is taken exactly where the list is black.
pub proof fn law_marks_outrank_the_list(shared: SharedView, item: i32)
    requires
        item >= 0,
    ensures
        shared.mark(item) == Mark::Allow ==> shared.pulls(item),
        shared.mark(item) == Mark::Deny ==> !shared.pulls(item),
        shared.mark(item) == Mark::Neutral ==> shared.pulls(item) == !shared.whitelist_mode,
{
}

} // verus!
