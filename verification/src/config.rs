//! The configuration. Everything that the panel switches lives here.

use std::collections::HashMap;

use vstd::prelude::*;

use crate::overlay::state::{Mark, Shared, SharedView};

verus! {

/// How the catch is filtered. A black list takes everything but rubbish.
#[derive(Debug, Clone, Copy, PartialEq, Eq, Structural)]
pub enum FilterMode {
    /// Take everything but what is listed.
    Blacklist,
    /// Take only what is listed.
    Whitelist,
}

impl FilterMode {
    /// The other mode.
    pub open spec fn other(self) -> FilterMode {
        match self {
            FilterMode::Blacklist => FilterMode::Whitelist,
            FilterMode::Whitelist => FilterMode::Blacklist,
        }
    }

    /// The other mode.
    pub fn toggled(self) -> (r: FilterMode)
        ensures
            r == self.other(),
    {
        match self {
            FilterMode::Blacklist => FilterMode::Whitelist,
            FilterMode::Whitelist => FilterMode::Blacklist,
        }
    }
}

/// The configuration as it lies in its file.
#[derive(Debug)]
pub struct Config {
    pub filter_mode: FilterMode,
    /// Items that a black list leaves: an old shoe, seaweed and a tin can at first.
    pub blacklist: Vec<i32>,
    /// Items that a white list takes.
    pub whitelist: Vec<i32>,
    /// Whether to hook what spawns an enemy.
    pub pull_enemy_spawns: bool,
    /// Whether a full inventory is stacked into the chests nearby. If not, fishing
    /// simply goes on.
    pub quick_stack_when_full: bool,
    /// Whether the panel is drawn below the cursor of the game.
    pub cursor_detour: bool,
    /// Whether the game may run at full speed in the background.
    pub disable_inactive_throttle: bool,
    /// The spread of the pauses before a cast and after a pull, in milliseconds.
    pub jitter_min_ms: u64,
    pub jitter_max_ms: u64,
    /// Whether potions are drunk at all.
    pub auto_potions: bool,
    /// Which of the three potions to drink: fishing, sonar, crate.
    pub potions: [bool; 3],
    /// Virtual key codes: Insert, End and Delete at first.
    pub hotkey_ui: u16,
    pub hotkey_toggle: u16,
    pub hotkey_unload: u16,
}

/// The model of [`Config`].
pub struct ConfigView {
    pub filter_mode: FilterMode,
    pub blacklist: Seq<i32>,
    pub whitelist: Seq<i32>,
    pub pull_enemy_spawns: bool,
    pub quick_stack_when_full: bool,
    pub cursor_detour: bool,
    pub disable_inactive_throttle: bool,
    pub jitter_min_ms: u64,
    pub jitter_max_ms: u64,
    pub auto_potions: bool,
    pub potions: Seq<bool>,
    pub hotkey_ui: u16,
    pub hotkey_toggle: u16,
    pub hotkey_unload: u16,
}

impl View for Config {
    type V = ConfigView;

    open spec fn view(&self) -> ConfigView {
        ConfigView {
            filter_mode: self.filter_mode,
            blacklist: self.blacklist@,
            whitelist: self.whitelist@,
            pull_enemy_spawns: self.pull_enemy_spawns,
            quick_stack_when_full: self.quick_stack_when_full,
            cursor_detour: self.cursor_detour,
            disable_inactive_throttle: self.disable_inactive_throttle,
            jitter_min_ms: self.jitter_min_ms,
            jitter_max_ms: self.jitter_max_ms,
            auto_potions: self.auto_potions,
            potions: self.potions@,
            hotkey_ui: self.hotkey_ui,
            hotkey_toggle: self.hotkey_toggle,
            hotkey_unload: self.hotkey_unload,
        }
    }
}

impl ConfigView {
    /// What holds where nothing else is said.
    pub open spec fn initial() -> ConfigView {
        ConfigView {
            filter_mode: FilterMode::Blacklist,
            blacklist: seq![2337i32, 2338, 2339],
            whitelist: Seq::empty(),
            pull_enemy_spawns: false,
            quick_stack_when_full: true,
            cursor_detour: true,
            disable_inactive_throttle: true,
            jitter_min_ms: 120,
            jitter_max_ms: 480,
            auto_potions: false,
            potions: seq![true, false, true],
            hotkey_ui: 0x2D,
            hotkey_toggle: 0x23,
            hotkey_unload: 0x2E,
        }
    }
}

impl Default for Config {
    fn default() -> (r: Config)
        ensures
            r@ == ConfigView::initial(),
    {
        let r = Config {
            filter_mode: FilterMode::Blacklist,
            blacklist: vec![2337, 2338, 2339],
            whitelist: Vec::new(),
            pull_enemy_spawns: false,
            quick_stack_when_full: true,
            cursor_detour: true,
            disable_inactive_throttle: true,
            jitter_min_ms: 120,
            jitter_max_ms: 480,
            auto_potions: false,
            potions: [true, false, true],
            hotkey_ui: 0x2D,
            hotkey_toggle: 0x23,
            hotkey_unload: 0x2E,
        };
        assert(r@.blacklist =~= seq![2337i32, 2338, 2339]);
        assert(r@.potions =~= seq![true, false, true]);
        r
    }
}

/// What was found of the configuration file.
#[derive(Debug)]
pub enum Found {
    Parsed(Config),
    /// The file is there but makes no sense.
    Broken,
    /// The file cannot be read.
    Missing,
}

/// The configuration to go by, and whether it has to be written: a file that makes sense
/// counts as it stands, a broken one is left alone, a missing one is made.
pub open spec fn loaded(found: Found) -> (ConfigView, bool) {
    match found {
        Found::Parsed(config) => (config@, false),
        Found::Broken => (ConfigView::initial(), false),
        Found::Missing => (ConfigView::initial(), true),
    }
}

/// A configuration whose file is read as what was written to it is loaded as it was
/// saved, and not written again.
pub proof fn law_saved_configuration_is_loaded(saved: ConfigView, read: Config)
    requires
        read@ == saved,
    ensures
        loaded(Found::Parsed(read)) == (saved, false),
{
}

impl Config {
    /// The configuration to go by, and whether it has to be written: a file that
    /// makes sense counts as it stands, a broken one is left alone, a missing one
    /// is made.
    pub fn load(found: Found) -> (r: (Config, bool))
        ensures
            (r.0@, r.1) == loaded(found),
    {
        match found {
            Found::Parsed(config) => (config, false),
            Found::Broken => (Config::default(), false),
            Found::Missing => (Config::default(), true),
        }
    }
}

// ---------------------------------------------------------------------------
// What the panel switches
// ---------------------------------------------------------------------------

/// Whether a list of items goes upwards, with no item twice.
pub open spec fn ascends(list: Seq<i32>) -> bool {
    forall|i: int, j: int| 0 <= i < j < list.len() ==> list[i] < list[j]
}

/// Whether a list holds exactly the items with that mark, upwards.
pub open spec fn lists(list: Seq<i32>, filter: Map<i32, Mark>, mark: Mark) -> bool {
    &&& ascends(list)
    &&& forall|item: i32| #[trigger]
        list.contains(item) <==> filter.dom().contains(item) && filter[item] == mark
}

impl ConfigView {
    /// Whether this is the configuration after the switches of the panel were taken into
    /// `before`.
    pub open spec fn keeps(self, before: ConfigView, s: SharedView) -> bool {
        &&& self == (ConfigView {
            filter_mode: if s.whitelist_mode {
                FilterMode::Whitelist
            } else {
                FilterMode::Blacklist
            },
            blacklist: self.blacklist,
            whitelist: self.whitelist,
            pull_enemy_spawns: s.pull_enemy_spawns,
            quick_stack_when_full: s.quick_stack,
            auto_potions: s.auto_potions,
            potions: s.potions,
            ..before
        })
        &&& lists(self.blacklist, s.filter, Mark::Deny)
        &&& lists(self.whitelist, s.filter, Mark::Allow)
    }

    /// The mark of an item. On both lists, the list of the mode counts.
    pub open spec fn mark(self, item: i32) -> Mark {
        let denied = self.blacklist.contains(item);
        let allowed = self.whitelist.contains(item);
        match self.filter_mode {
            FilterMode::Blacklist => if denied {
                Mark::Deny
            } else if allowed {
                Mark::Allow
            } else {
                Mark::Neutral
            },
            FilterMode::Whitelist => if allowed {
                Mark::Allow
            } else if denied {
                Mark::Deny
            } else {
                Mark::Neutral
            },
        }
    }

    /// The marks of all items that are on a list.
    pub open spec fn marks(self) -> Map<i32, Mark> {
        Map::new(
            |item: i32| self.blacklist.contains(item) || self.whitelist.contains(item),
            |item: i32| self.mark(item),
        )
    }

    /// The shared state with the switches as the configuration has them.
    pub open spec fn spread(self, s: SharedView) -> SharedView {
        SharedView {
            quick_stack: self.quick_stack_when_full,
            auto_potions: self.auto_potions,
            pull_enemy_spawns: self.pull_enemy_spawns,
            whitelist_mode: self.filter_mode == FilterMode::Whitelist,
            potions: self.potions,
            filter: self.marks(),
            ..s
        }
    }
}

/// Puts an item into a list that goes upwards.
fn put_in(list: &mut Vec<i32>, item: i32)
    requires
        ascends(old(list)@),
    ensures
        ascends(final(list)@),
        forall|x: i32| #[trigger]
            final(list)@.contains(x) <==> old(list)@.contains(x) || x == item,
{
    let n: usize = list.len();
    let mut at: usize = 0;
    while at < n && list[at] < item
        invariant
            at <= n == list@.len(),
            list@ == old(list)@,
            forall|i: int| 0 <= i < at ==> list@[i] < item,
        ensures
            at <= n,
            list@ == old(list)@,
            forall|i: int| 0 <= i < at ==> list@[i] < item,
            at < n ==> list@[at as int] >= item,
        decreases n - at,
    {
        at = at + 1;
    }
    if at < n && list[at] == item {
        return ;
    }
    list.insert(at, item);
    proof {
        let before = old(list)@;
        assert(list@ == before.insert(at as int, item));
        assert(list@[at as int] == item);
        assert forall|x: i32| #[trigger] list@.contains(x) implies before.contains(x) || x == item by {
            let k = choose|k: int| 0 <= k < list@.len() && list@[k] == x;
            if k < at {
                assert(before[k] == x);
            } else if k > at {
                assert(before[k - 1] == x);
            }
        }
        assert forall|x: i32| #[trigger] before.contains(x) implies list@.contains(x) by {
            let k = choose|k: int| 0 <= k < before.len() && before[k] == x;
            if k < at {
                assert(list@[k] == x);
            } else {
                assert(list@[k + 1] == x);
            }
        }
    }
}

/// A list one longer holds one item more.
proof fn lemma_one_more(list: Seq<i32>, n: int)
    requires
        0 <= n < list.len(),
    ensures
        forall|x: i32|
            #![trigger list.take(n + 1).contains(x)]
            #![trigger list.take(n).contains(x)]
            list.take(n + 1).contains(x) <==> list.take(n).contains(x) || x == list[n],
{
    let (a, b) = (list.take(n), list.take(n + 1));
    assert forall|x: i32|
        #![trigger b.contains(x)]
        #![trigger a.contains(x)]
        b.contains(x) <==> a.contains(x) || x == list[n] by {
        if b.contains(x) {
            let k = choose|k: int| 0 <= k < b.len() && b[k] == x;
            if k < n {
                assert(a[k] == x);
            }
        }
        if a.contains(x) {
            let k = choose|k: int| 0 <= k < a.len() && a[k] == x;
            assert(b[k] == x);
        }
        assert(b[n] == list[n]);
    }
}

/// Who takes all of a list has what it holds.
proof fn lemma_all_taken(list: Seq<i32>, n: int)
    ensures
        n == list.len() ==> forall|x: i32| #[trigger]
            list.take(n).contains(x) <==> list.to_set().contains(x),
{
    if n == list.len() {
        assert(list.take(n) =~= list);
    }
}

/// The items with that mark, upwards.
fn listed(filter: &HashMap<i32, Mark>, mark: Mark) -> (r: Vec<i32>)
    ensures
        lists(r@, filter@, mark),
{
    broadcast use vstd::std_specs::hash::group_hash_axioms;

    let mut r: Vec<i32> = Vec::new();
    for item in it: filter.keys()
        invariant
            it.seq().unref().to_set() == filter@.dom(),
            ascends(r@),
            forall|x: i32| #[trigger]
                r@.contains(x) <==> it.seq().unref().take(it.index()).contains(x) && filter@[x]
                    == mark,
            it.index() == it.seq().len() ==> lists(r@, filter@, mark),
    {
        proof {
            let all = it.seq().unref();
            lemma_one_more(all, it.index());
            assert(all.to_set().contains(all[it.index()]));
        }
        if let Some(m) = filter.get(item) {
            if *m == mark {
                put_in(&mut r, *item);
            }
        }
        proof {
            let all = it.seq().unref();
            lemma_all_taken(all, it.index() + 1);
        }
    }
    r
}

fn mark_all(filter: &mut HashMap<i32, Mark>, items: &Vec<i32>, mark: Mark)
    ensures
        forall|x: i32| #[trigger]
            final(filter)@.dom().contains(x) <==> old(filter)@.dom().contains(x)
                || items@.contains(x),
        forall|x: i32| #[trigger]
            final(filter)@.dom().contains(x) ==> final(filter)@[x] == if items@.contains(x) {
                mark
            } else {
                old(filter)@[x]
            },
{
    broadcast use vstd::std_specs::hash::group_hash_axioms;

    let mut i: usize = 0;
    let n: usize = items.len();
    while i < n
        invariant
            i <= n == items@.len(),
            forall|x: i32| #[trigger]
                filter@.dom().contains(x) <==> old(filter)@.dom().contains(x) || items@.take(
                    i as int,
                ).contains(x),
            forall|x: i32| #[trigger]
                filter@.dom().contains(x) ==> filter@[x] == if items@.take(i as int).contains(x) {
                    mark
                } else {
                    old(filter)@[x]
                },
        decreases n - i,
    {
        filter.insert(items[i], mark);
        proof {
            lemma_one_more(items@, i as int);
        }
        i = i + 1;
    }
    assert(items@.take(n as int) =~= items@);
}

impl Config {
    /// Takes the switches, the mode of the list and the marks of the items from the panel,
    /// where one was turned; says whether so. They are kept then.
    pub fn keep(&mut self, shared: &mut Shared) -> (r: bool)
        ensures
            r == old(shared)@.dirty,
            r ==> final(self)@.keeps(old(self)@, old(shared)@),
            !r ==> final(self)@ == old(self)@,
            final(shared)@ == (SharedView { dirty: false, ..old(shared)@ }),
    {
        if !shared.dirty {
            return false;
        }
        self.filter_mode = if shared.whitelist_mode {
            FilterMode::Whitelist
        } else {
            FilterMode::Blacklist
        };
        self.blacklist = listed(&shared.filter, Mark::Deny);
        self.whitelist = listed(&shared.filter, Mark::Allow);
        self.pull_enemy_spawns = shared.pull_enemy_spawns;
        self.quick_stack_when_full = shared.quick_stack;
        self.auto_potions = shared.auto_potions;
        self.potions = shared.potions;
        shared.dirty = false;
        true
    }

    /// Sets the switches, the mode of the list and the marks of the items on the panel.
    pub fn restore(&self, shared: &mut Shared)
        ensures
            final(shared)@ == self@.spread(old(shared)@),
    {
        let mut filter: HashMap<i32, Mark> = HashMap::new();
        match self.filter_mode {
            FilterMode::Blacklist => {
                mark_all(&mut filter, &self.whitelist, Mark::Allow);
                mark_all(&mut filter, &self.blacklist, Mark::Deny);
            },
            FilterMode::Whitelist => {
                mark_all(&mut filter, &self.blacklist, Mark::Deny);
                mark_all(&mut filter, &self.whitelist, Mark::Allow);
            },
        }
        assert(filter@ =~= self@.marks());
        shared.filter = filter;
        shared.whitelist_mode = match self.filter_mode {
            FilterMode::Blacklist => false,
            FilterMode::Whitelist => true,
        };
        shared.quick_stack = self.quick_stack_when_full;
        shared.auto_potions = self.auto_potions;
        shared.pull_enemy_spawns = self.pull_enemy_spawns;
        shared.potions = self.potions;
    }
}

/// What goes upwards is told by what it holds.
proof fn lemma_ascending(a: Seq<i32>, b: Seq<i32>)
    requires
        ascends(a),
        ascends(b),
        forall|item: i32|
            #![trigger a.contains(item)]
            #![trigger b.contains(item)]
            a.contains(item) <==> b.contains(item),
    ensures
        a == b,
    decreases a.len(),
{
    if a.len() == 0 {
        if b.len() > 0 {
            assert(b.contains(b[0]));
        }
        assert(a =~= b);
    } else {
        assert(a.contains(a.last()));
        let k = choose|k: int| 0 <= k < b.len() && b[k] == a.last();
        assert(b.contains(b.last()));
        let l = choose|l: int| 0 <= l < a.len() && a[l] == b.last();
        assert(a.last() == b.last());
        let (c, d) = (a.drop_last(), b.drop_last());
        assert forall|item: i32|
            #![trigger c.contains(item)]
            #![trigger d.contains(item)]
            c.contains(item) <==> d.contains(item) by {
            if c.contains(item) {
                let i = choose|i: int| 0 <= i < c.len() && c[i] == item;
                assert(a[i] == item);
                assert(a.contains(item));
                let j = choose|j: int| 0 <= j < b.len() && b[j] == item;
                assert(d[j] == item);
            }
            if d.contains(item) {
                let i = choose|i: int| 0 <= i < d.len() && d[i] == item;
                assert(b[i] == item);
                assert(b.contains(item));
                let j = choose|j: int| 0 <= j < a.len() && a[j] == item;
                assert(c[j] == item);
            }
        }
        lemma_ascending(c, d);
        assert(a =~= c.push(a.last()));
        assert(b =~= d.push(b.last()));
    }
}

/// There is one configuration only that keeps the switches of a panel.
pub proof fn law_one_configuration_keeps_the_switches(
    before: ConfigView,
    s: SharedView,
    a: ConfigView,
    b: ConfigView,
)
    requires
        a.keeps(before, s),
        b.keeps(before, s),
    ensures
        a == b,
{
    lemma_ascending(a.blacklist, b.blacklist);
    lemma_ascending(a.whitelist, b.whitelist);
}

/// What was switched in the panel and kept is found again: on whatever panel the
/// configuration is restored, the switches and the marks stand as they did, and every
/// catch is decided on as before.
pub proof fn law_what_is_switched_is_kept(
    before: ConfigView,
    s: SharedView,
    kept: ConfigView,
    fresh: SharedView,
    item: i32,
)
    requires
        kept.keeps(before, s),
    ensures
        ({
            let again = kept.spread(fresh);
            &&& again.quick_stack == s.quick_stack
            &&& again.auto_potions == s.auto_potions
            &&& again.potions == s.potions
            &&& again.pull_enemy_spawns == s.pull_enemy_spawns
            &&& again.whitelist_mode == s.whitelist_mode
            &&& again.mark(item) == s.mark(item)
            &&& again.pulls(item) == s.pulls(item)
        }),
{
}

/// A panel with a configuration restored on it decides by the list of the mode: a black
/// list takes every item that is not on it, a white list those that are.
pub proof fn law_the_list_of_the_mode_decides(c: ConfigView, s: SharedView, item: i32)
    requires
        item >= 0,
    ensures
        c.spread(s).pulls(item) == match c.filter_mode {
            FilterMode::Blacklist => !c.blacklist.contains(item),
            FilterMode::Whitelist => c.whitelist.contains(item),
        },
{
}

} // verus!
