//! A tick of the automaton, as a machine.
//!
//! A tick reads the game and decides in turn. The machine is handed what was read,
//! an [`Event`], and says by a [`Request`] what to read or to do next.

use vstd::prelude::*;

use super::bite::{announce, display_name, Announcement, AnnouncementView, Bite};
use super::idle::{refresh_stock, Stock, UNREADABLE};
use super::{since, Fishing, AFTER_PULL, POTION_INTERVAL, STOCK_INTERVAL};
use crate::config::{Config, ConfigView};
use crate::game::Bobber;
use crate::input::{MailView, Mailbox};
use crate::overlay::state::{SharedView, Stats, StatusView, Store};
use crate::single::Single;

verus! {

/// A potion: the item, and the buff that it gives.
#[derive(Debug, Clone, Copy, PartialEq, Eq, Structural)]
pub struct Potion {
    pub item: i32,
    pub buff: i32,
}

/// Which of the three potions are to be drunk.
#[derive(Debug, Clone, Copy, PartialEq, Eq, Structural)]
pub struct Wanted {
    pub fishing: bool,
    pub sonar: bool,
    pub crates: bool,
}

impl Wanted {
    pub open spec fn at(self, index: int) -> bool {
        if index == 0 {
            self.fishing
        } else if index == 1 {
            self.sonar
        } else {
            self.crates
        }
    }

    /// Whether the potion of that number is to be drunk.
    pub fn wants(&self, index: usize) -> (r: bool)
        ensures
            r == self.at(index as int),
    {
        match index {
            0 => self.fishing,
            1 => self.sonar,
            _ => self.crates,
        }
    }

    /// The first potion from `index` on that is to be drunk, or 3.
    pub open spec fn next(self, index: int) -> int
        decreases 3 - index,
    {
        if index >= 3 || self.at(index) {
            index
        } else {
            self.next(index + 1)
        }
    }
}

/// How far a tick has got.
#[derive(Debug, Clone, Copy, PartialEq, Eq, Structural)]
pub enum Stage {
    Start,
    Rod,
    Stock,
    Player { wanted: Wanted },
    Buff { index: usize, wanted: Wanted },
    Find { index: usize, wanted: Wanted },
    Drink { index: usize, wanted: Wanted },
    Drunk { index: usize, wanted: Wanted },
    Bobber,
    Mouse { bobber: Bobber },
    Measured { rolled: i32, what: Bite },
    Crate { rolled: i32 },
    Enemy { rolled: i32, hooked: bool },
    Told { hooked: bool },
    IdleStock,
    Average,
    Over,
}

/// What was read or done.
#[derive(Debug)]
pub enum Event {
    Begin,
    /// Whether the player holds a rod, where that could be read.
    Rod(Option<bool>),
    /// The stock, where there is a player.
    Stock(Option<Stock>),
    /// Whether there is a player.
    Player(bool),
    /// Whether the buff is on, where that could be read.
    Buff(Option<bool>),
    /// The slot that holds the item, where there is one.
    Found(Option<i32>),
    /// Whether the potion was drunk.
    Drunk(bool),
    /// The bobber, where there is one; `None` where nothing could be read.
    Bobber(Option<Option<Bobber>>),
    /// Where the cursor is, where that could be read.
    Mouse(Option<(i32, i32)>),
    /// Whether the catch is a crate.
    Crate(bool),
    /// The name of the enemy, where the game has one.
    Enemy(Option<String>),
    /// The average wait for a bite, in seconds.
    Average(Single),
    Done,
}

/// The model of [`Event`].
pub enum EventView {
    Begin,
    Rod(Option<bool>),
    Stock(Option<Stock>),
    Player(bool),
    Buff(Option<bool>),
    Found(Option<i32>),
    Drunk(bool),
    Bobber(Option<Option<Bobber>>),
    Mouse(Option<(i32, i32)>),
    Crate(bool),
    Enemy(Option<Seq<char>>),
    Average(Single),
    Done,
}

impl View for Event {
    type V = EventView;

    open spec fn view(&self) -> EventView {
        match *self {
            Event::Begin => EventView::Begin,
            Event::Rod(x) => EventView::Rod(x),
            Event::Stock(x) => EventView::Stock(x),
            Event::Player(x) => EventView::Player(x),
            Event::Buff(x) => EventView::Buff(x),
            Event::Found(x) => EventView::Found(x),
            Event::Drunk(x) => EventView::Drunk(x),
            Event::Bobber(x) => EventView::Bobber(x),
            Event::Mouse(x) => EventView::Mouse(x),
            Event::Crate(x) => EventView::Crate(x),
            Event::Enemy(x) => EventView::Enemy(
                match x {
                    Some(s) => Some(s@),
                    None => None,
                },
            ),
            Event::Average(x) => EventView::Average(x),
            Event::Done => EventView::Done,
        }
    }
}

/// What to read or to do next.
#[derive(Debug)]
pub enum Request {
    /// Look whether the player holds a rod.
    Rod,
    /// Read the stock.
    Stock,
    /// Look whether there is a player.
    Player,
    /// Look whether this buff is on.
    Buff(i32),
    /// Look for this item in the inventory.
    Find(i32),
    Drink { slot: i32, buff: i32 },
    /// Look for the bobber, where it was found last first.
    Bobber(Option<i32>),
    /// Read the cursor.
    Mouse,
    /// Add this wait for a bite, in nanoseconds, to the average.
    Measure(u64),
    /// Look whether this catch is a crate.
    Crate(i32),
    /// Ask the name of this enemy.
    Enemy(i32),
    Tell(Announcement),
    /// Work out the average wait for a bite.
    Average,
    /// The tick is over.
    Done,
}

/// The model of [`Request`].
pub enum RequestView {
    Rod,
    Stock,
    Player,
    Buff(i32),
    Find(i32),
    Drink { slot: i32, buff: i32 },
    Bobber(Option<i32>),
    Mouse,
    Measure(u64),
    Crate(i32),
    Enemy(i32),
    Tell(AnnouncementView),
    Average,
    Done,
}

impl View for Request {
    type V = RequestView;

    open spec fn view(&self) -> RequestView {
        match *self {
            Request::Rod => RequestView::Rod,
            Request::Stock => RequestView::Stock,
            Request::Player => RequestView::Player,
            Request::Buff(x) => RequestView::Buff(x),
            Request::Find(x) => RequestView::Find(x),
            Request::Drink { slot, buff } => RequestView::Drink { slot, buff },
            Request::Bobber(x) => RequestView::Bobber(x),
            Request::Mouse => RequestView::Mouse,
            Request::Measure(x) => RequestView::Measure(x),
            Request::Crate(x) => RequestView::Crate(x),
            Request::Enemy(x) => RequestView::Enemy(x),
            Request::Tell(a) => RequestView::Tell(a@),
            Request::Average => RequestView::Average,
            Request::Done => RequestView::Done,
        }
    }
}

/// Everything that a tick changes.
pub struct World {
    pub fishing: Fishing,
    pub store: Option<SharedView>,
    pub mail: MailView,
}

/// What a tick goes by.
pub struct Rules {
    pub config: ConfigView,
    pub potions: Seq<Potion>,
    /// Whether somebody applies presses.
    pub detour: bool,
}

/// A world, how far the tick has got in it, and what is next.
pub struct Step {
    pub world: World,
    pub stage: Stage,
    pub request: RequestView,
}

impl World {
    pub open spec fn goes(self, stage: Stage, request: RequestView) -> Step {
        Step { world: self, stage, request }
    }

    /// Ends the tick but for the statistics.
    pub open spec fn to_average(self) -> Step {
        self.goes(Stage::Average, RequestView::Average)
    }

    /// Looks for the bobber.
    pub open spec fn to_bobber(self) -> Step {
        self.goes(Stage::Bobber, RequestView::Bobber(self.fishing.hint))
    }

    /// Goes on with the potions from `index` on.
    #[verifier::opaque]
    pub open spec fn to_potion(self, rules: Rules, index: int, wanted: Wanted) -> Step {
        let next = wanted.next(index);
        if next >= 3 {
            self.to_bobber()
        } else {
            self.goes(
                Stage::Buff { index: next as usize, wanted },
                RequestView::Buff(rules.potions[next].buff),
            )
        }
    }

    /// Looks after the potions, if it is time.
    #[verifier::opaque]
    pub open spec fn to_potions(self, now: u64) -> Step {
        if super::elapsed(self.fishing.last_potion, now) >= POTION_INTERVAL {
            let w = World { fishing: Fishing { last_potion: now, ..self.fishing }, ..self };
            match self.store {
                Some(s) if s.auto_potions => w.goes(
                    Stage::Player { wanted: wanted_of(s) },
                    RequestView::Player,
                ),
                _ => w.to_bobber(),
            }
        } else {
            self.to_bobber()
        }
    }

    /// Reads the stock, if it is time.
    #[verifier::opaque]
    pub open spec fn to_stock(self, now: u64) -> Step {
        if super::elapsed(self.fishing.last_stock, now) >= STOCK_INTERVAL {
            World { fishing: Fishing { last_stock: now, ..self.fishing }, ..self }.goes(
                Stage::Stock,
                RequestView::Stock,
            )
        } else {
            self.to_potions(now)
        }
    }

    /// Begins: a lost press is called off, the session is kept, and once it is known
    /// where to cast, the hand of the player is looked at.
    #[verifier::opaque]
    pub open spec fn begun(self, now: u64) -> Step {
        let fishing = self.fishing.unstuck(self.mail, now).timed(
            super::switched_on(self.store),
            now,
        );
        let w = World {
            fishing,
            mail: if self.fishing.click_lost(self.mail, now) {
                self.mail.cancelled()
            } else {
                self.mail
            },
            ..self
        };
        if super::switched_on(self.store) && fishing.aim is Some {
            w.goes(Stage::Rod, RequestView::Rod)
        } else {
            w.to_stock(now)
        }
    }

    /// A bobber is in the water.
    #[verifier::opaque]
    pub open spec fn bobber_seen(self, rules: Rules, bobber: Bobber, now: u64) -> Step {
        let w = World {
            fishing: Fishing { hint: Some(bobber.index), ..self.fishing },
            store: bobber_shown(self.store, true),
            ..self
        };
        if self.fishing.aim is None && !self.fishing.wait_recast {
            w.goes(Stage::Mouse { bobber }, RequestView::Mouse)
        } else {
            w.to_bite(rules, bobber, now)
        }
    }

    /// Looks whether something bites. Without a bite the wait begins, if it has not.
    #[verifier::opaque]
    pub open spec fn to_bite(self, rules: Rules, bobber: Bobber, now: u64) -> Step {
        if bobber.bites() {
            let rolled = bobber.catch();
            let what = self.fishing.bite(self.store, self.mail, rules.detour, rolled, now);
            let w = World {
                fishing: self.fishing.bitten(what, rolled, now),
                mail: if what is Hooked {
                    self.mail.clicking(None)
                } else {
                    self.mail
                },
                ..self
            };
            match self.fishing.wait(rolled, now) {
                Some(waited) => w.goes(
                    Stage::Measured { rolled, what },
                    RequestView::Measure(waited),
                ),
                None => w.to_settle(rolled, what),
            }
        } else {
            World {
                fishing: Fishing {
                    last_bite: 0,
                    cast_at: match self.fishing.cast_at {
                        Some(at) => Some(at),
                        None => Some(now),
                    },
                    ..self.fishing
                },
                ..self
            }.to_average()
        }
    }

    /// Follows up what became of a bite.
    #[verifier::opaque]
    pub open spec fn to_settle(self, rolled: i32, what: Bite) -> Step {
        match what {
            Bite::Skipped => self.to_tell(rolled, false),
            Bite::Hooked => self.goes(Stage::Crate { rolled }, RequestView::Crate(rolled)),
            _ => self.to_average(),
        }
    }

    /// Tells of a catch that was skipped; of an enemy only once its name was asked.
    #[verifier::opaque]
    pub open spec fn to_tell(self, rolled: i32, hooked: bool) -> Step {
        if rolled < 0 {
            self.goes(Stage::Enemy { rolled, hooked }, RequestView::Enemy((-rolled) as i32))
        } else {
            match super::bite::told(self.store, rolled, hooked, None) {
                Some(a) => self.goes(Stage::Told { hooked }, RequestView::Tell(a)),
                None => self.to_average(),
            }
        }
    }

    /// After a pull the automaton pauses.
    pub open spec fn rested(self, rules: Rules, now: u64) -> World {
        World { fishing: self.fishing.resting(rules.config, AFTER_PULL, now), ..self }
    }

    /// The pull was made: a crate is counted, and what there is to tell is told.
    #[verifier::opaque]
    pub open spec fn landed(self, rules: Rules, rolled: i32, is_crate: bool, now: u64) -> Step {
        let w = World {
            fishing: Fishing {
                crates: if is_crate {
                    (self.fishing.crates + 1) as u32
                } else {
                    self.fishing.crates
                },
                ..self.fishing
            },
            ..self
        };
        if rolled >= 0 && super::bite::told(w.store, rolled, true, None) is None {
            w.rested(rules, now).to_average()
        } else {
            w.to_tell(rolled, true)
        }
    }

    /// No bobber is in the water: whatever is cast next was cast with fishing
    /// switched on.
    #[verifier::opaque]
    pub open spec fn bobber_gone(self, now: u64) -> Step {
        let w = World {
            fishing: Fishing { hint: None, wait_recast: false, ..self.fishing },
            store: bobber_shown(self.store, false),
            ..self
        };
        if w.fishing.may_cast(w.store, w.mail, now) {
            w.goes(Stage::IdleStock, RequestView::Stock)
        } else {
            w.to_average()
        }
    }

    /// The water was looked at, or could not be.
    #[verifier::opaque]
    pub open spec fn bobber_read(
        self,
        rules: Rules,
        seen: Option<Option<Bobber>>,
        now: u64,
    ) -> Step {
        match seen {
            Some(Some(bobber)) => self.bobber_seen(rules, bobber, now),
            Some(None) => self.bobber_gone(now),
            None => self.to_average(),
        }
    }

    /// The stock was read with no bobber in the water.
    #[verifier::opaque]
    pub open spec fn idle_stocked(self, rules: Rules, stock: Option<Stock>, now: u64) -> Step {
        let f = Fishing { last_stock: now, ..self.fishing };
        let store = super::idle::restocked(self.store, stock);
        let what = f.idle(store, self.mail, rules.detour, super::idle::stocked(stock), now);
        World {
            fishing: f.idled(what, rules.config, now),
            store,
            mail: f.idle_mail(what, self.mail),
        }.to_average()
    }

    /// A potion was drunk.
    #[verifier::opaque]
    pub open spec fn drunk(self, rules: Rules, index: usize, wanted: Wanted) -> Step {
        let item = rules.potions[index as int].item;
        World {
            store: match self.store {
                Some(s) => Some(
                    SharedView {
                        stats: Stats { potions: (s.stats.potions + 1) as u32, ..s.stats },
                        ..s
                    },
                ),
                None => None,
            },
            ..self
        }.goes(
            Stage::Drunk { index, wanted },
            RequestView::Tell(
                AnnouncementView::Potion { item, name: super::bite::name_of(self.store, item) },
            ),
        )
    }

    /// What follows on an event. An event that does not belong to the stage ends the
    /// tick and changes nothing.
    pub open spec fn stepped(self, rules: Rules, stage: Stage, event: EventView, now: u64) -> Step {
        match (stage, event) {
            (Stage::Start, EventView::Begin) => self.begun(now),
            (Stage::Rod, EventView::Rod(held)) => World {
                store: rod_seen(self.store, held),
                ..self
            }.to_stock(now),
            (Stage::Stock, EventView::Stock(stock)) => World {
                store: super::idle::restocked(self.store, stock),
                ..self
            }.to_potions(now),
            (Stage::Player { wanted }, EventView::Player(there)) => if there {
                self.to_potion(rules, 0, wanted)
            } else {
                self.to_bobber()
            },
            (Stage::Buff { index, wanted }, EventView::Buff(on)) => if on == Some(false) {
                self.goes(
                    Stage::Find { index, wanted },
                    RequestView::Find(rules.potions[index as int].item),
                )
            } else {
                self.to_potion(rules, index + 1, wanted)
            },
            (Stage::Find { index, wanted }, EventView::Found(found)) => match found {
                Some(slot) => self.goes(
                    Stage::Drink { index, wanted },
                    RequestView::Drink { slot, buff: rules.potions[index as int].buff },
                ),
                None => self.to_potion(rules, index + 1, wanted),
            },
            (Stage::Drink { index, wanted }, EventView::Drunk(ok)) => if ok {
                self.drunk(rules, index, wanted)
            } else {
                self.to_potion(rules, index + 1, wanted)
            },
            (Stage::Drunk { index, wanted }, EventView::Done) => self.to_potion(
                rules,
                index + 1,
                wanted,
            ),
            (Stage::Bobber, EventView::Bobber(seen)) => self.bobber_read(rules, seen, now),
            (Stage::Mouse { bobber }, EventView::Mouse(mouse)) => World {
                fishing: self.fishing.aimed(mouse),
                ..self
            }.to_bite(rules, bobber, now),
            (Stage::Measured { rolled, what }, EventView::Done) => self.to_settle(rolled, what),
            (Stage::Crate { rolled }, EventView::Crate(is_crate)) => self.landed(
                rules,
                rolled,
                is_crate,
                now,
            ),
            (Stage::Enemy { rolled, hooked }, EventView::Enemy(name)) => match super::bite::told(
                self.store,
                rolled,
                hooked,
                name,
            ) {
                Some(a) => self.goes(Stage::Told { hooked }, RequestView::Tell(a)),
                None => self.to_average(),
            },
            (Stage::Told { hooked }, EventView::Done) => if hooked {
                self.rested(rules, now).to_average()
            } else {
                self.to_average()
            },
            (Stage::IdleStock, EventView::Stock(stock)) => self.idle_stocked(rules, stock, now),
            (Stage::Average, EventView::Average(average)) => World {
                store: published(self.store, self.fishing, rules.detour, average),
                ..self
            }.goes(Stage::Over, RequestView::Done),
            _ => self.goes(Stage::Over, RequestView::Done),
        }
    }
}

impl World {
    /// Whether what a look at the bobber counts up can be counted, and the catch, where
    /// it goes further than the look, has an opposite number.
    pub open spec fn look_fits(self, detour: bool, bobber: Bobber, now: u64) -> bool {
        bobber.bites() ==> {
            let rolled = bobber.catch();
            let what = self.fishing.bite(self.store, self.mail, detour, rolled, now);
            &&& self.fishing.bite_fits(what, rolled)
            &&& what is Skipped || what is Hooked ==> rolled > i32::MIN
        }
    }

    /// Whether what follows on an event can be counted, and its pause ends within the
    /// range of the clock.
    pub open spec fn fits(
        self,
        config: ConfigView,
        detour: bool,
        stage: Stage,
        event: EventView,
        now: u64,
    ) -> bool {
        match (stage, event) {
            (Stage::Drink { .. }, EventView::Drunk(ok)) => ok ==> (self.store matches Some(s)
                ==> s.stats.potions < u32::MAX),
            (Stage::Bobber, EventView::Bobber(Some(Some(bobber)))) => {
                ||| self.fishing.aim is None && !self.fishing.wait_recast
                ||| self.look_fits(detour, bobber, now)
            },
            (Stage::Mouse { bobber }, EventView::Mouse(_)) => self.look_fits(detour, bobber, now),
            (Stage::Crate { rolled }, EventView::Crate(is_crate)) => {
                &&& is_crate ==> self.fishing.crates < u32::MAX
                &&& super::bite::told(self.store, rolled, true, None) is None ==> super::pause_fits(
                    config,
                    AFTER_PULL,
                    now,
                )
            },
            (Stage::Told { hooked }, EventView::Done) => hooked ==> super::pause_fits(
                config,
                AFTER_PULL,
                now,
            ),
            (Stage::IdleStock, EventView::Stock(stock)) => self.fishing.idle_fits(
                self.fishing.idle(self.store, self.mail, detour, super::idle::stocked(stock), now),
                config,
                now,
            ),
            _ => true,
        }
    }
}

/// Without a rod in the hand, fishing is switched off.
pub open spec fn rod_seen(store: Option<SharedView>, held: Option<bool>) -> Option<SharedView> {
    match (held, store) {
        (Some(false), Some(s)) => Some(SharedView { auto_fish: false, dirty: true, ..s }),
        _ => store,
    }
}

/// Says whether a bobber is in the water.
pub open spec fn bobber_shown(store: Option<SharedView>, cast: bool) -> Option<SharedView> {
    match store {
        Some(s) => Some(
            SharedView { status: StatusView { bobber_cast: cast, ..s.status }, ..s },
        ),
        None => None,
    }
}

/// The statistics and the status line are shown.
pub open spec fn published(
    store: Option<SharedView>,
    fishing: Fishing,
    detour: bool,
    average: Single,
) -> Option<SharedView> {
    match store {
        Some(s) => Some(
            SharedView {
                status: StatusView {
                    fishing: fishing.line(s.auto_fish, detour),
                    aim: fishing.aim,
                    recast: fishing.wait_recast,
                    ..s.status
                },
                stats: Stats {
                    seconds: fishing.session_seconds,
                    caught: fishing.pulls,
                    skipped: fishing.skips,
                    crates: fishing.crates,
                    average_bite: average,
                    ..s.stats
                },
                ..s
            },
        ),
        None => None,
    }
}

/// The potions that are to be drunk.
pub open spec fn wanted_of(s: SharedView) -> Wanted {
    Wanted { fishing: s.potions[0], sonar: s.potions[1], crates: s.potions[2] }
}

impl Stage {
    /// What holds of an automaton that has got that far in its tick.
    pub open spec fn wf(self, fishing: Fishing) -> bool {
        match self {
            Stage::Buff { index, wanted } => index < 3,
            Stage::Find { index, wanted } => index < 3,
            Stage::Drink { index, wanted } => index < 3,
            Stage::Drunk { index, wanted } => index < 3,
            Stage::Measured { rolled, what } => what is Skipped || what is Hooked ==> rolled
                > i32::MIN,
            Stage::Crate { rolled } => rolled > i32::MIN,
            Stage::Enemy { rolled, hooked } => i32::MIN < rolled < 0,
            Stage::IdleStock => fishing.stopped is None && fishing.aim is Some,
            _ => true,
        }
    }
}

/// Whether an automaton, the shared state, the mailbox and the outcome of a turn are
/// those of a step.
pub open spec fn reached(
    step: Step,
    fishing: Fishing,
    store: Option<SharedView>,
    mail: MailView,
    outcome: (Stage, Request),
) -> bool {
    &&& fishing == step.world.fishing
    &&& store == step.world.store
    &&& mail == step.world.mail
    &&& outcome.0 == step.stage
    &&& outcome.1@ == step.request
}

/// The world of an automaton.
pub open spec fn world(fishing: Fishing, store: Option<SharedView>, mail: MailView) -> World {
    World { fishing, store, mail }
}

/// What a tick goes by.
pub open spec fn rules(config: ConfigView, potions: Seq<Potion>, detour: bool) -> Rules {
    Rules { config, potions, detour }
}

impl Fishing {
    /// The automaton with the place remembered where the first cast went.
    pub open spec fn aimed(self, mouse: Option<(i32, i32)>) -> Fishing {
        match mouse {
            Some(p) if p.0 >= 0 && p.1 >= 0 => Fishing { aim: Some(p), ..self },
            _ => self,
        }
    }

    /// Without a rod in the hand the automaton would swing whatever is in it:
    /// fishing is switched off, as if the player had done it.
    pub fn check_rod(store: &mut Store, held: Option<bool>)
        ensures
            final(store)@ == rod_seen(old(store)@, held),
    {
        if let Some(false) = held {
            if let Some(s) = store.open() {
                s.auto_fish = false;
                s.dirty = true;
            }
        }
    }

    /// The first cast is made by the player, and where it went is remembered. A
    /// cursor outside the screen is no place to cast to.
    pub fn remember_aim(&mut self, mouse: Option<(i32, i32)>)
        requires
            old(self).wf(),
        ensures
            *final(self) == old(self).aimed(mouse),
            final(self).wf(),
    {
        if let Some((x, y)) = mouse {
            if x >= 0 && y >= 0 {
                self.aim = Some((x, y));
            }
        }
    }

    fn show_bobber(store: &mut Store, cast: bool)
        ensures
            final(store)@ == bobber_shown(old(store)@, cast),
    {
        if let Some(s) = store.open() {
            s.status.bobber_cast = cast;
        }
    }

    fn publish(&self, store: &mut Store, detour: bool, average: Single)
        ensures
            final(store)@ == published(old(store)@, *self, detour, average),
    {
        if let Some(s) = store.open() {
            s.status.fishing = self.status(s.auto_fish, detour);
            s.status.aim = self.aim;
            s.status.recast = self.wait_recast;
            s.stats.seconds = self.session_seconds;
            s.stats.caught = self.pulls;
            s.stats.skipped = self.skips;
            s.stats.crates = self.crates;
            s.stats.average_bite = average;
        }
    }

    fn look_for_bobber(&self) -> (r: (Stage, Request))
        ensures
            r.0 == Stage::Bobber,
            r.1@ == RequestView::Bobber(self.hint),
    {
        (Stage::Bobber, Request::Bobber(self.hint))
    }

    fn next_potion(
        &self,
        store: &Store,
        mail: &Mailbox,
        potions: &[Potion; 3],
        index: usize,
        wanted: Wanted,
        Ghost(rules): Ghost<Rules>,
    ) -> (r: (Stage, Request))
        requires
            index <= 3,
            rules.potions == potions@,
        ensures
            reached(
                world(*self, store@, mail@).to_potion(rules, index as int, wanted),
                *self,
                store@,
                mail@,
                r,
            ),
            r.0.wf(*self),
    {
        proof {
            reveal(World::to_potion);
        }
        let mut next: usize = index;
        while next < 3 && !wanted.wants(next)
            invariant
                index <= next <= 3,
                wanted.next(next as int) == wanted.next(index as int),
            decreases 3 - next,
        {
            next = next + 1;
        }
        if next >= 3 {
            self.look_for_bobber()
        } else {
            (Stage::Buff { index: next, wanted }, Request::Buff(potions[next].buff))
        }
    }

    fn drink_potions(&mut self, store: &mut Store, mail: &Mailbox, now: u64) -> (r: (
        Stage,
        Request,
    ))
        requires
            old(self).wf(),
        ensures
            reached(
                world(*old(self), old(store)@, mail@).to_potions(now),
                *final(self),
                final(store)@,
                mail@,
                r,
            ),
            r.0.wf(*final(self)),
            final(self).wf(),
    {
        proof {
            reveal(World::to_potions);
        }
        if since(self.last_potion, now) >= POTION_INTERVAL {
            self.last_potion = now;
            if let Some(s) = store.open() {
                if s.auto_potions {
                    let wanted = Wanted {
                        fishing: s.potions[0],
                        sonar: s.potions[1],
                        crates: s.potions[2],
                    };
                    return (Stage::Player { wanted }, Request::Player);
                }
            }
        }
        self.look_for_bobber()
    }

    fn read_stock(&mut self, store: &mut Store, mail: &Mailbox, now: u64) -> (r: (Stage, Request))
        requires
            old(self).wf(),
        ensures
            reached(
                world(*old(self), old(store)@, mail@).to_stock(now),
                *final(self),
                final(store)@,
                mail@,
                r,
            ),
            r.0.wf(*final(self)),
            final(self).wf(),
    {
        proof {
            reveal(World::to_stock);
        }
        if since(self.last_stock, now) >= STOCK_INTERVAL {
            self.last_stock = now;
            return (Stage::Stock, Request::Stock);
        }
        self.drink_potions(store, mail, now)
    }

    fn begin(&mut self, store: &mut Store, mail: &mut Mailbox, now: u64) -> (r: (Stage, Request))
        requires
            old(self).wf(),
        ensures
            reached(
                world(*old(self), old(store)@, old(mail)@).begun(now),
                *final(self),
                final(store)@,
                final(mail)@,
                r,
            ),
            r.0.wf(*final(self)),
            final(self).wf(),
    {
        proof {
            reveal(World::begun);
        }
        self.drop_stale_click(mail, now);
        let on: bool = super::enabled(store);
        self.track_session(on, now);
        if on && self.aim.is_some() {
            return (Stage::Rod, Request::Rod);
        }
        self.read_stock(store, mail, now)
    }

    /// What is next where there is something to tell, or to ask before it is told.
    fn tell(&self, store: &mut Store, mail: &Mailbox, rolled: i32, hooked: bool) -> (r: Option<
        (Stage, Request),
    >)
        requires
            rolled > i32::MIN,
        ensures
            final(store)@ == old(store)@,
            match r {
                Some(outcome) => {
                    &&& reached(
                        world(*self, old(store)@, mail@).to_tell(rolled, hooked),
                        *self,
                        old(store)@,
                        mail@,
                        outcome,
                    )
                    &&& outcome.0.wf(*self)
                    &&& rolled < 0 || super::bite::told(old(store)@, rolled, hooked, None) is Some
                },
                None => rolled >= 0 && super::bite::told(old(store)@, rolled, hooked, None) is None,
            },
    {
        proof {
            reveal(World::to_tell);
        }
        if rolled < 0 {
            return Some((Stage::Enemy { rolled, hooked }, Request::Enemy(-rolled)));
        }
        match announce(store, rolled, hooked, None) {
            Some(a) => Some((Stage::Told { hooked }, Request::Tell(a))),
            None => None,
        }
    }

    fn settle(&self, store: &mut Store, mail: &Mailbox, rolled: i32, what: Bite) -> (r: (
        Stage,
        Request,
    ))
        requires
            what is Skipped || what is Hooked ==> rolled > i32::MIN,
        ensures
            reached(
                world(*self, old(store)@, mail@).to_settle(rolled, what),
                *self,
                final(store)@,
                mail@,
                r,
            ),
            r.0.wf(*self),
    {
        proof {
            reveal(World::to_settle);
        }
        match what {
            Bite::Skipped => match self.tell(store, mail, rolled, false) {
                Some(outcome) => outcome,
                None => (Stage::Average, Request::Average),
            },
            Bite::Hooked => (Stage::Crate { rolled }, Request::Crate(rolled)),
            _ => (Stage::Average, Request::Average),
        }
    }

    fn look_at_bobber(
        &mut self,
        store: &mut Store,
        mail: &mut Mailbox,
        detour: bool,
        bobber: Bobber,
        now: u64,
        Ghost(rules): Ghost<Rules>,
    ) -> (r: (Stage, Request))
        requires
            old(self).wf(),
            world(*old(self), old(store)@, old(mail)@).look_fits(detour, bobber, now),
            rules.detour == detour,
        ensures
            reached(
                world(*old(self), old(store)@, old(mail)@).to_bite(rules, bobber, now),
                *final(self),
                final(store)@,
                final(mail)@,
                r,
            ),
            r.0.wf(*final(self)),
            final(self).wf(),
    {
        proof {
            reveal(World::to_bite);
        }
        if bobber.has_bite() {
            let rolled: i32 = bobber.rolled();
            let (what, waited) = self.on_bite(store, mail, detour, rolled, now);
            match waited {
                Some(time) => (Stage::Measured { rolled, what }, Request::Measure(time)),
                None => self.settle(store, mail, rolled, what),
            }
        } else {
            self.last_bite = 0;
            if self.cast_at.is_none() {
                self.cast_at = Some(now);
            }
            (Stage::Average, Request::Average)
        }
    }

    fn bobber_read(
        &mut self,
        store: &mut Store,
        mail: &mut Mailbox,
        detour: bool,
        seen: Option<Option<Bobber>>,
        now: u64,
        Ghost(rules): Ghost<Rules>,
    ) -> (r: (Stage, Request))
        requires
            old(self).wf(),
            world(*old(self), old(store)@, old(mail)@).fits(
                rules.config,
                detour,
                Stage::Bobber,
                EventView::Bobber(seen),
                now,
            ),
            rules.detour == detour,
        ensures
            reached(
                world(*old(self), old(store)@, old(mail)@).bobber_read(rules, seen, now),
                *final(self),
                final(store)@,
                final(mail)@,
                r,
            ),
            r.0.wf(*final(self)),
            final(self).wf(),
    {
        proof {
            reveal(World::bobber_read);
            reveal(World::bobber_seen);
            reveal(World::bobber_gone);
        }
        match seen {
            Some(Some(bobber)) => {
                self.hint = Some(bobber.index);
                Fishing::show_bobber(store, true);
                if self.aim.is_none() && !self.wait_recast {
                    return (Stage::Mouse { bobber }, Request::Mouse);
                }
                self.look_at_bobber(store, mail, detour, bobber, now, Ghost(rules))
            },
            Some(None) => {
                self.hint = None;
                self.wait_recast = false;
                Fishing::show_bobber(store, false);
                if self.idle_ready(store, mail, now) {
                    return (Stage::IdleStock, Request::Stock);
                }
                (Stage::Average, Request::Average)
            },
            None => (Stage::Average, Request::Average),
        }
    }

    fn landed(
        &mut self,
        store: &mut Store,
        mail: &Mailbox,
        config: &Config,
        rolled: i32,
        is_crate: bool,
        now: u64,
        Ghost(rules): Ghost<Rules>,
    ) -> (r: (Stage, Request))
        requires
            old(self).wf(),
            rolled > i32::MIN,
            world(*old(self), old(store)@, mail@).fits(
                config@,
                rules.detour,
                Stage::Crate { rolled },
                EventView::Crate(is_crate),
                now,
            ),
            rules.config == config@,
        ensures
            reached(
                world(*old(self), old(store)@, mail@).landed(rules, rolled, is_crate, now),
                *final(self),
                final(store)@,
                mail@,
                r,
            ),
            r.0.wf(*final(self)),
            final(self).wf(),
    {
        proof {
            reveal(World::landed);
        }
        self.land(is_crate);
        match self.tell(store, mail, rolled, true) {
            Some(outcome) => outcome,
            None => {
                self.rest(config, AFTER_PULL, now);
                (Stage::Average, Request::Average)
            },
        }
    }

    fn drank(
        &self,
        store: &mut Store,
        mail: &Mailbox,
        potions: &[Potion; 3],
        index: usize,
        wanted: Wanted,
        Ghost(rules): Ghost<Rules>,
    ) -> (r: (Stage, Request))
        requires
            index < 3,
            old(store)@ matches Some(s) ==> s.stats.potions < u32::MAX,
            rules.potions == potions@,
        ensures
            reached(
                world(*self, old(store)@, mail@).drunk(rules, index, wanted),
                *self,
                final(store)@,
                mail@,
                r,
            ),
            r.0.wf(*self),
    {
        proof {
            reveal(World::drunk);
        }
        let item: i32 = potions[index].item;
        let name = display_name(store, item);
        if let Some(s) = store.open() {
            s.stats.potions = s.stats.potions + 1;
        }
        (Stage::Drunk { index, wanted }, Request::Tell(Announcement::Potion { item, name }))
    }

    fn idle_stocked(
        &mut self,
        store: &mut Store,
        mail: &mut Mailbox,
        config: &Config,
        detour: bool,
        stock: Option<Stock>,
        now: u64,
        Ghost(rules): Ghost<Rules>,
    ) -> (r: (Stage, Request))
        requires
            old(self).wf(),
            old(self).stopped is None,
            old(self).aim is Some,
            world(*old(self), old(store)@, old(mail)@).fits(
                config@,
                detour,
                Stage::IdleStock,
                EventView::Stock(stock),
                now,
            ),
            rules.config == config@,
            rules.detour == detour,
        ensures
            reached(
                world(*old(self), old(store)@, old(mail)@).idle_stocked(rules, stock, now),
                *final(self),
                final(store)@,
                final(mail)@,
                r,
            ),
            r.0.wf(*final(self)),
            final(self).wf(),
    {
        proof {
            reveal(World::idle_stocked);
        }
        let read = refresh_stock(store, stock);
        self.last_stock = now;
        let _ = self.on_idle(store, mail, config, detour, read, now);
        (Stage::Average, Request::Average)
    }

    fn can_look(
        &self,
        store: &mut Store,
        mail: &Mailbox,
        detour: bool,
        bobber: &Bobber,
        now: u64,
    ) -> (r: bool)
        ensures
            r == world(*self, old(store)@, mail@).look_fits(detour, *bobber, now),
            final(store)@ == old(store)@,
    {
        if !bobber.has_bite() {
            return true;
        }
        let rolled: i32 = bobber.rolled();
        let what = self.judge_bite(store, mail, detour, rolled, now);
        self.can_count(what, rolled) && match what {
            Bite::Skipped | Bite::Hooked => rolled > i32::MIN,
            _ => true,
        }
    }

    /// Whether what follows on an event can be counted, and its pause ends within the
    /// range of the clock.
    pub fn admits(
        &self,
        store: &mut Store,
        mail: &Mailbox,
        config: &Config,
        detour: bool,
        stage: Stage,
        event: &Event,
        now: u64,
    ) -> (r: bool)
        requires
            stage.wf(*self),
        ensures
            r == world(*self, old(store)@, mail@).fits(config@, detour, stage, event@, now),
            final(store)@ == old(store)@,
    {
        match (stage, event) {
            (Stage::Drink { .. }, Event::Drunk(ok)) => match store.open() {
                Some(s) => !*ok || s.stats.potions < u32::MAX,
                None => true,
            },
            (Stage::Bobber, Event::Bobber(Some(Some(bobber)))) => {
                self.aim.is_none() && !self.wait_recast || self.can_look(
                    store,
                    mail,
                    detour,
                    bobber,
                    now,
                )
            },
            (Stage::Mouse { bobber }, Event::Mouse(_)) => self.can_look(
                store,
                mail,
                detour,
                &bobber,
                now,
            ),
            (Stage::Crate { rolled }, Event::Crate(is_crate)) => {
                let quiet: bool = announce(store, rolled, true, None).is_none();
                (!*is_crate || self.crates < u32::MAX) && (!quiet || super::has_time(
                    config,
                    AFTER_PULL,
                    now,
                ))
            },
            (Stage::Told { hooked }, Event::Done) => !hooked || super::has_time(
                config,
                AFTER_PULL,
                now,
            ),
            (Stage::IdleStock, Event::Stock(stock)) => {
                let read: (i32, i32) = match stock {
                    Some(k) => (k.bait, k.free),
                    None => (UNREADABLE, UNREADABLE),
                };
                let what = self.judge_idle(store, mail, detour, read, now);
                self.can_go_on(what, config, now)
            },
            _ => true,
        }
    }

    /// One turn of a tick: what follows on an event.
    pub fn tick(
        &mut self,
        store: &mut Store,
        mail: &mut Mailbox,
        config: &Config,
        potions: &[Potion; 3],
        detour: bool,
        stage: Stage,
        event: Event,
        now: u64,
    ) -> (r: (Stage, Request))
        requires
            old(self).wf(),
            stage.wf(*old(self)),
            world(*old(self), old(store)@, old(mail)@).fits(config@, detour, stage, event@, now),
        ensures
            reached(
                world(*old(self), old(store)@, old(mail)@).stepped(
                    rules(config@, potions@, detour),
                    stage,
                    event@,
                    now,
                ),
                *final(self),
                final(store)@,
                final(mail)@,
                r,
            ),
            r.0.wf(*final(self)),
            final(self).wf(),
    {
        let ghost rules = rules(config@, potions@, detour);
        match (stage, event) {
            (Stage::Start, Event::Begin) => self.begin(store, mail, now),
            (Stage::Rod, Event::Rod(held)) => {
                Fishing::check_rod(store, held);
                self.read_stock(store, mail, now)
            },
            (Stage::Stock, Event::Stock(stock)) => {
                let _ = refresh_stock(store, stock);
                self.drink_potions(store, mail, now)
            },
            (Stage::Player { wanted }, Event::Player(there)) => if there {
                self.next_potion(store, mail, potions, 0, wanted, Ghost(rules))
            } else {
                self.look_for_bobber()
            },
            (Stage::Buff { index, wanted }, Event::Buff(on)) => match on {
                Some(false) => (Stage::Find { index, wanted }, Request::Find(potions[index].item)),
                _ => self.next_potion(store, mail, potions, index + 1, wanted, Ghost(rules)),
            },
            (Stage::Find { index, wanted }, Event::Found(found)) => match found {
                Some(slot) => (
                    Stage::Drink { index, wanted },
                    Request::Drink { slot, buff: potions[index].buff },
                ),
                None => self.next_potion(store, mail, potions, index + 1, wanted, Ghost(rules)),
            },
            (Stage::Drink { index, wanted }, Event::Drunk(ok)) => if ok {
                self.drank(store, mail, potions, index, wanted, Ghost(rules))
            } else {
                self.next_potion(store, mail, potions, index + 1, wanted, Ghost(rules))
            },
            (Stage::Drunk { index, wanted }, Event::Done) => self.next_potion(
                store,
                mail,
                potions,
                index + 1,
                wanted,
                Ghost(rules),
            ),
            (Stage::Bobber, Event::Bobber(seen)) => self.bobber_read(
                store,
                mail,
                detour,
                seen,
                now,
                Ghost(rules),
            ),
            (Stage::Mouse { bobber }, Event::Mouse(mouse)) => {
                self.remember_aim(mouse);
                self.look_at_bobber(store, mail, detour, bobber, now, Ghost(rules))
            },
            (Stage::Measured { rolled, what }, Event::Done) => self.settle(
                store,
                mail,
                rolled,
                what,
            ),
            (Stage::Crate { rolled }, Event::Crate(is_crate)) => self.landed(
                store,
                mail,
                config,
                rolled,
                is_crate,
                now,
                Ghost(rules),
            ),
            (Stage::Enemy { rolled, hooked }, Event::Enemy(name)) => match announce(
                store,
                rolled,
                hooked,
                name,
            ) {
                Some(a) => (Stage::Told { hooked }, Request::Tell(a)),
                None => (Stage::Average, Request::Average),
            },
            (Stage::Told { hooked }, Event::Done) => {
                if hooked {
                    self.rest(config, AFTER_PULL, now);
                }
                (Stage::Average, Request::Average)
            },
            (Stage::IdleStock, Event::Stock(stock)) => self.idle_stocked(
                store,
                mail,
                config,
                detour,
                stock,
                now,
                Ghost(rules),
            ),
            (Stage::Average, Event::Average(average)) => {
                self.publish(store, detour, average);
                (Stage::Over, Request::Done)
            },
            _ => (Stage::Over, Request::Done),
        }
    }
}

} // verus!
