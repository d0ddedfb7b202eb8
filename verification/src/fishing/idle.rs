//! What the automaton does while no bobber is in the water.

use vstd::prelude::*;

use super::{since, Fishing, Stop, AFTER_CAST, AFTER_STACK, CLICK_TIMEOUT, MILLISECOND, STACK_TRIES};
use crate::config::{Config, ConfigView};
use crate::input::{self, MailView, Mailbox};
use crate::overlay::state::{SharedView, StatusView, Store};

verus! {

/// What the inventory holds for fishing. A negative number was not readable.
#[derive(Debug, Clone, Copy)]
pub struct Stock {
    pub bait: i32,
    pub free: i32,
    /// Which of the three potions have run out.
    pub missing: [bool; 3],
}

/// What became of an idle moment.
#[derive(Debug, Clone, Copy, PartialEq, Eq, Structural)]
pub enum Idle {
    /// The bait could not be read.
    Unknown,
    /// The bait has run out; the automaton stops.
    NoBait,
    /// A stacking is on its way.
    Pending,
    /// A stacking that never came was called off.
    Withdrawn,
    /// Stacking frees nothing; the automaton stops.
    NoChests,
    /// A stacking was asked for.
    Stacking,
    /// Nobody would apply the press.
    Uncast,
    Cast,
}

/// Whether a full inventory is to be stacked; it is not where the state cannot be
/// reached.
pub open spec fn stacks(store: Option<SharedView>) -> bool {
    match store {
        Some(s) => s.quick_stack,
        None => false,
    }
}

/// The shared state with a reading of the stock in it. Without a player nothing is
/// known.
pub open spec fn restocked(store: Option<SharedView>, stock: Option<Stock>) -> Option<SharedView> {
    match store {
        Some(s) => Some(
            SharedView {
                status: StatusView {
                    bait: stocked(stock).0,
                    free_slots: stocked(stock).1,
                    potions_missing: match stock {
                        Some(k) => k.missing@,
                        None => seq![false, false, false],
                    },
                    ..s.status
                },
                ..s
            },
        ),
        None => None,
    }
}

/// Not readable.
pub const UNREADABLE: i32 = -1;

/// Bait and free slots of a reading.
pub open spec fn stocked(stock: Option<Stock>) -> (i32, i32) {
    match stock {
        Some(k) => (k.bait, k.free),
        None => (UNREADABLE, UNREADABLE),
    }
}

/// Puts a reading of the stock into the shared state and hands back bait and free
/// slots. There is none without a player.
pub fn refresh_stock(store: &mut Store, stock: Option<Stock>) -> (r: (i32, i32))
    ensures
        r == stocked(stock),
        final(store)@ == restocked(old(store)@, stock),
{
    let (bait, free, missing) = match stock {
        Some(k) => (k.bait, k.free, k.missing),
        None => (UNREADABLE, UNREADABLE, [false, false, false]),
    };
    if let Some(s) = store.open() {
        s.status.bait = bait;
        s.status.free_slots = free;
        s.status.potions_missing = missing;
        assert(stock is None ==> s.status.potions_missing@ =~= seq![false, false, false]);
    }
    (bait, free)
}

impl Fishing {
    /// Whether the rod may be cast as far as is known without a look at the stock.
    pub open spec fn may_cast(self, store: Option<SharedView>, mail: MailView, now: u64) -> bool {
        super::switched_on(store) && self.stopped is None && self.aim is Some && !mail.busy() && now
            >= self.next_action
    }

    /// Whether the rod may be cast as far as is known without a look at the stock.
    pub fn idle_ready(&self, store: &mut Store, mail: &Mailbox, now: u64) -> (r: bool)
        ensures
            r == self.may_cast(old(store)@, mail@, now),
            final(store)@ == old(store)@,
    {
        super::enabled(store) && self.stopped.is_none() && self.aim.is_some() && !input::busy(mail)
            && now >= self.next_action
    }

    /// Whether the stacking that was asked for is overdue.
    pub open spec fn stack_lost(self, now: u64) -> bool {
        match self.stack_sent {
            Some(at) => super::elapsed(at, now) > CLICK_TIMEOUT,
            None => false,
        }
    }

    /// What becomes of an idle moment with that much bait and that many free slots.
    pub open spec fn idle(
        self,
        store: Option<SharedView>,
        mail: MailView,
        detour: bool,
        stock: (i32, i32),
        now: u64,
    ) -> Idle {
        if stock.0 < 0 {
            Idle::Unknown
        } else if stock.0 == 0 {
            Idle::NoBait
        } else if stock.1 == 0 && stacks(store) {
            if mail.quick_stack {
                if self.stack_lost(now) {
                    Idle::Withdrawn
                } else {
                    Idle::Pending
                }
            } else if self.stack_tries >= STACK_TRIES {
                Idle::NoChests
            } else {
                Idle::Stacking
            }
        } else if !detour {
            Idle::Uncast
        } else {
            Idle::Cast
        }
    }

    /// The automaton after an idle moment of which `what` became.
    pub open spec fn idled(self, what: Idle, config: ConfigView, now: u64) -> Fishing {
        match what {
            Idle::Unknown => self,
            Idle::NoBait => Fishing { stopped: Some(Stop::NoBait), ..self },
            Idle::Pending => self,
            Idle::Withdrawn => Fishing { stack_sent: None, ..self },
            Idle::NoChests => Fishing {
                stack_sent: None,
                stack_tries: (self.stack_tries + 1) as u32,
                stopped: Some(Stop::NoChests),
                ..self
            },
            Idle::Stacking => Fishing {
                stack_sent: Some(now),
                stack_tries: (self.stack_tries + 1) as u32,
                next_action: (now + AFTER_STACK * MILLISECOND) as u64,
                ..self
            },
            Idle::Uncast => Fishing { stack_tries: 0, ..self.clicked(false, now) },
            Idle::Cast => Fishing {
                stack_tries: 0,
                casts: (self.casts + 1) as u32,
                ..self.clicked(true, now)
            }.resting(config, AFTER_CAST, now),
        }
    }

    /// The mailbox after an idle moment of which `what` became.
    pub open spec fn idle_mail(self, what: Idle, mail: MailView) -> MailView {
        match what {
            Idle::Withdrawn => MailView { quick_stack: false, ..mail },
            Idle::Stacking => MailView { quick_stack: true, ..mail },
            Idle::Cast => mail.clicking(self.aim),
            _ => mail,
        }
    }

    /// Whether what an idle moment of which `what` becomes counts up can be counted, and
    /// its pause ends within the range of the clock.
    pub open spec fn idle_fits(self, what: Idle, config: ConfigView, now: u64) -> bool {
        match what {
            Idle::Stacking => now + AFTER_STACK * MILLISECOND <= u64::MAX,
            Idle::Cast => self.casts < u32::MAX && super::pause_fits(config, AFTER_CAST, now),
            _ => true,
        }
    }

    /// Whether what an idle moment of which `what` becomes counts up can be counted, and
    /// its pause ends within the range of the clock.
    pub fn can_go_on(&self, what: Idle, config: &Config, now: u64) -> (r: bool)
        ensures
            r == self.idle_fits(what, config@, now),
    {
        match what {
            Idle::Stacking => now <= u64::MAX - AFTER_STACK * MILLISECOND,
            Idle::Cast => self.casts < u32::MAX && super::has_time(config, AFTER_CAST, now),
            _ => true,
        }
    }

    /// What becomes of an idle moment with that much bait and that many free slots.
    pub fn judge_idle(
        &self,
        store: &mut Store,
        mail: &Mailbox,
        detour: bool,
        stock: (i32, i32),
        now: u64,
    ) -> (r: Idle)
        ensures
            r == self.idle(old(store)@, mail@, detour, stock, now),
            final(store)@ == old(store)@,
    {
        let (bait, free) = stock;
        let quick_stack: bool = match store.open() {
            Some(s) => s.quick_stack,
            None => false,
        };
        if bait < 0 {
            Idle::Unknown
        } else if bait == 0 {
            Idle::NoBait
        } else if free == 0 && quick_stack {
            if input::quick_stack_pending(mail) {
                match self.stack_sent {
                    Some(at) if since(at, now) > CLICK_TIMEOUT => Idle::Withdrawn,
                    _ => Idle::Pending,
                }
            } else if self.stack_tries >= STACK_TRIES {
                Idle::NoChests
            } else {
                Idle::Stacking
            }
        } else if !detour {
            Idle::Uncast
        } else {
            Idle::Cast
        }
    }

    /// Casts the rod, or says why not. A full inventory is stacked first, as often as
    /// that may be tried: whatever is caught would be lost otherwise. Where it is not
    /// to be stacked, fishing simply goes on.
    pub fn on_idle(
        &mut self,
        store: &mut Store,
        mail: &mut Mailbox,
        config: &Config,
        detour: bool,
        stock: (i32, i32),
        now: u64,
    ) -> (r: Idle)
        requires
            old(self).wf(),
            old(self).stopped is None,
            old(self).aim is Some,
            old(self).idle_fits(
                old(self).idle(old(store)@, old(mail)@, detour, stock, now),
                config@,
                now,
            ),
        ensures
            r == old(self).idle(old(store)@, old(mail)@, detour, stock, now),
            *final(self) == old(self).idled(r, config@, now),
            final(mail)@ == old(self).idle_mail(r, old(mail)@),
            final(store)@ == old(store)@,
            final(self).wf(),
    {
        let what = self.judge_idle(store, mail, detour, stock, now);
        match what {
            Idle::NoBait => {
                self.stopped = Some(Stop::NoBait);
            },
            Idle::Withdrawn => {
                input::cancel_quick_stack(mail);
                self.stack_sent = None;
            },
            Idle::NoChests => {
                self.stack_sent = None;
                self.stack_tries = self.stack_tries + 1;
                self.stopped = Some(Stop::NoChests);
            },
            Idle::Stacking => {
                self.stack_tries = self.stack_tries + 1;
                input::request_quick_stack(mail);
                self.stack_sent = Some(now);
                self.next_action = now + AFTER_STACK * MILLISECOND;
            },
            Idle::Uncast => {
                self.stack_tries = 0;
                let _ = self.click(mail, false, None, now);
            },
            Idle::Cast => {
                self.stack_tries = 0;
                let aim = self.aim;
                let _ = self.click(mail, true, aim, now);
                self.casts = self.casts + 1;
                self.rest(config, AFTER_CAST, now);
            },
            _ => {},
        }
        what
    }
}

} // verus!
