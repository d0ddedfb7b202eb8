//! Where a tick of the game begins, and how long it lasts in the background.

use vstd::prelude::*;

use super::{count, MailView, Mailbox};

verus! {

/// After so many calls in a row that do not come from the owner of the tick, the
/// caller becomes its owner.
pub const TICK_REARM: u32 = 64;

/// The time that one tick takes, in nanoseconds: sixty of them in a second.
pub const TICK_PERIOD: u64 = 16_667_000;

/// Counts ticks by the player whose turn it is. Players come in the same order in
/// every tick, so a tick begins where its first player comes again.
#[derive(Debug, Clone, Copy, PartialEq, Eq, Structural)]
pub struct TickClock {
    pub tick: u32,
    /// The player with whom a tick begins; 0 for none.
    pub owner: usize,
    /// How many calls in a row came from others.
    pub misses: u32,
}

impl TickClock {
    /// Whether a call from `this` begins a tick.
    pub open spec fn begins(self, this: usize) -> bool {
        self.owner == this || self.owner == 0 || self.misses >= TICK_REARM
    }

    /// The clock after a call from `this`.
    pub open spec fn after(self, this: usize) -> TickClock {
        if self.begins(this) {
            TickClock { tick: super::counted(self.tick), owner: this, misses: 0 }
        } else {
            TickClock { misses: (self.misses + 1) as u32, ..self }
        }
    }

    /// The clock after `n` calls in a row from `this`.
    pub open spec fn after_many(self, this: usize, n: nat) -> TickClock
        decreases n,
    {
        if n == 0 {
            self
        } else {
            self.after_many(this, (n - 1) as nat).after(this)
        }
    }
}

/// The number of the tick in which `this` calls.
pub fn tick_of(clock: &mut TickClock, this: usize) -> (r: u32)
    ensures
        *final(clock) == old(clock).after(this),
        r == final(clock).tick,
{
    if clock.owner == this || clock.owner == 0 || clock.misses >= TICK_REARM {
        clock.owner = this;
        clock.misses = 0;
        clock.tick = count(clock.tick);
    } else {
        // The same tick, only another player.
        clock.misses = clock.misses + 1;
    }
    clock.tick
}

/// Where there is one player, every call is a tick of its own; another player's
/// call falls into the tick of the owner.
pub proof fn law_tick_follows_its_owner(clock: TickClock, this: usize)
    ensures
        clock.owner == this ==> clock.after(this).tick == super::counted(clock.tick),
        clock.owner != this && clock.owner != 0 && clock.misses < TICK_REARM
            ==> clock.after(this).tick == clock.tick && clock.after(this).owner == clock.owner,
{
}

/// The border never freezes: when the owner is gone, a player who goes on calling
/// owns the tick after at most one call more than the limit of misses.
pub proof fn law_tick_rearms(clock: TickClock, this: usize)
    ensures
        clock.after_many(this, (TICK_REARM + 1) as nat).owner == this,
{
    lemma_rearm(clock, this, (TICK_REARM + 1) as nat);
}

proof fn lemma_rearm(clock: TickClock, this: usize, n: nat)
    ensures
        ({
            let c = clock.after_many(this, n);
            ||| c.owner == this
            ||| n == 0 && c == clock
            ||| clock.misses + n <= TICK_REARM && c.misses == clock.misses + n
        }),
    decreases n,
{
    if n > 0 {
        lemma_rearm(clock, this, (n - 1) as nat);
    }
}

/// Keeps a game whose window is not in front at its usual pace: it draws nothing
/// then, and nothing else would slow it down.
#[derive(Debug, Clone, Copy)]
pub struct Pacer {
    /// The last tick and the time up to which it was held.
    pub mark: Option<(u32, u64)>,
    /// The timer of the system has been made fine enough to sleep for a tick.
    pub raised: bool,
}

/// What the pace asks of the system, in this order.
#[derive(Debug, Clone, Copy, PartialEq, Eq, Structural)]
pub struct Pace {
    pub raise: bool,
    pub lower: bool,
    /// How long to sleep, in nanoseconds.
    pub sleep: u64,
}

impl Pacer {
    /// The time up to which the last tick was held.
    pub open spec fn reached(self) -> int {
        match self.mark {
            Some(m) => m.1 as int,
            None => 0,
        }
    }

    /// Whether `tick`, seen at `now`, comes before its time.
    pub open spec fn early(self, tick: u32, now: u64) -> bool {
        match self.mark {
            Some(m) => m.0 != tick && now < m.1 + TICK_PERIOD,
            None => false,
        }
    }

    /// The pacer after `tick`, seen at `now`. A tick that was early counts from the
    /// time that was its due, so that lateness does not add up.
    pub open spec fn paced(self, tick: u32, now: u64) -> Pacer {
        Pacer {
            mark: match self.mark {
                Some(m) => if m.0 == tick {
                    Some(m)
                } else if now < m.1 + TICK_PERIOD {
                    Some((tick, (m.1 + TICK_PERIOD) as u64))
                } else {
                    Some((tick, now))
                },
                None => Some((tick, now)),
            },
            raised: true,
        }
    }

    /// What the pace asks for at `tick`, seen at `now`.
    pub open spec fn pace(self, tick: u32, now: u64) -> Pace {
        Pace {
            raise: !self.raised,
            lower: false,
            sleep: if self.early(tick, now) {
                (self.reached() + TICK_PERIOD - now) as u64
            } else {
                0
            },
        }
    }
}

impl Pacer {
    /// Whether the clock has not gone back, and the time at which `tick` is due lies within
    /// its range.
    pub open spec fn due_fits(self, tick: u32, now: u64) -> bool {
        self.mark matches Some(m) ==> m.1 <= now && (m.0 == tick || m.1 + TICK_PERIOD <= u64::MAX)
    }

    /// Whether the clock has not gone back, and the time at which `tick` is due lies within
    /// its range.
    pub fn has_time(&self, tick: u32, now: u64) -> (r: bool)
        ensures
            r == self.due_fits(tick, now),
    {
        match self.mark {
            Some((last, at)) => at <= now && (last == tick || at <= u64::MAX - TICK_PERIOD),
            None => true,
        }
    }
}

/// Holds a tick of a game in the background up to its time.
pub fn pace(pacer: &mut Pacer, tick: u32, now: u64) -> (r: Pace)
    requires
        old(pacer).due_fits(tick, now),
    ensures
        *final(pacer) == old(pacer).paced(tick, now),
        r == old(pacer).pace(tick, now),
{
    let raise: bool = !pacer.raised;
    pacer.raised = true;
    let mut sleep: u64 = 0;
    match pacer.mark {
        Some((last, at)) => {
            // The same tick, only another player: no second sleep.
            if last != tick {
                let due: u64 = at + TICK_PERIOD;
                if now < due {
                    sleep = due - now;
                    pacer.mark = Some((tick, due));
                } else {
                    pacer.mark = Some((tick, now));
                }
            }
        },
        None => {
            pacer.mark = Some((tick, now));
        },
    }
    Pace { raise, lower: false, sleep }
}

impl Pacer {
    /// The pacer of a game in the foreground, and what it asks for.
    pub open spec fn idled(self) -> (Pacer, Pace) {
        (
            Pacer { mark: None, raised: false },
            Pace { raise: false, lower: self.raised, sleep: 0 },
        )
    }

    /// The pacer that is given up, and whether the timer goes back to what it was.
    pub open spec fn ended(self) -> (Pacer, bool) {
        (Pacer { raised: false, ..self }, self.raised)
    }
}

/// The window is in front again: nothing is held, and the timer of the system goes
/// back to what it was.
pub fn pace_idle(pacer: &mut Pacer) -> (r: Pace)
    ensures
        (*final(pacer), r) == old(pacer).idled(),
        *final(pacer) == (Pacer { mark: None, raised: false }),
        r == (Pace { raise: false, lower: old(pacer).raised, sleep: 0 }),
{
    let lower: bool = pacer.raised;
    pacer.mark = None;
    pacer.raised = false;
    Pace { raise: false, lower, sleep: 0 }
}

/// Nobody will say any more whether the window is in front: the pace is given up.
/// Says whether the timer of the system has to go back to what it was.
pub fn shutdown(mail: &mut Mailbox, pacer: &mut Pacer) -> (r: bool)
    ensures
        final(mail)@ == (MailView { inactive: false, ..old(mail)@ }),
        *final(pacer) == (Pacer { raised: false, ..*old(pacer) }),
        r == old(pacer).raised,
        (*final(pacer), r) == old(pacer).ended(),
{
    mail.inactive = false;
    let lower: bool = pacer.raised;
    pacer.raised = false;
    lower
}

/// No sleep is longer than a tick, another player of the same tick never sleeps,
/// and the tick that was held ends exactly where its predecessor left it due.
pub proof fn law_sleep_is_at_most_a_tick(pacer: Pacer, tick: u32, now: u64)
    requires
        pacer.reached() <= now,
    ensures
        pacer.pace(tick, now).sleep <= TICK_PERIOD,
        pacer.mark is Some && (pacer.mark->0).0 == tick ==> pacer.pace(tick, now).sleep == 0,
        pacer.early(tick, now) ==> now + pacer.pace(tick, now).sleep == pacer.reached()
            + TICK_PERIOD,
{
}

/// The pacer after a run of ticks, each with the time at which it was seen.
pub open spec fn paced_through(pacer: Pacer, ticks: Seq<(u32, u64)>) -> Pacer
    decreases ticks.len(),
{
    if ticks.len() == 0 {
        pacer
    } else {
        paced_through(pacer, ticks.drop_last()).paced(ticks.last().0, ticks.last().1)
    }
}

/// A game in the background runs at most as fast as in the foreground: `n` ticks,
/// no two neighbours the same, take at least `n` periods.
pub proof fn law_background_keeps_the_pace(pacer: Pacer, ticks: Seq<(u32, u64)>)
    requires
        pacer.mark is Some,
        ticks.len() > 0 ==> ticks[0].0 != (pacer.mark->0).0,
        forall|i: int| 0 < i < ticks.len() ==> #[trigger] ticks[i].0 != ticks[i - 1].0,
        forall|i: int| 0 <= i < ticks.len() ==> #[trigger] ticks[i].1 + TICK_PERIOD <= u64::MAX,
        pacer.reached() + ticks.len() * TICK_PERIOD <= u64::MAX,
        forall|i: int|
            0 <= i < ticks.len() ==> paced_through(pacer, ticks.take(i)).reached()
                <= #[trigger] ticks[i].1,
    ensures
        paced_through(pacer, ticks).reached() >= pacer.reached() + ticks.len() * TICK_PERIOD,
    decreases ticks.len(),
{
    if ticks.len() > 0 {
        let front = ticks.drop_last();
        assert(forall|i: int| 0 <= i < front.len() ==> front[i] == ticks[i]);
        assert(forall|i: int| 0 <= i < front.len() ==> front.take(i) =~= ticks.take(i));
        law_background_keeps_the_pace(pacer, front);
        let p = paced_through(pacer, front);
        assert(ticks.take(ticks.len() - 1) =~= front);
        if front.len() > 0 {
            assert(paced_through(pacer, front) == paced_through(pacer, front.drop_last()).paced(
                front.last().0,
                front.last().1,
            ));
            assert((p.mark->0).0 == front.last().0);
            assert(ticks[ticks.len() - 1].0 != ticks[ticks.len() - 2].0);
        }
        assert(p.mark is Some && (p.mark->0).0 != ticks.last().0);
        assert(p.reached() <= ticks.last().1);
    }
}

} // verus!
