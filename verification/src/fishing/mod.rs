//! The fishing automaton.
//!
//! It decides on the worker; the press itself is applied by the game thread. Where
//! to cast is learnt from the first cast that the player makes by hand.
//!
//! All times are nanoseconds of a clock that never goes back.

use vstd::prelude::*;

pub mod bite;
pub mod idle;
pub mod laws;
pub mod tick;

use crate::config::{Config, ConfigView};
use crate::input::{self, MailView, Mailbox};
use crate::overlay::state::{SharedView, Store};
use crate::overlay::ui::{self, Switch};
use crate::text;

verus! {

/// The pause after a pull before the rod is cast again, in milliseconds.
pub const AFTER_PULL: u64 = 350;

/// The pause after a cast while the bobber flies, in milliseconds.
pub const AFTER_CAST: u64 = 700;

/// The pause after a stacking, in milliseconds: the game needs a frame for it.
pub const AFTER_STACK: u64 = 700;

/// How many stackings in a row may free no slot before there is nowhere to stack.
pub const STACK_TRIES: u32 = 3;

/// How long a press may take before it counts as lost.
pub const CLICK_TIMEOUT: u64 = 1_200_000_000;

/// How often bait and slots are read.
pub const STOCK_INTERVAL: u64 = 300_000_000;

/// How often the buffs of potions are looked at.
pub const POTION_INTERVAL: u64 = 3_000_000_000;

/// Nanoseconds in a millisecond.
pub const MILLISECOND: u64 = 1_000_000;

/// Nanoseconds in a second.
pub const SECOND: u64 = 1_000_000_000;

/// Why the automaton stopped by itself.
#[derive(Debug, Clone, Copy, PartialEq, Eq, Structural)]
pub enum Stop {
    NoBait,
    /// The inventory is full and stacking it frees nothing.
    NoChests,
}

impl Stop {
    pub open spec fn text(self) -> Seq<char> {
        match self {
            Stop::NoBait => "наживка кончилась"@,
            Stop::NoChests => "инвентарь полон, сундуков рядом нет"@,
        }
    }

    /// The reason as the player reads it.
    pub fn reason(&self) -> (r: &'static str)
        ensures
            r@ == self.text(),
    {
        match self {
            Stop::NoBait => "наживка кончилась",
            Stop::NoChests => "инвентарь полон, сундуков рядом нет",
        }
    }
}

/// The automaton.
#[derive(Debug, Clone, Copy)]
pub struct Fishing {
    /// Where the first cast went, on the screen.
    pub aim: Option<(i32, i32)>,
    /// A new cast is waited for: the bobber that may be in the water was cast before
    /// the automaton was switched on, and the cursor has moved since.
    pub wait_recast: bool,
    /// Nothing is pressed before this time.
    pub next_action: u64,
    /// Where the bobber was found last.
    pub hint: Option<i32>,
    /// The bite that was seen last; 0 for none.
    pub last_bite: i32,
    pub stopped: Option<Stop>,
    pub rng: u32,
    pub click_sent: Option<u64>,
    pub last_stock: u64,
    pub last_potion: u64,
    pub warned_no_detour: bool,
    /// How many stackings in a row freed no slot.
    pub stack_tries: u32,
    pub stack_sent: Option<u64>,
    /// When the automaton was switched on; the time of the statistics runs from then.
    pub session_start: Option<u64>,
    pub session_seconds: u64,
    /// When the bobber went into the water.
    pub cast_at: Option<u64>,
    /// How many times from a cast to a bite were measured.
    pub bite_count: u32,
    pub casts: u32,
    pub pulls: u32,
    pub skips: u32,
    pub crates: u32,
}

/// How long ago `at` was.
pub open spec fn elapsed(at: u64, now: u64) -> int {
    if now >= at {
        now - at
    } else {
        0
    }
}

pub(crate) fn since(at: u64, now: u64) -> (r: u64)
    ensures
        r == elapsed(at, now),
{
    if now >= at {
        now - at
    } else {
        0
    }
}

/// The next number of a xorshift generator.
pub open spec fn xorshift(x: u32) -> u32 {
    let a = x ^ (x << 13);
    let b = a ^ (a >> 17);
    b ^ (b << 5)
}

/// How many values the spread of the pauses takes; at least one.
pub open spec fn jitter_span(config: ConfigView) -> int {
    if config.jitter_max_ms > config.jitter_min_ms {
        config.jitter_max_ms - config.jitter_min_ms
    } else {
        1
    }
}

/// Whether a pause over `base` that begins at `now` ends within the range of the clock,
/// however long the spread makes it.
pub open spec fn pause_fits(config: ConfigView, base: u64, now: u64) -> bool {
    now + (base + config.jitter_min_ms + jitter_span(config) - 1) * MILLISECOND <= u64::MAX
}

/// Whether a pause over `base` that begins at `now` ends within the range of the clock,
/// however long the spread makes it.
pub fn has_time(config: &Config, base: u64, now: u64) -> (r: bool)
    ensures
        r == pause_fits(config@, base, now),
{
    let span: u64 = if config.jitter_max_ms > config.jitter_min_ms {
        config.jitter_max_ms - config.jitter_min_ms
    } else {
        1
    };
    let pause: u128 = base as u128 + config.jitter_min_ms as u128 + (span - 1) as u128;
    now as u128 + pause * 1_000_000 <= u64::MAX as u128
}

/// Whether fishing is switched on; it is not where the state cannot be reached.
pub open spec fn switched_on(store: Option<SharedView>) -> bool {
    match store {
        Some(s) => s.auto_fish,
        None => false,
    }
}

/// Whether fishing is switched on.
pub fn enabled(store: &mut Store) -> (r: bool)
    ensures
        r == switched_on(old(store)@),
        final(store)@ == old(store)@,
{
    match store.open() {
        Some(s) => s.auto_fish,
        None => false,
    }
}

/// The shared state after the main switch was turned.
pub open spec fn toggled(store: Option<SharedView>) -> Option<SharedView> {
    match store {
        Some(s) => Some(crate::overlay::ui::turned(s, Switch::AutoFish)),
        None => None,
    }
}

impl Fishing {
    /// Turns the main switch, as a click on it does.
    pub fn toggle(store: &mut Store)
        ensures
            final(store)@ == toggled(old(store)@),
    {
        if let Some(shared) = store.open() {
            ui::turn(shared, Switch::AutoFish);
        }
    }

    /// What every operation keeps: the generator never runs dry, and the count of
    /// vain stackings goes beyond its limit only by the one that stops the automaton.
    pub open spec fn wf(self) -> bool {
        &&& self.rng != 0
        &&& self.stack_tries <= STACK_TRIES || (self.stack_tries == STACK_TRIES + 1
            && self.stopped is Some)
    }

    pub open spec fn initial(now: u64) -> Fishing {
        Fishing {
            aim: None,
            wait_recast: false,
            next_action: now,
            hint: None,
            last_bite: 0,
            stopped: None,
            rng: 0x9E37_79B9,
            click_sent: None,
            last_stock: (now - STOCK_INTERVAL) as u64,
            last_potion: (now - POTION_INTERVAL) as u64,
            warned_no_detour: false,
            stack_tries: 0,
            stack_sent: None,
            session_start: None,
            session_seconds: 0,
            cast_at: None,
            bite_count: 0,
            casts: 0,
            pulls: 0,
            skips: 0,
            crates: 0,
        }
    }

    /// An automaton that has not done anything yet. Stock and potions are due.
    pub fn new(now: u64) -> (r: Fishing)
        requires
            now >= POTION_INTERVAL,
        ensures
            r == Fishing::initial(now),
            r.wf(),
    {
        Fishing {
            aim: None,
            wait_recast: false,
            next_action: now,
            hint: None,
            last_bite: 0,
            stopped: None,
            rng: 0x9E37_79B9,
            click_sent: None,
            last_stock: now - STOCK_INTERVAL,
            last_potion: now - POTION_INTERVAL,
            warned_no_detour: false,
            stack_tries: 0,
            stack_sent: None,
            session_start: None,
            session_seconds: 0,
            cast_at: None,
            bite_count: 0,
            casts: 0,
            pulls: 0,
            skips: 0,
            crates: 0,
        }
    }

    // -----------------------------------------------------------------------
    // The session
    // -----------------------------------------------------------------------

    /// The automaton with the time of its session brought up to `now`.
    pub open spec fn timed(self, enabled: bool, now: u64) -> Fishing {
        match (enabled, self.session_start) {
            (true, None) => Fishing {
                session_start: Some(now),
                session_seconds: 0,
                aim: None,
                wait_recast: true,
                stopped: None,
                stack_tries: 0,
                ..self
            },
            (true, Some(start)) => Fishing {
                session_seconds: (elapsed(start, now) / SECOND as int) as u64,
                ..self
            },
            (false, Some(_)) => Fishing {
                session_start: None,
                aim: None,
                wait_recast: false,
                ..self
            },
            (false, None) => self,
        }
    }

    /// Keeps the time of the session: it runs from the moment fishing is switched on,
    /// stands while it is off, and begins anew with the next session.
    ///
    /// A new session forgets where to cast, so that a bad first cast does not stay
    /// forever, and asks for a new cast: a bobber may already be in the water, and
    /// the cursor is where the switch is.
    pub fn track_session(&mut self, enabled: bool, now: u64)
        requires
            old(self).wf(),
        ensures
            *final(self) == old(self).timed(enabled, now),
            final(self).wf(),
    {
        match (enabled, self.session_start) {
            (true, None) => {
                self.session_start = Some(now);
                self.session_seconds = 0;
                self.aim = None;
                self.wait_recast = true;
                self.stopped = None;
                self.stack_tries = 0;
            },
            (true, Some(start)) => {
                self.session_seconds = since(start, now) / SECOND;
            },
            (false, Some(_)) => {
                self.session_start = None;
                self.aim = None;
                self.wait_recast = false;
            },
            (false, None) => {},
        }
    }

    // -----------------------------------------------------------------------
    // The status line
    // -----------------------------------------------------------------------

    /// The line that tells the player what the automaton does.
    pub open spec fn line(self, enabled: bool, detour: bool) -> Seq<char> {
        match self.stopped {
            Some(stop) => "стоп: "@ + stop.text(),
            None => if !enabled {
                "выключена"@
            } else if !detour {
                "детур не стоит — нажимать некому"@
            } else if self.wait_recast {
                "поплавок уже был в воде — жду нового заброса"@
            } else if self.aim is None {
                "жду первый заброс вручную"@
            } else {
                "работает | забросов "@ + text::decimal(self.casts as nat) + " уловов "@
                    + text::decimal(self.pulls as nat) + " пропущено "@ + text::decimal(
                    self.skips as nat,
                )
            },
        }
    }

    /// The status for the log and the panel.
    pub fn status(&self, enabled: bool, detour: bool) -> (r: String)
        ensures
            r@ == self.line(enabled, detour),
    {
        if let Some(stop) = &self.stopped {
            let mut out = text::owned("стоп: ");
            out.append(stop.reason());
            return out;
        }
        if !enabled {
            return text::owned("выключена");
        }
        if !detour {
            return text::owned("детур не стоит — нажимать некому");
        }
        if self.wait_recast {
            return text::owned("поплавок уже был в воде — жду нового заброса");
        }
        if self.aim.is_none() {
            return text::owned("жду первый заброс вручную");
        }
        let mut out = text::owned("работает | забросов ");
        text::push_numeral(&mut out, self.casts as u64, 10, 1);
        out.append(" уловов ");
        text::push_numeral(&mut out, self.pulls as u64, 10, 1);
        out.append(" пропущено ");
        text::push_numeral(&mut out, self.skips as u64, 10, 1);
        out
    }

    // -----------------------------------------------------------------------
    // Pauses and presses
    // -----------------------------------------------------------------------

    /// The milliseconds of the next pause over `base`.
    pub open spec fn pause(self, config: ConfigView, base: u64) -> int {
        base + config.jitter_min_ms + xorshift(self.rng) as int % jitter_span(config)
    }

    /// The automaton after a pause was set that begins at `now`.
    pub open spec fn resting(self, config: ConfigView, base: u64, now: u64) -> Fishing {
        Fishing {
            rng: xorshift(self.rng),
            next_action: (now + self.pause(config, base) * MILLISECOND) as u64,
            ..self
        }
    }

    /// A pause of `base` milliseconds and a spread, so that presses do not come like
    /// clockwork.
    pub fn jitter(&mut self, config: &Config, base: u64) -> (r: u64)
        requires
            old(self).wf(),
            base + config@.jitter_min_ms + jitter_span(config@) - 1 <= u64::MAX,
        ensures
            r == old(self).pause(config@, base),
            *final(self) == (Fishing { rng: xorshift(old(self).rng), ..*old(self) }),
            final(self).wf(),
    {
        proof {
            law_xorshift_never_dries(self.rng);
        }
        self.rng = self.rng ^ (self.rng << 13);
        self.rng = self.rng ^ (self.rng >> 17);
        self.rng = self.rng ^ (self.rng << 5);
        let span: u64 = if config.jitter_max_ms > config.jitter_min_ms {
            config.jitter_max_ms - config.jitter_min_ms
        } else {
            1
        };
        let extra: u64 = config.jitter_min_ms + (self.rng as u64) % span;
        base + extra
    }

    /// Sets the time before which nothing is pressed.
    pub(crate) fn rest(&mut self, config: &Config, base: u64, now: u64)
        requires
            old(self).wf(),
            pause_fits(config@, base, now),
        ensures
            *final(self) == old(self).resting(config@, base, now),
            final(self).wf(),
    {
        let pause: u64 = self.jitter(config, base);
        self.next_action = now + pause * MILLISECOND;
    }

    /// The automaton and the mailbox after a press was asked for.
    pub open spec fn clicked(self, detour: bool, now: u64) -> Fishing {
        if detour {
            Fishing { click_sent: Some(now), ..self }
        } else {
            Fishing { warned_no_detour: true, ..self }
        }
    }

    /// Asks for a press. Without a detour nobody would apply it.
    pub fn click(
        &mut self,
        mail: &mut Mailbox,
        detour: bool,
        aim: Option<(i32, i32)>,
        now: u64,
    ) -> (r: bool)
        requires
            old(self).wf(),
        ensures
            r == detour,
            *final(self) == old(self).clicked(detour, now),
            final(mail)@ == (if detour {
                old(mail)@.clicking(aim)
            } else {
                old(mail)@
            }),
            final(self).wf(),
    {
        if !detour {
            self.warned_no_detour = true;
            return false;
        }
        input::request_click(mail, aim);
        self.click_sent = Some(now);
        true
    }

    /// Whether a press was asked for too long ago and never applied.
    pub open spec fn click_lost(self, mail: MailView, now: u64) -> bool {
        match self.click_sent {
            Some(sent) => mail.busy() && elapsed(sent, now) > CLICK_TIMEOUT,
            None => false,
        }
    }

    /// The automaton with a press forgotten that is over or lost.
    pub open spec fn unstuck(self, mail: MailView, now: u64) -> Fishing {
        if self.click_sent is Some && (!mail.busy() || self.click_lost(mail, now)) {
            Fishing { click_sent: None, ..self }
        } else {
            self
        }
    }

    /// Calls a lost press off: the mailbox would stay busy forever otherwise, and
    /// the automaton would stand.
    pub fn drop_stale_click(&mut self, mail: &mut Mailbox, now: u64)
        requires
            old(self).wf(),
        ensures
            *final(self) == old(self).unstuck(old(mail)@, now),
            final(mail)@ == (if old(self).click_lost(old(mail)@, now) {
                old(mail)@.cancelled()
            } else {
                old(mail)@
            }),
            final(self).wf(),
    {
        let sent: u64 = match self.click_sent {
            Some(sent) => sent,
            None => {
                return ;
            },
        };
        if !input::busy(mail) {
            self.click_sent = None;
            return ;
        }
        if since(sent, now) > CLICK_TIMEOUT {
            input::cancel(mail);
            self.click_sent = None;
        }
    }
}

/// A generator that is not at zero never gets there.
pub proof fn law_xorshift_never_dries(x: u32)
    requires
        x != 0,
    ensures
        xorshift(x) != 0,
{
    assert(({
        let a = x ^ (x << 13);
        let b = a ^ (a >> 17);
        b ^ (b << 5)
    }) != 0) by (bit_vector)
        requires
            x != 0,
    ;
}

} // verus!
