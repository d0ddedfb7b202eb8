//! What a tick of the automaton does, event by event.

use vstd::prelude::*;

use crate::fishing::bite::{AnnouncementView, Bite};
use crate::fishing::idle::{Idle, Stock};
use crate::fishing::tick::{EventView, RequestView, Rules, Stage, Step, Wanted, World};
use crate::fishing::{Fishing, Stop};
use crate::config::ConfigView;
use crate::game::Bobber;
use crate::input::{Command, MailView};
use crate::overlay::state::{Mark, SharedView, Stats, StatusView};
use crate::single::Single;

verus! {

/// Whether fishing is switched on.
pub open spec fn is_on(store: Option<SharedView>) -> bool {
    store is Some && store->0.auto_fish
}

/// Whether the filter takes a catch.
pub open spec fn is_taken(store: Option<SharedView>, catch: i32) -> bool {
    match store {
        None => true,
        Some(s) => {
            ||| catch < 0 && s.pull_enemy_spawns
            ||| catch >= 0 && s.filter.dom().contains(catch) && s.filter[catch] == Mark::Allow
            ||| catch >= 0 && !s.whitelist_mode && !(s.filter.dom().contains(catch)
                && s.filter[catch] == Mark::Deny)
        },
    }
}

/// Whether something bites.
pub open spec fn is_biting(b: Bobber) -> bool {
    0x8000_0000 < b.ai1.bits <= 0xFF80_0000 && b.local_ai1.bits != 0 && b.local_ai1.bits
        != 0x8000_0000
}

// ---------------------------------------------------------------------------
// The beginning
// ---------------------------------------------------------------------------

/// What a tick asks for once the hand of the player needs no look: the stock every three
/// tenths of a second, then the potions every three seconds where they are to be drunk,
/// and then the bobber, where it was found last first.
pub open spec fn asks_in_turn(
    before: Fishing,
    store: Option<SharedView>,
    now: u64,
    t: Step,
    stock_done: bool,
) -> bool {
    let f = t.world.fishing;
    let stock_due = !stock_done && now >= before.last_stock + 300_000_000;
    let potions_due = now >= before.last_potion + 3_000_000_000;
    let drinks = store is Some && store->0.auto_potions;
    &&& t.stage is Stock <==> stock_due
    &&& t.stage is Player <==> !stock_due && potions_due && drinks
    &&& t.stage is Bobber <==> !stock_due && !(potions_due && drinks)
    &&& f.last_stock == if stock_due {
        now
    } else {
        before.last_stock
    }
    &&& f.last_potion == if !stock_due && potions_due {
        now
    } else {
        before.last_potion
    }
    &&& t.stage is Stock ==> t.request is Stock
    &&& t.stage is Player ==> t.request is Player
    &&& t.stage is Bobber ==> t.request == RequestView::Bobber(before.hint)
    &&& t.stage matches Stage::Player { wanted } ==> wanted.fishing == store->0.potions[0]
        && wanted.sonar == store->0.potions[1] && wanted.crates == store->0.potions[2]
}

/// A tick begins with a press that is overdue: after 1.2 seconds it is called off, and one
/// that was made is let go. Then the session: switching on forgets where to cast and why
/// it was stopped and starts the time, switching off forgets where to cast, and while it
/// is on the seconds run. Then the hand of the player is looked at where it is known
/// where to cast, or what is next in turn is asked for.
pub proof fn law_tick_begins(w: World, rules: Rules, now: u64)
    ensures
        ({
            let t = w.stepped(rules, Stage::Start, EventView::Begin, now);
            let f = w.fishing;
            let g = t.world.fishing;
            let on = is_on(w.store);
            let lost = f.click_sent is Some && w.mail.command != Command::Idle && now
                > f.click_sent->0 + 1_200_000_000;
            &&& t.world.store == w.store
            &&& lost ==> t.world.mail.command == Command::Idle
            &&& lost ==> t.world.mail.release == (w.mail.release || w.mail.command
                == Command::Release)
            &&& lost && w.mail.failures < u32::MAX ==> t.world.mail.failures == w.mail.failures + 1
            &&& lost ==> t.world.mail == (MailView {
                command: t.world.mail.command,
                release: t.world.mail.release,
                failures: t.world.mail.failures,
                ..w.mail
            })
            &&& !lost ==> t.world.mail == w.mail
            &&& g.click_sent == if lost || w.mail.command == Command::Idle {
                None
            } else {
                f.click_sent
            }
            &&& on && f.session_start is None ==> g.session_start == Some(now) && g.session_seconds
                == 0 && g.aim is None && g.wait_recast && g.stopped is None && g.stack_tries == 0
            &&& on && f.session_start is Some ==> g.session_start == f.session_start && g.aim
                == f.aim && g.wait_recast == f.wait_recast && g.stopped == f.stopped
                && g.stack_tries == f.stack_tries
            &&& on && f.session_start is Some && now >= f.session_start->0
                ==> g.session_seconds * 1_000_000_000 <= now - f.session_start->0
                < (g.session_seconds + 1) * 1_000_000_000
            &&& !on ==> g.session_start is None && g.session_seconds == f.session_seconds
                && g.stopped == f.stopped && g.stack_tries == f.stack_tries
            &&& !on && f.session_start is Some ==> g.aim is None && !g.wait_recast
            &&& !on && f.session_start is None ==> g.aim == f.aim && g.wait_recast == f.wait_recast
            &&& g == (Fishing {
                click_sent: g.click_sent,
                session_start: g.session_start,
                session_seconds: g.session_seconds,
                aim: g.aim,
                wait_recast: g.wait_recast,
                stopped: g.stopped,
                stack_tries: g.stack_tries,
                last_stock: g.last_stock,
                last_potion: g.last_potion,
                ..f
            })
            &&& on && g.aim is Some ==> t.stage is Rod && t.request is Rod && g.last_stock
                == f.last_stock && g.last_potion == f.last_potion
            &&& !(on && g.aim is Some) ==> asks_in_turn(f, w.store, now, t, false)
        }),
{
    reveal(World::begun);
    reveal(World::to_stock);
    reveal(World::to_potions);
}

/// A hand without a rod switches fishing off, as the player would; a hand that could not
/// be read, or that holds one, changes nothing.
pub proof fn law_rod_is_needed(w: World, rules: Rules, held: Option<bool>, now: u64)
    ensures
        ({
            let t = w.stepped(rules, Stage::Rod, EventView::Rod(held), now);
            &&& held == Some(false) && w.store is Some ==> t.world.store == Some(
                SharedView { auto_fish: false, dirty: true, ..w.store->0 },
            )
            &&& held != Some(false) || w.store is None ==> t.world.store == w.store
            &&& t.world.mail == w.mail
            &&& t.world.fishing == (Fishing {
                last_stock: t.world.fishing.last_stock,
                last_potion: t.world.fishing.last_potion,
                ..w.fishing
            })
            &&& asks_in_turn(w.fishing, w.store, now, t, false)
        }),
{
    reveal(World::to_stock);
    reveal(World::to_potions);
}

/// The stock is shown as it was read; without a player nothing is known of it.
pub open spec fn shows_stock(
    before: Option<SharedView>,
    stock: Option<Stock>,
    after: Option<SharedView>,
) -> bool {
    match (before, after) {
        (Some(s), Some(t)) => {
            &&& stock matches Some(k) ==> t.status.bait == k.bait && t.status.free_slots == k.free
                && t.status.potions_missing == k.missing@
            &&& stock is None ==> t.status.bait == -1 && t.status.free_slots == -1
                && t.status.potions_missing == seq![false, false, false]
            &&& t == (SharedView {
                status: StatusView {
                    bait: t.status.bait,
                    free_slots: t.status.free_slots,
                    potions_missing: t.status.potions_missing,
                    ..s.status
                },
                ..s
            })
        },
        (None, None) => true,
        _ => false,
    }
}

/// A reading of the stock is shown, and the tick goes on to the potions.
pub proof fn law_stock_is_shown(w: World, rules: Rules, stock: Option<Stock>, now: u64)
    ensures
        ({
            let t = w.stepped(rules, Stage::Stock, EventView::Stock(stock), now);
            &&& shows_stock(w.store, stock, t.world.store)
            &&& t.world.mail == w.mail
            &&& t.world.fishing == (Fishing {
                last_potion: t.world.fishing.last_potion,
                ..w.fishing
            })
            &&& asks_in_turn(w.fishing, w.store, now, t, true)
        }),
{
    reveal(World::to_potions);
}

// ---------------------------------------------------------------------------
// The potions
// ---------------------------------------------------------------------------

/// Whether a potion was selected: the first for fishing, the second for the sonar, the
/// third for crates.
pub open spec fn selected(wanted: Wanted, i: int) -> bool {
    ||| i == 0 && wanted.fishing
    ||| i == 1 && wanted.sonar
    ||| i == 2 && wanted.crates
}

/// The next potion from `from` on that was selected is asked for, by its own buff; where
/// there is none, the bobber is. Nothing else happens.
pub open spec fn goes_on_from(w: World, rules: Rules, wanted: Wanted, from: int, t: Step) -> bool {
    &&& t.world == w
    &&& (t.stage matches Stage::Buff { index, wanted: same } ==> {
        &&& same == wanted
        &&& from <= index < 3
        &&& selected(wanted, index as int)
        &&& forall|j: int| from <= j < index ==> !selected(wanted, j)
        &&& t.request == RequestView::Buff(rules.potions[index as int].buff)
    })
    &&& t.stage is Buff || t.stage is Bobber
    &&& t.stage is Bobber ==> t.request == RequestView::Bobber(w.fishing.hint)
    &&& t.stage is Bobber ==> forall|j: int| from <= j < 3 ==> !selected(wanted, j)
}

proof fn lemma_goes_on(w: World, rules: Rules, wanted: Wanted, from: int)
    requires
        0 <= from <= 3,
    ensures
        goes_on_from(w, rules, wanted, from, w.to_potion(rules, from, wanted)),
{
    reveal(World::to_potion);
    reveal_with_fuel(Wanted::next, 4);
}

/// The potions are looked after one by one, in their order. For each that was selected:
/// its own buff is asked for; where that is off, and only then, its own item is looked
/// for; where that is found, and only then, it is drunk from the slot where it was found,
/// with its own buff; where that works, and only then, it is counted and told of.
pub proof fn law_each_potion_is_its_own(
    w: World,
    rules: Rules,
    wanted: Wanted,
    index: usize,
    now: u64,
    on: Option<bool>,
    found: Option<i32>,
    ok: bool,
)
    requires
        index < 3,
    ensures
        goes_on_from(
            w,
            rules,
            wanted,
            0,
            w.stepped(rules, Stage::Player { wanted }, EventView::Player(true), now),
        ),
        ({
            let t = w.stepped(rules, Stage::Player { wanted }, EventView::Player(false), now);
            t.world == w && t.stage is Bobber && t.request == RequestView::Bobber(w.fishing.hint)
        }),
        ({
            let t = w.stepped(rules, Stage::Buff { index, wanted }, EventView::Buff(on), now);
            &&& on == Some(false) ==> t.world == w && t.stage == (Stage::Find { index, wanted })
                && t.request == RequestView::Find(rules.potions[index as int].item)
            &&& on != Some(false) ==> goes_on_from(w, rules, wanted, index + 1, t)
        }),
        ({
            let t = w.stepped(rules, Stage::Find { index, wanted }, EventView::Found(found), now);
            &&& found matches Some(slot) ==> t.world == w && t.stage == (Stage::Drink {
                index,
                wanted,
            }) && t.request == (RequestView::Drink {
                slot,
                buff: rules.potions[index as int].buff,
            })
            &&& found is None ==> goes_on_from(w, rules, wanted, index + 1, t)
        }),
        ({
            let t = w.stepped(rules, Stage::Drink { index, wanted }, EventView::Drunk(ok), now);
            let item = rules.potions[index as int].item;
            &&& !ok ==> goes_on_from(w, rules, wanted, index + 1, t)
            &&& ok ==> t.stage == (Stage::Drunk { index, wanted }) && t.world.fishing == w.fishing
                && t.world.mail == w.mail && t.request == RequestView::Tell(
                AnnouncementView::Potion {
                    item,
                    name: crate::fishing::bite::name_of(w.store, item),
                },
            )
            &&& ok && w.store is None ==> t.world.store is None
            &&& ok && w.store is Some && w.store->0.stats.potions < u32::MAX ==> t.world.store
                == Some(
                SharedView {
                    stats: Stats {
                        potions: (w.store->0.stats.potions + 1) as u32,
                        ..w.store->0.stats
                    },
                    ..w.store->0
                },
            )
        }),
        goes_on_from(
            w,
            rules,
            wanted,
            index + 1,
            w.stepped(rules, Stage::Drunk { index, wanted }, EventView::Done, now),
        ),
{
    reveal(World::drunk);
    lemma_goes_on(w, rules, wanted, 0);
    lemma_goes_on(w, rules, wanted, index + 1);
}

// ---------------------------------------------------------------------------
// The bobber
// ---------------------------------------------------------------------------

/// Shows whether the bobber is in the water and changes nothing else.
pub open spec fn shows_bobber(
    before: Option<SharedView>,
    cast: bool,
    after: Option<SharedView>,
) -> bool {
    match (before, after) {
        (Some(s), Some(t)) => {
            &&& t.status.bobber_cast == cast
            &&& t == (SharedView { status: StatusView { bobber_cast: cast, ..s.status }, ..s })
        },
        (None, None) => true,
        _ => false,
    }
}

/// What becomes of a look at a bobber in the water, whose catch is `catch`.
///
/// Nothing bites: the last bite is forgotten, and the wait for the next begins, if it has
/// not. A bite that was seen before changes nothing. A new one ends the wait, which is
/// measured, and is remembered. Where the filter leaves it, it is counted among those left
/// and no press is asked for. Where it is taken, fishing is on, no press is on its way, the
/// pause is over and somebody applies presses, one is asked for, wherever the cursor is,
/// and the pull is counted.
pub open spec fn looks(
    before: Fishing,
    store: Option<SharedView>,
    mail: MailView,
    detour: bool,
    b: Bobber,
    now: u64,
    t: Step,
) -> bool {
    let g = t.world.fishing;
    let catch = b.catch();
    let new = is_biting(b) && catch != before.last_bite;
    let left = new && !is_taken(store, catch);
    let ready = new && is_taken(store, catch) && is_on(store) && mail.command == Command::Idle
        && now >= before.next_action;
    let hooked = ready && detour;
    let measured = new && before.cast_at is Some;
    &&& t.world.store == store
    &&& !is_biting(b) ==> g.last_bite == 0
    &&& !is_biting(b) ==> g.cast_at == Some(
        if before.cast_at is Some {
            before.cast_at->0
        } else {
            now
        },
    )
    &&& is_biting(b) ==> g.last_bite == catch
    &&& new ==> g.cast_at is None
    &&& is_biting(b) && !new ==> g.cast_at == before.cast_at
    &&& g.bite_count == before.bite_count + if measured {
        1int
    } else {
        0
    }
    &&& g.skips == before.skips + if left {
        1int
    } else {
        0
    }
    &&& g.pulls == before.pulls + if hooked {
        1int
    } else {
        0
    }
    &&& g.click_sent == if hooked {
        Some(now)
    } else {
        before.click_sent
    }
    &&& g.warned_no_detour == (before.warned_no_detour || ready && !detour)
    &&& g == (Fishing {
        last_bite: g.last_bite,
        cast_at: g.cast_at,
        bite_count: g.bite_count,
        skips: g.skips,
        pulls: g.pulls,
        click_sent: g.click_sent,
        warned_no_detour: g.warned_no_detour,
        ..before
    })
    &&& hooked ==> t.world.mail.command == Command::Press && t.world.mail.aim_x == -1
        && t.world.mail.aim_y == -1
    &&& hooked ==> t.world.mail == (MailView {
        command: t.world.mail.command,
        aim_x: t.world.mail.aim_x,
        aim_y: t.world.mail.aim_y,
        ..mail
    })
    &&& !hooked ==> t.world.mail == mail
    &&& measured && now >= before.cast_at->0 ==> t.request == RequestView::Measure(
        (now - before.cast_at->0) as u64,
    )
    &&& measured ==> t.request is Measure && (t.stage matches Stage::Measured { rolled, what }
        && rolled == catch && (what is Skipped <==> left) && (what is Hooked <==> hooked))
    &&& !measured && hooked ==> t.stage == (Stage::Crate { rolled: catch }) && t.request
        == RequestView::Crate(catch)
    &&& !measured && left && catch < 0 && catch > i32::MIN ==> t.stage == (Stage::Enemy {
        rolled: catch,
        hooked: false,
    }) && t.request == RequestView::Enemy((-catch) as i32)
    &&& !measured && left && catch >= 0 ==> t.stage == (Stage::Told { hooked: false })
        && t.request == RequestView::Tell(
        AnnouncementView::Skipped {
            item: catch,
            name: crate::fishing::bite::name_of(store, catch),
            whitelist: store is Some && store->0.whitelist_mode,
        },
    )
    &&& !measured && !hooked && !left ==> t.stage is Average && t.request is Average
}

proof fn lemma_looks(w: World, rules: Rules, b: Bobber, now: u64)
    requires
        w.look_fits(rules.detour, b, now),
    ensures
        looks(
            w.fishing,
            w.store,
            w.mail,
            rules.detour,
            b,
            now,
            w.to_bite(rules, b, now),
        ),
{
    super::values::law_every_bite_is_noticed(b);
    reveal(World::to_bite);
    reveal(World::to_settle);
    reveal(World::to_tell);
    if w.store is Some {
        let s = w.store->0;
        if b.catch() < 0 {
            super::filter::law_enemies_heed_their_switch_alone(s, b.catch());
        } else {
            super::filter::law_marks_decide_on_items(s, b.catch());
        }
    }
}

/// What becomes of a bite: the same as before, left by the filter, fishing off, not yet,
/// nobody to press, or hooked; exactly one of them.
pub proof fn law_outcomes_of_a_bite(
    f: Fishing,
    store: Option<SharedView>,
    mail: MailView,
    detour: bool,
    rolled: i32,
    now: u64,
)
    ensures
        ({
            let what = f.bite(store, mail, detour, rolled, now);
            let new = rolled != f.last_bite;
            let taken = new && is_taken(store, rolled);
            let on = taken && is_on(store);
            let free = on && mail.command == Command::Idle && now >= f.next_action;
            &&& what is Known <==> !new
            &&& what is Skipped <==> new && !taken
            &&& what is Off <==> taken && !on
            &&& what is Waiting <==> on && !free
            &&& what is Unhooked <==> free && !detour
            &&& what is Hooked <==> free && detour
        }),
        ({
            let waited = f.wait(rolled, now);
            &&& waited is Some <==> rolled != f.last_bite && f.cast_at is Some
            &&& waited is Some && now >= f.cast_at->0 ==> waited->0 == now - f.cast_at->0
            &&& waited is Some && now < f.cast_at->0 ==> waited->0 == 0
        }),
{
    if store is Some {
        let s = store->0;
        if rolled < 0 {
            super::filter::law_enemies_heed_their_switch_alone(s, rolled);
        } else {
            super::filter::law_marks_decide_on_items(s, rolled);
        }
    }
}

/// A press is asked for at once where somebody applies presses, and is remembered; where
/// nobody does, only that is.
pub proof fn law_presses_are_remembered(f: Fishing, now: u64)
    ensures
        f.clicked(true, now) == (Fishing { click_sent: Some(now), ..f }),
        f.clicked(false, now) == (Fishing { warned_no_detour: true, ..f }),
        crate::fishing::elapsed(now, now) == 0,
        forall|later: u64|
            later >= now ==> #[trigger] crate::fishing::elapsed(now, later) == later - now,
{
}

/// A bobber in the water is shown and remembered. Before the first cast is known, and
/// unless a new cast is waited for, the cursor is asked for; otherwise the bobber is
/// looked at.
pub proof fn law_bobber_in_the_water(w: World, rules: Rules, b: Bobber, now: u64)
    requires
        w.fits(
            rules.config,
            rules.detour,
            Stage::Bobber,
            EventView::Bobber(Some(Some(b))),
            now,
        ),
    ensures
        ({
            let t = w.stepped(rules, Stage::Bobber, EventView::Bobber(Some(Some(b))), now);
            let learns = w.fishing.aim is None && !w.fishing.wait_recast;
            let f = Fishing { hint: Some(b.index), ..w.fishing };
            &&& shows_bobber(w.store, true, t.world.store)
            &&& learns ==> t.stage == (Stage::Mouse { bobber: b }) && t.request is Mouse
                && t.world.fishing == f && t.world.mail == w.mail
            &&& !learns ==> looks(f, t.world.store, w.mail, rules.detour, b, now, t)
        }),
{
    reveal(World::bobber_read);
    reveal(World::bobber_seen);
    let seen = World {
        fishing: Fishing { hint: Some(b.index), ..w.fishing },
        store: crate::fishing::tick::bobber_shown(w.store, true),
        ..w
    };
    if !(w.fishing.aim is None && !w.fishing.wait_recast) {
        assert(seen.look_fits(rules.detour, b, now));
        lemma_looks(seen, rules, b, now);
    }
}

/// Where the first cast of the player went is remembered exactly as the cursor was read,
/// where that is on the screen; otherwise nothing is remembered. Then the bobber is looked
/// at.
pub proof fn law_first_cast_is_remembered(
    w: World,
    rules: Rules,
    b: Bobber,
    x: i32,
    y: i32,
    now: u64,
)
    requires
        w.look_fits(rules.detour, b, now),
    ensures
        ({
            let t = w.stepped(
                rules,
                Stage::Mouse { bobber: b },
                EventView::Mouse(Some((x, y))),
                now,
            );
            &&& x >= 0 && y >= 0 ==> t.world.fishing.aim == Some((x, y))
            &&& x < 0 || y < 0 ==> t.world.fishing.aim == w.fishing.aim
            &&& looks(
                Fishing { aim: t.world.fishing.aim, ..w.fishing },
                w.store,
                w.mail,
                rules.detour,
                b,
                now,
                t,
            )
        }),
        ({
            let t = w.stepped(rules, Stage::Mouse { bobber: b }, EventView::Mouse(None), now);
            looks(w.fishing, w.store, w.mail, rules.detour, b, now, t)
        }),
{
    let aimed = World { fishing: w.fishing.aimed(Some((x, y))), ..w };
    let none = World { fishing: w.fishing.aimed(None), ..w };
    assert(aimed.look_fits(rules.detour, b, now));
    assert(none.look_fits(rules.detour, b, now));
    lemma_looks(aimed, rules, b, now);
    lemma_looks(none, rules, b, now);
}

/// Water without a bobber is shown, and ends the wait for a new cast. With fishing on, not
/// stopped, a place to cast to, no press on its way and the pause over, the stock is asked
/// for; otherwise nothing is. Water that could not be read changes nothing.
pub proof fn law_water_without_a_bobber(w: World, rules: Rules, now: u64)
    ensures
        ({
            let t = w.stepped(rules, Stage::Bobber, EventView::Bobber(Some(None)), now);
            let casts = is_on(w.store) && w.fishing.stopped is None && w.fishing.aim is Some
                && w.mail.command == Command::Idle && now >= w.fishing.next_action;
            &&& shows_bobber(w.store, false, t.world.store)
            &&& t.world.fishing == (Fishing { hint: None, wait_recast: false, ..w.fishing })
            &&& t.world.mail == w.mail
            &&& casts ==> t.stage is IdleStock && t.request is Stock
            &&& !casts ==> t.stage is Average && t.request is Average
        }),
        ({
            let t = w.stepped(rules, Stage::Bobber, EventView::Bobber(None), now);
            t.world == w && t.stage is Average && t.request is Average
        }),
{
    reveal(World::bobber_read);
    reveal(World::bobber_gone);
}

// ---------------------------------------------------------------------------
// After a bite
// ---------------------------------------------------------------------------

/// The next number of the generator, and nothing but it, makes the spread of a pause over
/// so many milliseconds: the pause ends that much and the least spread and the remainder
/// of the number by the width of the spread after `now`.
pub open spec fn pauses(before: Fishing, config: ConfigView, base: int, now: u64, after: Fishing) -> bool {
    let a = before.rng ^ (before.rng << 13);
    let b = a ^ (a >> 17);
    let x = b ^ (b << 5);
    let width = if config.jitter_max_ms > config.jitter_min_ms {
        config.jitter_max_ms - config.jitter_min_ms
    } else {
        1
    };
    &&& after.rng == x
    &&& after.next_action == now + (base + config.jitter_min_ms + x as int % width) * 1_000_000
    &&& after == (Fishing { rng: after.rng, next_action: after.next_action, ..before })
}

proof fn lemma_pauses(f: Fishing, config: ConfigView, base: u64, now: u64)
    requires
        crate::fishing::pause_fits(config, base, now),
    ensures
        pauses(f, config, base as int, now, f.resting(config, base, now)),
        f.pause(config, base) <= base + config.jitter_min_ms + crate::fishing::jitter_span(config)
            - 1,
{
    let span = crate::fishing::jitter_span(config);
    let x = crate::fishing::xorshift(f.rng) as int;
    vstd::arithmetic::div_mod::lemma_mod_bound(x, span);
}

/// Once the wait is measured, what became of the bite goes on as it would have without.
pub proof fn law_measuring_changes_nothing(
    w: World,
    rules: Rules,
    rolled: i32,
    what: Bite,
    now: u64,
)
    requires
        what is Skipped || what is Hooked ==> rolled > i32::MIN,
    ensures
        ({
            let t = w.stepped(rules, Stage::Measured { rolled, what }, EventView::Done, now);
            &&& t.world == w
            &&& what is Hooked ==> t.stage == (Stage::Crate { rolled }) && t.request
                == RequestView::Crate(rolled)
            &&& what is Skipped && rolled < 0 ==> t.stage == (Stage::Enemy {
                rolled,
                hooked: false,
            }) && t.request == RequestView::Enemy((-rolled) as i32)
            &&& what is Skipped && rolled >= 0 ==> t.stage == (Stage::Told { hooked: false })
                && t.request == RequestView::Tell(
                AnnouncementView::Skipped {
                    item: rolled,
                    name: crate::fishing::bite::name_of(w.store, rolled),
                    whitelist: w.store is Some && w.store->0.whitelist_mode,
                },
            )
            &&& !(what is Hooked) && !(what is Skipped) ==> t.stage is Average && t.request
                is Average
        }),
{
    reveal(World::to_settle);
    reveal(World::to_tell);
}

/// A crate is counted as one, anything else is not. Of an enemy its name is asked, of a
/// quest fish the player is told; with nothing to tell the pause after a pull begins at
/// once.
pub proof fn law_catch_is_landed(w: World, rules: Rules, rolled: i32, is_crate: bool, now: u64)
    requires
        rolled > i32::MIN,
        w.fits(
            rules.config,
            rules.detour,
            Stage::Crate { rolled },
            EventView::Crate(is_crate),
            now,
        ),
    ensures
        ({
            let t = w.stepped(rules, Stage::Crate { rolled }, EventView::Crate(is_crate), now);
            let f = Fishing {
                crates: (w.fishing.crates + if is_crate {
                    1int
                } else {
                    0
                }) as u32,
                ..w.fishing
            };
            let quest = w.store is Some && w.store->0.facts.dom().contains(rolled)
                && w.store->0.facts[rolled].quest;
            &&& t.world.fishing.crates == w.fishing.crates + if is_crate {
                1int
            } else {
                0
            }
            &&& t.world.store == w.store && t.world.mail == w.mail
            &&& rolled < 0 ==> t.world.fishing == f && t.stage == (Stage::Enemy {
                rolled,
                hooked: true,
            }) && t.request == RequestView::Enemy((-rolled) as i32)
            &&& rolled >= 0 && quest ==> t.world.fishing == f && t.stage == (Stage::Told {
                hooked: true,
            }) && t.request == RequestView::Tell(
                AnnouncementView::Quest {
                    item: rolled,
                    name: crate::fishing::bite::name_of(w.store, rolled),
                },
            )
            &&& rolled >= 0 && !quest ==> pauses(f, rules.config, 350, now, t.world.fishing)
                && t.stage is Average && t.request is Average
        }),
{
    reveal(World::landed);
    reveal(World::to_tell);
    if rolled >= 0 && crate::fishing::bite::told(w.store, rolled, true, None) is None {
        lemma_pauses(
            Fishing {
                crates: if is_crate {
                    (w.fishing.crates + 1) as u32
                } else {
                    w.fishing.crates
                },
                ..w.fishing
            },
            rules.config,
            350,
            now,
        );
    }
}

/// Of an enemy the player is told its name, or its number where the game has no name, and
/// whether it was hooked. After what was told of a pull the pause begins; after anything
/// else that was told, none does.
pub proof fn law_telling_ends_a_bite(
    w: World,
    rules: Rules,
    rolled: i32,
    hooked: bool,
    name: Option<Seq<char>>,
    now: u64,
)
    requires
        rolled < 0,
        hooked ==> crate::fishing::pause_fits(rules.config, 350, now),
    ensures
        ({
            let t = w.stepped(
                rules,
                Stage::Enemy { rolled, hooked },
                EventView::Enemy(name),
                now,
            );
            &&& t.world == w
            &&& t.stage == (Stage::Told { hooked })
            &&& t.request == RequestView::Tell(
                AnnouncementView::Spawn {
                    name: match name {
                        Some(s) => s,
                        None => "#"@ + crate::text::signed(-(rolled as int)),
                    },
                    hooked,
                },
            )
        }),
        ({
            let t = w.stepped(rules, Stage::Told { hooked }, EventView::Done, now);
            &&& t.stage is Average && t.request is Average
            &&& t.world.store == w.store && t.world.mail == w.mail
            &&& hooked ==> pauses(w.fishing, rules.config, 350, now, t.world.fishing)
            &&& !hooked ==> t.world.fishing == w.fishing
        }),
{
    reveal_strlit("#");
    assert("#"@ =~= seq!['#']);
    if hooked {
        lemma_pauses(w.fishing, rules.config, 350, now);
    }
}

// ---------------------------------------------------------------------------
// Casting
// ---------------------------------------------------------------------------

/// What an idle moment comes to, with that much bait and that many free slots.
///
/// Without bait the automaton stops; where it could not be read nothing happens. A full
/// inventory that is to be stacked is stacked first, up to three times in a row, with a
/// pause of 0.7 seconds; while that is on its way nothing happens, and after 1.2 seconds it
/// is called off; the fourth time the automaton stops. Otherwise the rod is cast to where
/// the first cast went, the cast is counted, and the pause while the bobber flies begins.
pub open spec fn idles(
    f: Fishing,
    store: Option<SharedView>,
    mail: MailView,
    config: ConfigView,
    detour: bool,
    bait: i32,
    free: i32,
    now: u64,
    g: Fishing,
    after: MailView,
) -> bool {
    let full = bait > 0 && free == 0 && store is Some && store->0.quick_stack;
    let waits = full && mail.quick_stack;
    let overdue = waits && f.stack_sent is Some && now > f.stack_sent->0 + 1_200_000_000;
    let stacks = full && !mail.quick_stack && f.stack_tries < 3;
    let gives_up = full && !mail.quick_stack && f.stack_tries >= 3;
    let casts = bait > 0 && !full && detour;
    &&& bait < 0 ==> g == f && after == mail
    &&& bait == 0 ==> g == (Fishing { stopped: Some(Stop::NoBait), ..f }) && after == mail
    &&& waits && !overdue ==> g == f && after == mail
    &&& overdue ==> g == (Fishing { stack_sent: None, ..f }) && after == (MailView {
        quick_stack: false,
        ..mail
    })
    &&& stacks ==> g.stack_tries == f.stack_tries + 1 && g.stack_sent == Some(now) && g.next_action
        == now + 700_000_000 && g.stopped == f.stopped
    &&& stacks ==> g == (Fishing {
        stack_tries: g.stack_tries,
        stack_sent: g.stack_sent,
        next_action: g.next_action,
        ..f
    }) && after == (MailView { quick_stack: true, ..mail })
    &&& gives_up ==> g.stopped == Some(Stop::NoChests) && g.stack_sent is None && g == (Fishing {
        stopped: g.stopped,
        stack_sent: None,
        stack_tries: g.stack_tries,
        ..f
    }) && after == mail
    &&& casts ==> after.command == Command::Press && f.aim == Some((after.aim_x, after.aim_y))
    &&& casts ==> after == (MailView {
        command: after.command,
        aim_x: after.aim_x,
        aim_y: after.aim_y,
        ..mail
    })
    &&& casts ==> g.casts == f.casts + 1 && g.click_sent == Some(now) && g.stack_tries == 0
    &&& casts ==> pauses(
        Fishing { casts: g.casts, click_sent: g.click_sent, stack_tries: 0, ..f },
        config,
        700,
        now,
        g,
    )
    &&& bait > 0 && !full && !detour ==> g == (Fishing {
        stack_tries: 0,
        warned_no_detour: true,
        ..f
    }) && after == mail
}

/// An idle moment comes to what it ought to, and the stock that was read for it is shown.
pub proof fn law_idle_moments(w: World, rules: Rules, stock: Option<Stock>, now: u64)
    requires
        w.fishing.wf(),
        w.fishing.stopped is None,
        w.fishing.aim is Some,
        w.fits(
            rules.config,
            rules.detour,
            Stage::IdleStock,
            EventView::Stock(stock),
            now,
        ),
    ensures
        ({
            let t = w.stepped(rules, Stage::IdleStock, EventView::Stock(stock), now);
            let (bait, free) = match stock {
                Some(k) => (k.bait as int, k.free as int),
                None => (-1int, -1int),
            };
            &&& shows_stock(w.store, stock, t.world.store)
            &&& t.stage is Average && t.request is Average
            &&& idles(
                Fishing { last_stock: now, ..w.fishing },
                w.store,
                w.mail,
                rules.config,
                rules.detour,
                bait as i32,
                free as i32,
                now,
                t.world.fishing,
                t.world.mail,
            )
        }),
{
    reveal(World::idle_stocked);
    let f = Fishing { last_stock: now, ..w.fishing };
    let store = crate::fishing::idle::restocked(w.store, stock);
    let (bait, free) = crate::fishing::idle::stocked(stock);
    let what = f.idle(store, w.mail, rules.detour, (bait, free), now);
    lemma_idles(f, store, w.mail, rules.config, rules.detour, bait, free, now);
    assert(what == w.fishing.idle(w.store, w.mail, rules.detour, (bait, free), now));
}

proof fn lemma_idles(
    f: Fishing,
    store: Option<SharedView>,
    mail: MailView,
    config: ConfigView,
    detour: bool,
    bait: i32,
    free: i32,
    now: u64,
)
    requires
        f.wf(),
        f.stopped is None,
        f.aim is Some,
        f.idle_fits(f.idle(store, mail, detour, (bait, free), now), config, now),
    ensures
        ({
            let what = f.idle(store, mail, detour, (bait, free), now);
            idles(
                f,
                store,
                mail,
                config,
                detour,
                bait,
                free,
                now,
                f.idled(what, config, now),
                f.idle_mail(what, mail),
            )
        }),
{
    let what = f.idle(store, mail, detour, (bait, free), now);
    if what is Cast {
        let g = Fishing {
            stack_tries: 0,
            casts: (f.casts + 1) as u32,
            ..f.clicked(true, now)
        };
        lemma_pauses(g, config, 700, now);
    }
}

/// What is decided of an idle moment is carried out: the outcome, the automaton and the
/// mailbox belong together.
pub proof fn law_idle_outcomes(
    f: Fishing,
    store: Option<SharedView>,
    mail: MailView,
    config: ConfigView,
    detour: bool,
    bait: i32,
    free: i32,
    now: u64,
)
    requires
        f.wf(),
        f.stopped is None,
        f.aim is Some,
        f.idle_fits(f.idle(store, mail, detour, (bait, free), now), config, now),
    ensures
        ({
            let what = f.idle(store, mail, detour, (bait, free), now);
            let g = f.idled(what, config, now);
            let after = f.idle_mail(what, mail);
            &&& idles(f, store, mail, config, detour, bait, free, now, g, after)
            &&& what is Cast <==> g.casts != f.casts
            &&& what is Cast <==> bait > 0 && detour && !(free == 0 && store is Some
                && store->0.quick_stack)
            &&& what is Uncast <==> bait > 0 && !detour && !(free == 0 && store is Some
                && store->0.quick_stack)
            &&& what is NoBait <==> g.stopped == Some(Stop::NoBait)
            &&& what is NoChests <==> g.stopped == Some(Stop::NoChests)
            &&& what is Stacking <==> after.quick_stack && !mail.quick_stack
            &&& what is Withdrawn <==> mail.quick_stack && !after.quick_stack
            &&& what is Unknown <==> bait < 0
        }),
{
    lemma_idles(f, store, mail, config, detour, bait, free, now);
}

/// Where the first cast of the player went is where the next cast goes: whatever is read
/// in between, as long as the automaton keeps the place, the cast is asked for there.
pub proof fn law_casts_follow_the_first(
    w: World,
    rules: Rules,
    b: Bobber,
    x: i32,
    y: i32,
    first: u64,
    later: World,
    stock: Stock,
    now: u64,
)
    requires
        x >= 0,
        y >= 0,
        w.look_fits(rules.detour, b, first),
        later.fishing.aim == w.stepped(
            rules,
            Stage::Mouse { bobber: b },
            EventView::Mouse(Some((x, y))),
            first,
        ).world.fishing.aim,
        later.fishing.wf(),
        later.fishing.stopped is None,
        rules.detour,
        stock.bait > 0,
        stock.free != 0,
        later.fits(
            rules.config,
            rules.detour,
            Stage::IdleStock,
            EventView::Stock(Some(stock)),
            now,
        ),
    ensures
        ({
            let t = later.stepped(rules, Stage::IdleStock, EventView::Stock(Some(stock)), now);
            &&& t.world.mail.command == Command::Press
            &&& t.world.mail.aim_x == x && t.world.mail.aim_y == y
            &&& t.world.fishing.casts == later.fishing.casts + 1
        }),
{
    law_first_cast_is_remembered(w, rules, b, x, y, first);
    law_idle_moments(later, rules, Some(stock), now);
}

// ---------------------------------------------------------------------------
// The end
// ---------------------------------------------------------------------------

/// A tick ends with the statistics: the seconds of the session, what was pulled, left and
/// counted as crates, the average wait, and the state of the automaton are shown, and
/// nothing else changes.
pub proof fn law_statistics_are_published(w: World, rules: Rules, average: Single, now: u64)
    ensures
        ({
            let t = w.stepped(rules, Stage::Average, EventView::Average(average), now);
            let f = w.fishing;
            &&& t.stage is Over && t.request is Done
            &&& t.world.fishing == f && t.world.mail == w.mail
            &&& w.store is None ==> t.world.store is None
            &&& w.store matches Some(s) ==> (t.world.store matches Some(p) && {
                &&& p.stats.seconds == f.session_seconds
                &&& p.stats.caught == f.pulls
                &&& p.stats.skipped == f.skips
                &&& p.stats.crates == f.crates
                &&& p.stats.average_bite == average
                &&& p.stats.potions == s.stats.potions
                &&& p.status.aim == f.aim
                &&& p.status.recast == f.wait_recast
                &&& p.status.fishing == f.line(s.auto_fish, rules.detour)
                &&& p == (SharedView {
                    stats: p.stats,
                    status: StatusView {
                        aim: p.status.aim,
                        recast: p.status.recast,
                        fishing: p.status.fishing,
                        ..s.status
                    },
                    ..s
                })
            })
        }),
{
}

/// The line on the state says why the automaton stopped, or else that it is off, or that
/// nobody presses, or that a new cast is waited for, or the first; or else how often it
/// cast, pulled and left something.
pub proof fn law_state_is_told(f: Fishing, on: bool, detour: bool)
    ensures
        ({
            let line = f.line(on, detour);
            let runs = f.stopped is None && on && detour;
            &&& f.stopped == Some(Stop::NoBait) ==> line == "стоп: "@ + "наживка кончилась"@
            &&& f.stopped == Some(Stop::NoChests) ==> line == "стоп: "@
                + "инвентарь полон, сундуков рядом нет"@
            &&& f.stopped is None && !on ==> line == "выключена"@
            &&& f.stopped is None && on && !detour ==> line == "детур не стоит — нажимать некому"@
            &&& runs && f.wait_recast ==> line == "поплавок уже был в воде — жду нового заброса"@
            &&& runs && !f.wait_recast && f.aim is None ==> line == "жду первый заброс вручную"@
            &&& runs && !f.wait_recast && f.aim is Some ==> line == "работает | забросов "@
                + crate::text::numeral(f.casts as nat, 10, 1) + " уловов "@
                + crate::text::numeral(f.pulls as nat, 10, 1) + " пропущено "@
                + crate::text::numeral(f.skips as nat, 10, 1)
        }),
{
}

/// An automaton that has done nothing yet knows no place to cast to, has counted nothing,
/// and looks after stock and potions at once.
pub proof fn law_automaton_starts_blank(now: u64)
    requires
        now >= 3_000_000_000,
    ensures
        ({
            let f = Fishing::initial(now);
            &&& f.aim is None && !f.wait_recast && f.stopped is None && f.hint is None
            &&& f.last_bite == 0 && f.stack_tries == 0 && f.session_seconds == 0
            &&& f.click_sent is None && f.stack_sent is None && f.session_start is None
            &&& f.cast_at is None && !f.warned_no_detour
            &&& f.bite_count == 0 && f.casts == 0 && f.pulls == 0 && f.skips == 0 && f.crates == 0
            &&& f.next_action == now && f.rng == 0x9E37_79B9
            &&& f.last_stock + 300_000_000 == now && f.last_potion + 3_000_000_000 == now
        }),
{
}

/// An event that nobody asked for ends the tick and changes nothing.
pub proof fn law_strange_events_change_nothing(
    w: World,
    rules: Rules,
    stage: Stage,
    event: EventView,
    now: u64,
)
    requires
        stage is Over || (event is Begin && !(stage is Start)) || (event is Rod && !(stage is Rod))
            || (event is Stock && !(stage is Stock) && !(stage is IdleStock)) || (event is Bobber
            && !(stage is Bobber)) || (event is Mouse && !(stage is Mouse)) || (event is Crate
            && !(stage is Crate)) || (event is Average && !(stage is Average)) || (event is Drunk
            && !(stage is Drink)) || (event is Buff && !(stage is Buff)) || (event is Found
            && !(stage is Find)) || (event is Player && !(stage is Player)) || (event is Enemy
            && !(stage is Enemy)),
    ensures
        ({
            let t = w.stepped(rules, stage, event, now);
            t.world == w && t.stage is Over && t.request is Done
        }),
{
}

} // verus!
