//! What holds of the automaton as a whole.

use vstd::prelude::*;

use super::bite::Bite;
use super::idle::Idle;
use super::tick::{EventView, Rules, Stage, Step, Wanted, World};
use super::{Fishing, Stop, CLICK_TIMEOUT, SECOND, STACK_TRIES};
use crate::config::ConfigView;
use crate::game::Bobber;
use crate::input::{Command, MailView};
use crate::overlay::state::SharedView;

verus! {

/// Switching on begins a session: its time starts from zero, whatever was known of
/// where to cast is forgotten, and a reason to have stopped is gone. Switching off
/// leaves the time as it stands.
pub proof fn law_sessions_begin_anew(f: Fishing, on: u64, later: u64, off: u64)
    requires
        f.session_start is None,
        on <= later,
    ensures
        ({
            let started = f.timed(true, on);
            let running = started.timed(true, later);
            let ended = running.timed(false, off);
            &&& started.session_seconds == 0
            &&& started.aim is None
            &&& started.wait_recast
            &&& started.stopped is None
            &&& started.stack_tries == 0
            &&& running.session_seconds == (later - on) / SECOND as int
            &&& ended.session_seconds == running.session_seconds
            &&& ended.timed(false, off) == ended
            &&& ended.aim is None
        }),
{
}

/// A bobber that was in the water when fishing was switched on teaches no place to
/// cast to, however long it stays there.
pub proof fn law_old_bobber_teaches_no_aim(w: World, rules: Rules, bobber: Bobber, now: u64)
    requires
        w.fishing.wait_recast,
    ensures
        !(w.bobber_seen(rules, bobber, now).request is Mouse),
        w.bobber_seen(rules, bobber, now).world.fishing.aim == w.fishing.aim,
        w.bobber_seen(rules, bobber, now).world.fishing.wait_recast,
        !w.bobber_gone(now).world.fishing.wait_recast,
{
    reveal(World::bobber_seen);
    reveal(World::bobber_gone);
    reveal(World::to_bite);
    reveal(World::to_settle);
    reveal(World::to_tell);
}

/// The hand of the player is looked at only once it is known where to cast; before
/// the first cast the player may hold anything.
pub proof fn law_rod_matters_after_the_first_cast(w: World, now: u64)
    ensures
        w.begun(now).stage is Rod ==> w.begun(now).world.fishing.aim is Some
            && super::switched_on(w.store),
        w.fishing.session_start is None ==> !(w.begun(now).stage is Rod),
{
    reveal(World::begun);
    reveal(World::to_stock);
    reveal(World::to_potions);
}

/// A bite that the filter does not let through costs nothing: no press is asked for,
/// and the bite is counted among those skipped.
pub proof fn law_skipping_is_free(w: World, rules: Rules, bobber: Bobber, now: u64)
    requires
        bobber.bites(),
        bobber.catch() != w.fishing.last_bite,
        !super::bite::passes(w.store, bobber.catch()),
        w.fishing.skips < u32::MAX,
    ensures
        w.to_bite(rules, bobber, now).world.mail == w.mail,
        w.to_bite(rules, bobber, now).world.fishing.skips == w.fishing.skips + 1,
        w.to_bite(rules, bobber, now).world.fishing.pulls == w.fishing.pulls,
        w.to_bite(rules, bobber, now).world.fishing.next_action == w.fishing.next_action,
{
    reveal(World::to_bite);
    reveal(World::to_settle);
    reveal(World::to_tell);
}

/// A bite is decided on once: as long as the same bite is seen, nothing more happens.
pub proof fn law_bite_is_decided_once(
    f: Fishing,
    store: Option<SharedView>,
    mail: MailView,
    detour: bool,
    rolled: i32,
    now: u64,
    later: u64,
)
    ensures
        ({
            let what = f.bite(store, mail, detour, rolled, now);
            let g = f.bitten(what, rolled, now);
            &&& forall|s: Option<SharedView>, m: MailView| #[trigger]
                g.bite(s, m, detour, rolled, later) == Bite::Known
            &&& g.bitten(Bite::Known, rolled, later) == g
            &&& g.wait(rolled, later) is None
        }),
{
}

/// A pull is asked for only with fishing switched on, the filter passed, no press on
/// its way, the pause over, and somebody to apply it.
pub proof fn law_pull_needs_leave(
    f: Fishing,
    store: Option<SharedView>,
    mail: MailView,
    detour: bool,
    rolled: i32,
    now: u64,
)
    ensures
        f.bite(store, mail, detour, rolled, now) is Hooked <==> rolled != f.last_bite
            && super::bite::passes(store, rolled) && super::switched_on(store) && !mail.busy()
            && now >= f.next_action && detour,
{
}

/// Every wait for a bite that is measured is counted, and none is measured twice.
pub proof fn law_waits_are_counted(f: Fishing, what: Bite, rolled: i32, now: u64)
    requires
        f.wait(rolled, now) is Some ==> f.bite_count < u32::MAX,
        what is Known <==> rolled == f.last_bite,
    ensures
        f.bitten(what, rolled, now).bite_count == f.bite_count + (if f.wait(rolled, now) is Some {
            1int
        } else {
            0
        }),
        f.wait(rolled, now) is Some ==> f.bitten(what, rolled, now).cast_at is None,
{
}

/// A pause lies between its base with the least spread and its base with the
/// greatest; where the greatest is not above the least, it is exactly the least.
pub proof fn law_pause_stays_in_its_spread(f: Fishing, config: ConfigView, base: u64)
    ensures
        f.pause(config, base) >= base + config.jitter_min_ms,
        config.jitter_max_ms > config.jitter_min_ms ==> f.pause(config, base) < base
            + config.jitter_max_ms,
        config.jitter_max_ms <= config.jitter_min_ms ==> f.pause(config, base) == base
            + config.jitter_min_ms,
{
    let span = super::jitter_span(config);
    let x = super::xorshift(f.rng) as int;
    vstd::arithmetic::div_mod::lemma_mod_bound(x, span);
}

/// A press that never came is called off: after its time the mailbox is free again
/// and the automaton goes on.
pub proof fn law_lost_press_is_called_off(f: Fishing, mail: MailView, sent: u64, now: u64)
    requires
        f.click_sent == Some(sent),
        super::elapsed(sent, now) > CLICK_TIMEOUT,
    ensures
        ({
            let after = if f.click_lost(mail, now) {
                mail.cancelled()
            } else {
                mail
            };
            !after.busy() && f.unstuck(mail, now).click_sent is None
        }),
{
}

/// The rod is cast exactly with bait at hand and somebody to apply the press, unless
/// a full inventory is to be stacked first; and only to the place that was learnt.
pub proof fn law_cast_needs_bait_and_room(
    f: Fishing,
    store: Option<SharedView>,
    mail: MailView,
    detour: bool,
    stock: (i32, i32),
    now: u64,
)
    ensures
        f.idle(store, mail, detour, stock, now) is Cast <==> stock.0 > 0 && detour && (stock.1
            != 0 || !super::idle::stacks(store)),
        ({
            let what = f.idle(store, mail, detour, stock, now);
            f.idle_mail(what, mail).command != mail.command ==> what is Cast && f.idle_mail(
                what,
                mail,
            ) == mail.clicking(f.aim)
        }),
{
}

/// A full inventory that is not to be stacked stops nothing: what becomes of the
/// moment is what would become of it with a slot free.
pub proof fn law_full_inventory_is_no_reason_to_stop(
    f: Fishing,
    store: Option<SharedView>,
    mail: MailView,
    detour: bool,
    bait: i32,
    free: i32,
    config: ConfigView,
    now: u64,
)
    requires
        bait > 0,
        free != 0,
        !super::idle::stacks(store),
    ensures
        ({
            let what = f.idle(store, mail, detour, (bait, 0), now);
            &&& what == f.idle(store, mail, detour, (bait, free), now)
            &&& what == if detour {
                Idle::Cast
            } else {
                Idle::Uncast
            }
            &&& f.idled(what, config, now).stopped == f.stopped
        }),
{
}

/// A full inventory that is to be stacked, with the last stacking done, is stacked
/// again or given up.
pub proof fn law_full_inventory_is_stacked_or_given_up(
    f: Fishing,
    store: Option<SharedView>,
    mail: MailView,
    detour: bool,
    bait: i32,
    now: u64,
)
    requires
        bait > 0,
        super::idle::stacks(store),
        !mail.quick_stack,
    ensures
        f.idle(store, mail, detour, (bait, 0), now) == (if f.stack_tries >= STACK_TRIES {
            Idle::NoChests
        } else {
            Idle::Stacking
        }),
{
}

/// A run of idle moments: the automaton at its end, and what became of each.
pub struct IdleRun {
    pub fishing: Fishing,
    pub outcomes: Seq<Idle>,
}

/// Idle moments at these times, as long as the automaton is not stopped: all with that
/// much bait and a full inventory, and with every stacking that was asked for done by the
/// next one, so that the mailbox is as it was.
pub open spec fn stacked_in_vain(
    f: Fishing,
    store: Option<SharedView>,
    mail: MailView,
    detour: bool,
    bait: i32,
    config: ConfigView,
    times: Seq<u64>,
) -> IdleRun
    decreases times.len(),
{
    if times.len() == 0 {
        IdleRun { fishing: f, outcomes: Seq::empty() }
    } else {
        let front = stacked_in_vain(f, store, mail, detour, bait, config, times.drop_last());
        if front.fishing.stopped is Some {
            front
        } else {
            let what = front.fishing.idle(store, mail, detour, (bait, 0), times.last());
            IdleRun {
                fishing: front.fishing.idled(what, config, times.last()),
                outcomes: front.outcomes.push(what),
            }
        }
    }
}

/// Stacking that frees nothing is tried exactly as often as it may be, each time with one
/// request and no press; the next idle moment asks for nothing and stops the automaton for
/// want of chests.
pub proof fn law_vain_stacking_stops(
    f: Fishing,
    store: Option<SharedView>,
    mail: MailView,
    detour: bool,
    bait: i32,
    config: ConfigView,
    times: Seq<u64>,
)
    requires
        f.stopped is None,
        f.stack_tries == 0,
        bait > 0,
        super::idle::stacks(store),
        !mail.quick_stack,
    ensures
        ({
            let run = stacked_in_vain(f, store, mail, detour, bait, config, times);
            &&& run.outcomes == Seq::new(
                if times.len() <= STACK_TRIES {
                    times.len()
                } else {
                    STACK_TRIES as nat + 1
                },
                |k: int|
                    if k < STACK_TRIES {
                        Idle::Stacking
                    } else {
                        Idle::NoChests
                    },
            )
            &&& times.len() <= STACK_TRIES ==> run.fishing.stopped is None
                && run.fishing.stack_tries == times.len()
            &&& times.len() > STACK_TRIES ==> run.fishing.stopped == Some(Stop::NoChests)
            &&& run.fishing.casts == f.casts
            &&& run.fishing.click_sent == f.click_sent
        }),
        f.idle_mail(Idle::Stacking, mail) == (MailView { quick_stack: true, ..mail }),
        f.idle_mail(Idle::NoChests, mail) == mail,
        Stop::NoChests.text() == "инвентарь полон, сундуков рядом нет"@,
    decreases times.len(),
{
    if times.len() > 0 {
        law_vain_stacking_stops(f, store, mail, detour, bait, config, times.drop_last());
    }
    let run = stacked_in_vain(f, store, mail, detour, bait, config, times);
    let n = if times.len() <= STACK_TRIES {
        times.len()
    } else {
        STACK_TRIES as nat + 1
    };
    assert(run.outcomes =~= Seq::new(
        n,
        |k: int|
            if k < STACK_TRIES {
                Idle::Stacking
            } else {
                Idle::NoChests
            },
    ));
}

/// A slot that is free, or whose number is not known, starts the count of vain stackings
/// again from zero.
pub proof fn law_free_slot_starts_the_count_again(
    f: Fishing,
    store: Option<SharedView>,
    mail: MailView,
    detour: bool,
    stock: (i32, i32),
    config: ConfigView,
    now: u64,
)
    requires
        stock.0 > 0,
        stock.1 != 0,
    ensures
        f.idled(f.idle(store, mail, detour, stock, now), config, now).stack_tries == 0,
{
}

/// Whether a place to cast to, where there is one, lies on the screen.
pub open spec fn aims_on_screen(f: Fishing) -> bool {
    f.aim matches Some(p) ==> p.0 >= 0 && p.1 >= 0
}

/// Whether a step leaves alone what most of a tick leaves alone, and has at most so
/// many turns to go.
spec fn calm(w: World, rules: Rules, step: Step, turns: int) -> bool {
    &&& step.world.fishing.aim == w.fishing.aim
    &&& step.world.fishing.stopped == w.fishing.stopped
    &&& step.world.fishing.casts == w.fishing.casts
    &&& press_allowed(w.mail, rules, step.world.mail)
    &&& !super::switched_on(w.store) ==> step.world.mail == w.mail && !(step.stage is IdleStock)
    &&& turns_left(step.stage) <= turns
}

/// Whether a mailbox holds a new press only where somebody applies it.
pub open spec fn press_allowed(before: MailView, rules: Rules, after: MailView) -> bool {
    after.command == before.command || after.command == Command::Idle || (rules.detour
        && after.command == Command::Press)
}

/// How many turns a tick can still take.
pub open spec fn turns_left(stage: Stage) -> int {
    match stage {
        Stage::Start => 30,
        Stage::Rod => 29,
        Stage::Stock => 28,
        Stage::Player { wanted } => 27,
        Stage::Buff { index, wanted } => 26 - 4 * index,
        Stage::Find { index, wanted } => 25 - 4 * index,
        Stage::Drink { index, wanted } => 24 - 4 * index,
        Stage::Drunk { index, wanted } => 23 - 4 * index,
        Stage::Bobber => 10,
        Stage::Mouse { bobber } => 9,
        Stage::Measured { rolled, what } => 8,
        Stage::Crate { rolled } => 7,
        Stage::Enemy { rolled, hooked } => 6,
        Stage::Told { hooked } => 5,
        Stage::IdleStock => 4,
        Stage::Average => 1,
        Stage::Over => 0,
    }
}

proof fn lemma_potion(w: World, rules: Rules, index: int, wanted: Wanted)
    requires
        0 <= index <= 3,
    ensures
        calm(
            w,
            rules,
            w.to_potion(rules, index, wanted),
            if index < 3 {
                26 - 4 * index
            } else {
                10
            },
        ),
{
    reveal(World::to_potion);
    reveal_with_fuel(Wanted::next, 5);
}

proof fn lemma_potions(w: World, rules: Rules, now: u64)
    ensures
        calm(w, rules, w.to_potions(now), 27),
{
    reveal(World::to_potions);
}

proof fn lemma_stock(w: World, rules: Rules, now: u64)
    ensures
        calm(w, rules, w.to_stock(now), 28),
{
    reveal(World::to_stock);
    lemma_potions(w, rules, now);
}

proof fn lemma_tell(w: World, rules: Rules, rolled: i32, hooked: bool)
    ensures
        calm(w, rules, w.to_tell(rolled, hooked), 6),
{
    reveal(World::to_tell);
}

proof fn lemma_settle(w: World, rules: Rules, rolled: i32, what: Bite)
    ensures
        calm(w, rules, w.to_settle(rolled, what), 7),
{
    reveal(World::to_settle);
    lemma_tell(w, rules, rolled, false);
}

proof fn lemma_bite(w: World, rules: Rules, bobber: Bobber, now: u64)
    ensures
        calm(w, rules, w.to_bite(rules, bobber, now), 8),
{
    reveal(World::to_bite);
    let rolled = bobber.catch();
    let what = w.fishing.bite(w.store, w.mail, rules.detour, rolled, now);
    let bitten = World {
        fishing: w.fishing.bitten(what, rolled, now),
        mail: if what is Hooked {
            w.mail.clicking(None)
        } else {
            w.mail
        },
        ..w
    };
    lemma_settle(bitten, rules, rolled, what);
    reveal(World::to_settle);
    reveal(World::to_tell);
}

proof fn lemma_bobber(w: World, rules: Rules, seen: Option<Option<Bobber>>, now: u64)
    ensures
        calm(w, rules, w.bobber_read(rules, seen, now), 9),
{
    reveal(World::bobber_read);
    reveal(World::bobber_seen);
    reveal(World::bobber_gone);
    if let Some(Some(bobber)) = seen {
        let shown = World {
            fishing: Fishing { hint: Some(bobber.index), ..w.fishing },
            store: super::tick::bobber_shown(w.store, true),
            ..w
        };
        lemma_bite(shown, rules, bobber, now);
    }
}

proof fn lemma_landed(w: World, rules: Rules, rolled: i32, is_crate: bool, now: u64)
    ensures
        calm(w, rules, w.landed(rules, rolled, is_crate, now), 6),
{
    reveal(World::landed);
    let counted = World {
        fishing: Fishing {
            crates: if is_crate {
                (w.fishing.crates + 1) as u32
            } else {
                w.fishing.crates
            },
            ..w.fishing
        },
        ..w
    };
    lemma_tell(counted, rules, rolled, true);
}

/// Between the beginning of a tick and the decision of an idle moment only a cursor
/// that was read changes where to cast, nothing stops the automaton, and nothing is
/// cast.
proof fn lemma_middle(w: World, rules: Rules, stage: Stage, event: EventView, now: u64)
    requires
        stage.wf(w.fishing),
        !(stage is Start),
        !(stage is Mouse),
        !(stage is IdleStock),
        !(stage is Over),
    ensures
        calm(w, rules, w.stepped(rules, stage, event, now), turns_left(stage) - 1),
{
    match (stage, event) {
        (Stage::Rod, EventView::Rod(held)) => {
            let v = World { store: super::tick::rod_seen(w.store, held), ..w };
            lemma_stock(v, rules, now);
        },
        (Stage::Stock, EventView::Stock(stock)) => {
            let v = World { store: super::idle::restocked(w.store, stock), ..w };
            lemma_potions(v, rules, now);
        },
        (Stage::Player { wanted }, EventView::Player(there)) => {
            lemma_potion(w, rules, 0, wanted);
        },
        (Stage::Buff { index, wanted }, EventView::Buff(on)) => {
            lemma_potion(w, rules, index + 1, wanted);
        },
        (Stage::Find { index, wanted }, EventView::Found(found)) => {
            lemma_potion(w, rules, index + 1, wanted);
        },
        (Stage::Drink { index, wanted }, EventView::Drunk(ok)) => {
            reveal(World::drunk);
            lemma_potion(w, rules, index + 1, wanted);
        },
        (Stage::Drunk { index, wanted }, EventView::Done) => {
            lemma_potion(w, rules, index + 1, wanted);
        },
        (Stage::Bobber, EventView::Bobber(seen)) => {
            lemma_bobber(w, rules, seen, now);
        },
        (Stage::Measured { rolled, what }, EventView::Done) => {
            lemma_settle(w, rules, rolled, what);
        },
        (Stage::Crate { rolled }, EventView::Crate(is_crate)) => {
            lemma_landed(w, rules, rolled, is_crate, now);
        },
        _ => {},
    }
}

/// The beginning of a tick.
proof fn lemma_begun(w: World, rules: Rules, now: u64)
    ensures
        ({
            let step = w.begun(now);
            let f = w.fishing.timed(super::switched_on(w.store), now);
            &&& step.world.fishing.aim == f.aim
            &&& step.world.fishing.stopped == f.stopped
            &&& step.world.fishing.casts == f.casts
            &&& press_allowed(w.mail, rules, step.world.mail)
            &&& !super::switched_on(w.store) ==> !(step.stage is IdleStock) && (step.world.mail
                == w.mail || step.world.mail == w.mail.cancelled())
            &&& turns_left(step.stage) <= 29
        }),
{
    reveal(World::begun);
    let fishing = w.fishing.unstuck(w.mail, now).timed(super::switched_on(w.store), now);
    let v = World {
        fishing,
        mail: if w.fishing.click_lost(w.mail, now) {
            w.mail.cancelled()
        } else {
            w.mail
        },
        ..w
    };
    lemma_stock(v, rules, now);
}

/// The place to cast to always lies on the screen.
pub proof fn law_aim_stays_on_screen(
    w: World,
    rules: Rules,
    stage: Stage,
    event: EventView,
    now: u64,
)
    requires
        stage.wf(w.fishing),
        aims_on_screen(w.fishing),
    ensures
        aims_on_screen(w.stepped(rules, stage, event, now).world.fishing),
{
    match (stage, event) {
        (Stage::Start, EventView::Begin) => {
            lemma_begun(w, rules, now);
        },
        (Stage::Mouse { bobber }, EventView::Mouse(mouse)) => {
            let v = World { fishing: w.fishing.aimed(mouse), ..w };
            lemma_bite(v, rules, bobber, now);
        },
        (Stage::IdleStock, EventView::Stock(stock)) => {
            reveal(World::idle_stocked);
        },
        _ => {
            if !(stage is Start || stage is Mouse || stage is IdleStock || stage is Over) {
                lemma_middle(w, rules, stage, event, now);
            }
        },
    }
}

/// An automaton that stopped by itself stays stopped, and casts nothing, until a new
/// session begins.
pub proof fn law_stopped_means_stopped(
    w: World,
    rules: Rules,
    stage: Stage,
    event: EventView,
    now: u64,
)
    requires
        w.fishing.stopped is Some,
        stage.wf(w.fishing),
        !(stage is Start && w.fishing.session_start is None && super::switched_on(w.store)),
    ensures
        w.stepped(rules, stage, event, now).world.fishing.stopped == w.fishing.stopped,
        w.stepped(rules, stage, event, now).world.fishing.casts == w.fishing.casts,
{
    match (stage, event) {
        (Stage::Start, EventView::Begin) => {
            lemma_begun(w, rules, now);
        },
        (Stage::Mouse { bobber }, EventView::Mouse(mouse)) => {
            let v = World { fishing: w.fishing.aimed(mouse), ..w };
            lemma_bite(v, rules, bobber, now);
        },
        _ => {
            if !(stage is Start || stage is Mouse || stage is IdleStock || stage is Over) {
                lemma_middle(w, rules, stage, event, now);
            }
        },
    }
}

/// A tick asks for a press only where somebody applies it; otherwise it at most calls
/// a lost one off.
pub proof fn law_presses_need_a_detour(
    w: World,
    rules: Rules,
    stage: Stage,
    event: EventView,
    now: u64,
)
    requires
        stage.wf(w.fishing),
    ensures
        press_allowed(w.mail, rules, w.stepped(rules, stage, event, now).world.mail),
{
    match (stage, event) {
        (Stage::Start, EventView::Begin) => {
            lemma_begun(w, rules, now);
        },
        (Stage::Mouse { bobber }, EventView::Mouse(mouse)) => {
            let v = World { fishing: w.fishing.aimed(mouse), ..w };
            lemma_bite(v, rules, bobber, now);
        },
        (Stage::IdleStock, EventView::Stock(stock)) => {
            reveal(World::idle_stocked);
        },
        _ => {
            if !(stage is Start || stage is Mouse || stage is IdleStock || stage is Over) {
                lemma_middle(w, rules, stage, event, now);
            }
        },
    }
}

/// With fishing switched off nothing is asked of the game thread: no press and no
/// stacking; at most a lost press is called off when a tick begins. A tick comes to the
/// stock of an idle moment, the one thing that is decided on that alone, only with
/// fishing switched on.
pub proof fn law_switched_off_asks_for_nothing(
    w: World,
    rules: Rules,
    stage: Stage,
    event: EventView,
    now: u64,
)
    requires
        stage.wf(w.fishing),
        !super::switched_on(w.store),
        !(stage is IdleStock),
    ensures
        ({
            let step = w.stepped(rules, stage, event, now);
            &&& !(step.stage is IdleStock)
            &&& step.world.mail == w.mail || (stage is Start && step.world.mail
                == w.mail.cancelled())
        }),
{
    match (stage, event) {
        (Stage::Start, EventView::Begin) => {
            lemma_begun(w, rules, now);
        },
        (Stage::Mouse { bobber }, EventView::Mouse(mouse)) => {
            let v = World { fishing: w.fishing.aimed(mouse), ..w };
            lemma_bite(v, rules, bobber, now);
        },
        _ => {
            if !(stage is Start || stage is Mouse || stage is Over) {
                lemma_middle(w, rules, stage, event, now);
            }
        },
    }
}

/// Every tick comes to an end, whatever is read from the game: each turn leaves fewer
/// to go, and none is left once the tick is over.
pub proof fn law_tick_ends(w: World, rules: Rules, stage: Stage, event: EventView, now: u64)
    requires
        stage.wf(w.fishing),
    ensures
        turns_left(stage) >= 0,
        !(stage is Over) ==> turns_left(w.stepped(rules, stage, event, now).stage) < turns_left(
            stage,
        ),
{
    match (stage, event) {
        (Stage::Start, EventView::Begin) => {
            lemma_begun(w, rules, now);
        },
        (Stage::Mouse { bobber }, EventView::Mouse(mouse)) => {
            let v = World { fishing: w.fishing.aimed(mouse), ..w };
            lemma_bite(v, rules, bobber, now);
        },
        (Stage::IdleStock, EventView::Stock(stock)) => {
            reveal(World::idle_stocked);
        },
        _ => {
            if !(stage is Start || stage is Mouse || stage is IdleStock || stage is Over) {
                lemma_middle(w, rules, stage, event, now);
            }
        },
    }
}

} // verus!
