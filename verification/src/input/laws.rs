//! What holds of whole visits of the game thread.

use vstd::prelude::*;

use super::pace::{Pacer, TickClock, TICK_REARM};
use super::visit::{
    self, ActionView, Event, GameThread, Order, Stage, STEP_AIM, STEP_CLICK, STEP_END,
    STEP_RELEASE,
};
use super::{Command, MailView};

verus! {

/// How a visit goes on the side of the game.
pub struct Answers {
    /// There is a way into the game.
    pub handles: bool,
    /// The button can be pressed.
    pub pressed: bool,
    /// The stacking works.
    pub stacked: bool,
}

/// A visit as a whole: the mailbox and the thread at its end, and what was done.
pub struct Visit {
    pub mail: MailView,
    pub game: GameThread,
    pub deeds: Seq<ActionView>,
}

/// The event that an action brings back.
pub open spec fn answer(action: ActionView, answers: Answers) -> Event {
    match action {
        ActionView::Pace(_) => Event::Paced,
        ActionView::Handles => Event::Handles(answers.handles),
        ActionView::Stack => Event::Reply(answers.stacked),
        ActionView::Press => Event::Reply(answers.pressed),
        _ => Event::Reply(true),
    }
}

/// Turn after turn up to the return, at most `limit` deeds.
pub open spec fn visit_from(
    mail: MailView,
    game: GameThread,
    event: Event,
    answers: Answers,
    limit: nat,
) -> Visit
    decreases limit,
{
    let t = visit::turn(mail, game, event);
    if limit == 0 || t.action is Return {
        Visit { mail: t.mail, game: t.game, deeds: Seq::empty() }
    } else {
        let rest = visit_from(
            t.mail,
            t.game,
            answer(t.action, answers),
            answers,
            (limit - 1) as nat,
        );
        Visit { deeds: seq![t.action] + rest.deeds, ..rest }
    }
}

/// A whole visit with the player `this`. No visit does more than eight deeds.
pub open spec fn visit(
    mail: MailView,
    game: GameThread,
    this: usize,
    now: u64,
    answers: Answers,
) -> Visit {
    visit_from(mail, game, Event::Enter { this, now }, answers, 9)
}

/// The deed with which every visit begins.
pub open spec fn opening(mail: MailView, game: GameThread, this: usize, now: u64) -> ActionView {
    visit::turn(mail, game, Event::Enter { this, now }).action
}

/// A visit that finds no request touches nothing of the game: it keeps the pace and
/// is counted, and that is all.
pub proof fn law_idle_visit_leaves_the_game_alone(
    mail: MailView,
    game: GameThread,
    this: usize,
    now: u64,
    answers: Answers,
)
    requires
        mail.order(0).empty(),
    ensures
        visit(mail, game, this, now, answers).deeds == seq![opening(mail, game, this, now)],
        visit(mail, game, this, now, answers).mail == (MailView {
            fired: super::counted(mail.fired),
            ..mail
        }),
{
    reveal_with_fuel(visit_from, 3);
    assert(visit(mail, game, this, now, answers).deeds =~= seq![opening(mail, game, this, now)]);
}

/// A second call within one tick, from another player, changes nothing: a press and
/// its release never fall together.
pub proof fn law_one_tick_is_served_once(
    mail: MailView,
    game: GameThread,
    this: usize,
    now: u64,
    answers: Answers,
)
    requires
        answers.handles,
        game.clock.after(this).tick == game.last_tick,
        !mail.order(0).empty(),
    ensures
        visit(mail, game, this, now, answers).deeds == seq![
            opening(mail, game, this, now),
            ActionView::Handles,
        ],
        visit(mail, game, this, now, answers).mail == (MailView {
            fired: super::counted(mail.fired),
            ..mail
        }),
        visit(mail, game, this, now, answers).game.clock == game.clock.after(this),
        visit(mail, game, this, now, answers).game.last_tick == game.last_tick,
{
    reveal_with_fuel(visit_from, 4);
    assert(visit(mail, game, this, now, answers).deeds =~= seq![
        opening(mail, game, this, now),
        ActionView::Handles,
    ]);
}

/// Without a way into the game every request is dropped but the sound, nothing is
/// done, and the press no longer counts as on its way.
pub proof fn law_no_handles_drop_the_requests(
    mail: MailView,
    game: GameThread,
    this: usize,
    now: u64,
    answers: Answers,
)
    requires
        !answers.handles,
        !mail.order(0).empty(),
    ensures
        visit(mail, game, this, now, answers).deeds == seq![
            opening(mail, game, this, now),
            ActionView::Handles,
        ],
        visit(mail, game, this, now, answers).mail == (MailView {
            fired: super::counted(mail.fired),
            ..mail
        }).given_up(),
        !visit(mail, game, this, now, answers).mail.busy(),
{
    reveal_with_fuel(visit_from, 4);
    assert(visit(mail, game, this, now, answers).deeds =~= seq![
        opening(mail, game, this, now),
        ActionView::Handles,
    ]);
}

/// What carrying out an order comes to, from a step on.
pub open spec fn carried_out(
    mail: MailView,
    game: GameThread,
    order: Order,
    from: u8,
    answers: Answers,
    limit: nat,
) -> Visit {
    let t = visit::advanced(mail, game, order, from);
    if t.action is Return {
        Visit { mail: t.mail, game: t.game, deeds: Seq::empty() }
    } else {
        let rest = visit_from(t.mail, t.game, answer(t.action, answers), answers, limit);
        Visit { deeds: seq![t.action] + rest.deeds, ..rest }
    }
}

/// The next step due lies at or behind the one asked for, and is due.
proof fn lemma_next_due(mail: MailView, order: Order, step: u8)
    requires
        step <= STEP_CLICK,
    ensures
        step <= mail.next_due(order, step) <= STEP_CLICK,
        mail.due(order, mail.next_due(order, step)),
        step <= STEP_AIM && mail.due(order, STEP_AIM) ==> mail.next_due(order, step) <= STEP_AIM,
    decreases STEP_END - step,
{
    if step < STEP_CLICK && !mail.due(order, step) {
        lemma_next_due(mail, order, (step + 1) as u8);
    }
}

/// An order that holds a press or a release ends with it, and the rest of the order
/// does not touch the command.
proof fn lemma_carried_out(
    mail: MailView,
    game: GameThread,
    order: Order,
    from: u8,
    answers: Answers,
    limit: nat,
)
    requires
        from <= STEP_CLICK,
        limit >= STEP_END - from,
        order.command != Command::Idle,
        order.command == Command::Press ==> answers.pressed,
    ensures
        ({
            let v = carried_out(mail, game, order, from, answers, limit);
            let last = if order.command == Command::Press {
                ActionView::Press
            } else {
                ActionView::LetGo
            };
            &&& v.deeds.len() > 0
            &&& v.deeds.last() == last
            &&& forall|i: int|
                0 <= i < v.deeds.len() - 1 ==> !(#[trigger] v.deeds[i] is Press)
                    && !(v.deeds[i] is LetGo)
            &&& from <= STEP_AIM && mail.due(order, STEP_AIM) ==> v.deeds.len() >= 2
                && v.deeds[v.deeds.len() - 2] == ActionView::Aim(mail.aim_x, mail.aim_y)
            &&& forall|i: int|
                0 <= i < v.deeds.len() && (#[trigger] v.deeds[i] is Aim) ==> i == v.deeds.len() - 2
                    && from <= STEP_AIM && mail.due(order, STEP_AIM)
            &&& v.mail.command == (if order.command == Command::Press {
                Command::Release
            } else {
                Command::Idle
            })
            &&& v.mail.clicks == (if order.command == Command::Press {
                mail.clicks
            } else {
                super::counted(mail.clicks)
            })
            &&& v.mail.failures == mail.failures
            &&& v.game.clock == game.clock
            &&& v.game.last_tick == game.last_tick
        }),
    decreases STEP_END - from,
{
    lemma_next_due(mail, order, from);
    let step = mail.next_due(order, from);
    let t = visit::advanced(mail, game, order, from);
    let v = carried_out(mail, game, order, from, answers, limit);
    let event = answer(t.action, answers);
    let ok = match event {
        Event::Reply(b) => b,
        _ => true,
    };
    assert(event == Event::Reply(ok));
    let after = t.mail.ended(order, step, ok);
    let next = visit::turn(t.mail, t.game, event);
    assert(next == visit::advanced(after, t.game, order, (step + 1) as u8));
    let rest = visit_from(t.mail, t.game, event, answers, limit);
    if step < STEP_CLICK {
        lemma_carried_out(after, t.game, order, (step + 1) as u8, answers, (limit - 1) as nat);
        let w = carried_out(after, t.game, order, (step + 1) as u8, answers, (limit - 1) as nat);
        lemma_next_due(after, order, (step + 1) as u8);
        assert(rest == w);
        assert(v.deeds.last() == w.deeds.last());
        assert forall|i: int| 0 <= i < v.deeds.len() - 1 implies !(#[trigger] v.deeds[i] is Press)
            && !(v.deeds[i] is LetGo) by {
            if i > 0 {
                assert(v.deeds[i] == w.deeds[i - 1]);
            }
        }
        assert forall|i: int| 0 <= i < v.deeds.len() && (#[trigger] v.deeds[i] is Aim) implies i
            == v.deeds.len() - 2 && from <= STEP_AIM && mail.due(order, STEP_AIM) by {
            if i > 0 {
                assert(v.deeds[i] == w.deeds[i - 1]);
            } else {
                assert(step == STEP_AIM);
                assert(w.deeds.len() == 1) by {
                    let u = visit::advanced(after, t.game, order, STEP_CLICK);
                    assert(u.action is Press || u.action is LetGo);
                    lemma_end(
                        u.mail,
                        u.game,
                        answer(u.action, answers),
                        answers,
                        (limit - 1) as nat,
                    );
                }
            }
        }
        if step == STEP_AIM {
            assert(w.deeds.len() == 1) by {
                let u = visit::advanced(after, t.game, order, STEP_CLICK);
                assert(u.action is Press || u.action is LetGo);
                lemma_end(u.mail, u.game, answer(u.action, answers), answers, (limit - 1) as nat);
            }
        }
    } else {
        lemma_end(t.mail, t.game, event, answers, limit);
        assert(rest.deeds =~= Seq::empty());
    }
}

/// Nothing follows on the last step.
proof fn lemma_end(
    mail: MailView,
    game: GameThread,
    event: Event,
    answers: Answers,
    limit: nat,
)
    requires
        event is Reply,
        game.stage matches Stage::Working { order, step } && step == STEP_CLICK,
    ensures
        visit_from(mail, game, event, answers, limit).deeds.len() == 0,
        visit_from(mail, game, event, answers, limit).mail == visit::turn(mail, game, event).mail,
        visit_from(mail, game, event, answers, limit).game == visit::turn(mail, game, event).game,
{
    assert(visit::turn(mail, game, event).action is Return);
}

/// A visit in a new tick carries out its whole order.
pub(crate) proof fn lemma_visit_carries_out(
    mail: MailView,
    game: GameThread,
    this: usize,
    now: u64,
    answers: Answers,
)
    requires
        answers.handles,
        !mail.order(0).empty(),
        game.clock.after(this).tick != game.last_tick,
    ensures
        ({
            let v = visit(mail, game, this, now, answers);
            let t = visit::turn(mail, game, Event::Enter { this, now });
            let started = GameThread {
                last_tick: t.game.clock.tick,
                stage: Stage::Asking { order: mail.order(t.game.clock.tick) },
                ..t.game
            };
            let w = carried_out(
                t.mail,
                started,
                mail.order(t.game.clock.tick),
                STEP_RELEASE,
                answers,
                6,
            );
            &&& v.deeds == seq![t.action, ActionView::Handles] + w.deeds
            &&& v.mail == w.mail
            &&& v.game == w.game
        }),
{
    let t1 = visit::turn(mail, game, Event::Enter { this, now });
    let t2 = visit::turn(t1.mail, t1.game, Event::Paced);
    let t3 = visit::turn(t2.mail, t2.game, Event::Handles(true));
    let v3 = visit_from(t2.mail, t2.game, Event::Handles(true), answers, 7);
    let v2 = visit_from(t1.mail, t1.game, Event::Paced, answers, 8);
    let v1 = visit_from(mail, game, Event::Enter { this, now }, answers, 9);
    assert(v1.deeds =~= seq![t1.action] + v2.deeds);
    assert(v2.deeds =~= seq![t2.action] + v3.deeds);
    assert(v1.deeds =~= seq![t1.action, t2.action] + v3.deeds);
}

/// Visits with other players, one after the other: who came, and when.
pub open spec fn visited_by(
    mail: MailView,
    game: GameThread,
    others: Seq<(usize, u64)>,
    answers: Answers,
) -> Visit
    decreases others.len(),
{
    if others.len() == 0 {
        Visit { mail, game, deeds: Seq::empty() }
    } else {
        let front = visited_by(mail, game, others.drop_last(), answers);
        let v = visit(front.mail, front.game, others.last().0, others.last().1, answers);
        Visit { deeds: front.deeds + v.deeds, ..v }
    }
}

/// The other players of a tick that was served change nothing and leave the tick as it
/// is.
proof fn lemma_others(
    mail: MailView,
    game: GameThread,
    this: usize,
    others: Seq<(usize, u64)>,
    answers: Answers,
)
    requires
        answers.handles,
        !mail.order(0).empty(),
        game.clock.owner == this,
        game.clock.tick == game.last_tick,
        others.len() > 0 ==> this != 0,
        game.clock.misses + others.len() <= TICK_REARM,
        forall|i: int| 0 <= i < others.len() ==> (#[trigger] others[i]).0 != this,
    ensures
        ({
            let v = visited_by(mail, game, others, answers);
            &&& v.mail == (MailView { fired: v.mail.fired, ..mail })
            &&& forall|i: int|
                0 <= i < v.deeds.len() ==> (#[trigger] v.deeds[i] is Pace) || (v.deeds[i] is Handles)
            &&& v.game.clock.owner == this
            &&& v.game.clock.tick == game.clock.tick
            &&& v.game.clock.misses == game.clock.misses + others.len()
            &&& v.game.last_tick == game.last_tick
        }),
    decreases others.len(),
{
    if others.len() > 0 {
        let rest = others.drop_last();
        assert forall|i: int| 0 <= i < rest.len() implies (#[trigger] rest[i]).0 != this by {
            assert(rest[i] == others[i]);
        }
        lemma_others(mail, game, this, rest, answers);
        let front = visited_by(mail, game, rest, answers);
        let (other, now) = others.last();
        assert(others[others.len() - 1].0 != this);
        law_one_tick_is_served_once(front.mail, front.game, other, now, answers);
    }
}

/// A click takes two ticks, whatever else is asked for in them and whoever else plays.
/// The first tick presses once, at its end; right before that the cursor is put in its
/// place where there is one, and is left alone where there is none; the mailbox stays
/// busy. The other players of that tick change nothing and do nothing to the game. The
/// next tick lets go once, at its end, counts the click and leaves the mailbox idle.
/// Neither tick both presses and lets go.
pub proof fn law_click_takes_two_ticks(
    mail: MailView,
    game: GameThread,
    this: usize,
    first: u64,
    others: Seq<(usize, u64)>,
    second: u64,
    answers: Answers,
)
    requires
        mail.command == Command::Press,
        answers.handles,
        answers.pressed,
        game.clock.begins(this),
        game.last_tick != super::counted(game.clock.tick),
        others.len() > 0 ==> this != 0,
        others.len() <= TICK_REARM,
        forall|i: int| 0 <= i < others.len() ==> (#[trigger] others[i]).0 != this,
    ensures
        ({
            let a = visit(mail, game, this, first, answers);
            let o = visited_by(a.mail, a.game, others, answers);
            let b = visit(o.mail, o.game, this, second, answers);
            let aimed = mail.aim_x >= 0 && mail.aim_y >= 0;
            &&& a.deeds.last() == ActionView::Press
            &&& forall|i: int| 0 <= i < a.deeds.len() - 1 ==> !(#[trigger] a.deeds[i] is Press)
            &&& forall|i: int| 0 <= i < a.deeds.len() ==> !(#[trigger] a.deeds[i] is LetGo)
            &&& aimed ==> a.deeds[a.deeds.len() - 2] == ActionView::Aim(mail.aim_x, mail.aim_y)
            &&& forall|i: int|
                0 <= i < a.deeds.len() && (#[trigger] a.deeds[i] is Aim) ==> aimed && i
                    == a.deeds.len() - 2
            &&& a.mail.busy()
            &&& a.mail.clicks == mail.clicks
            &&& o.mail == (MailView { fired: o.mail.fired, ..a.mail })
            &&& forall|i: int|
                0 <= i < o.deeds.len() ==> (#[trigger] o.deeds[i] is Pace) || (o.deeds[i] is Handles)
            &&& b.deeds.last() == ActionView::LetGo
            &&& forall|i: int| 0 <= i < b.deeds.len() - 1 ==> !(#[trigger] b.deeds[i] is LetGo)
            &&& forall|i: int|
                0 <= i < b.deeds.len() ==> !(#[trigger] b.deeds[i] is Press) && !(b.deeds[i] is Aim)
            &&& !b.mail.busy()
            &&& b.mail.clicks == super::counted(mail.clicks)
            &&& b.mail.failures == mail.failures
        }),
{
    lemma_command_visit(mail, game, this, first, answers);
    let a = visit(mail, game, this, first, answers);
    lemma_others(a.mail, a.game, this, others, answers);
    let o = visited_by(a.mail, a.game, others, answers);
    lemma_command_visit(o.mail, o.game, this, second, answers);
}

/// A press that was asked for puts the cursor exactly where it was asked to, and moves it
/// exactly where that is a place on the screen.
pub proof fn law_cursor_moves_as_asked(
    mail: MailView,
    game: GameThread,
    this: usize,
    now: u64,
    aim: Option<(i32, i32)>,
    answers: Answers,
)
    requires
        answers.handles,
        answers.pressed,
        game.clock.begins(this),
        game.last_tick != super::counted(game.clock.tick),
    ensures
        ({
            let v = visit(mail.clicking(aim), game, this, now, answers);
            match aim {
                Some(p) if p.0 >= 0 && p.1 >= 0 => {
                    &&& v.deeds.contains(ActionView::Aim(p.0, p.1))
                    &&& forall|i: int|
                        0 <= i < v.deeds.len() && (#[trigger] v.deeds[i] is Aim) ==> v.deeds[i]
                            == ActionView::Aim(p.0, p.1)
                },
                _ => forall|i: int| 0 <= i < v.deeds.len() ==> !(#[trigger] v.deeds[i] is Aim),
            }
        }),
{
    lemma_command_visit(mail.clicking(aim), game, this, now, answers);
}

/// A visit in a new tick ends with the press or the release that is asked for.
proof fn lemma_command_visit(
    mail: MailView,
    game: GameThread,
    this: usize,
    now: u64,
    answers: Answers,
)
    requires
        mail.command != Command::Idle,
        mail.command == Command::Press ==> answers.pressed,
        answers.handles,
        game.clock.begins(this),
        game.last_tick != super::counted(game.clock.tick),
    ensures
        ({
            let v = visit(mail, game, this, now, answers);
            let press = mail.command == Command::Press;
            &&& v.deeds.len() >= 3
            &&& v.deeds.last() == (if press {
                ActionView::Press
            } else {
                ActionView::LetGo
            })
            &&& press && mail.aim_x >= 0 && mail.aim_y >= 0 ==> v.deeds[v.deeds.len() - 2]
                == ActionView::Aim(mail.aim_x, mail.aim_y)
            &&& forall|i: int|
                0 <= i < v.deeds.len() ==> !(#[trigger] v.deeds[i] is LetGo && press) && !(
                v.deeds[i] is Press && !press)
            &&& forall|i: int|
                0 <= i < v.deeds.len() - 1 ==> !(#[trigger] v.deeds[i] is Press) && !(
                v.deeds[i] is LetGo)
            &&& forall|i: int|
                0 <= i < v.deeds.len() && (#[trigger] v.deeds[i] is Aim) ==> i == v.deeds.len() - 2
                    && press && mail.aim_x >= 0 && mail.aim_y >= 0
            &&& v.mail.command == (if press {
                Command::Release
            } else {
                Command::Idle
            })
            &&& v.mail.clicks == (if press {
                mail.clicks
            } else {
                super::counted(mail.clicks)
            })
            &&& v.mail.failures == mail.failures
            &&& v.game.clock == game.clock.after(this)
            &&& v.game.last_tick == v.game.clock.tick
        }),
{
    lemma_visit_carries_out(mail, game, this, now, answers);
    let v = visit(mail, game, this, now, answers);
    let t = visit::turn(mail, game, Event::Enter { this, now });
    let started = GameThread {
        last_tick: t.game.clock.tick,
        stage: Stage::Asking { order: mail.order(t.game.clock.tick) },
        ..t.game
    };
    let order = mail.order(t.game.clock.tick);
    let w = carried_out(t.mail, started, order, STEP_RELEASE, answers, 6);
    lemma_carried_out(t.mail, started, order, STEP_RELEASE, answers, 6);
    let press = mail.command == Command::Press;
    assert forall|i: int| 0 <= i < v.deeds.len() implies !(#[trigger] v.deeds[i] is LetGo && press)
        && !(v.deeds[i] is Press && !press) by {
        if i >= 2 {
            assert(v.deeds[i] == w.deeds[i - 2]);
        }
    }
    assert forall|i: int| 0 <= i < v.deeds.len() - 1 implies !(#[trigger] v.deeds[i] is Press)
        && !(v.deeds[i] is LetGo) by {
        if i >= 2 {
            assert(v.deeds[i] == w.deeds[i - 2]);
        }
    }
    assert forall|i: int| 0 <= i < v.deeds.len() && (#[trigger] v.deeds[i] is Aim) implies i
        == v.deeds.len() - 2 && press && mail.aim_x >= 0 && mail.aim_y >= 0 by {
        if i >= 2 {
            assert(v.deeds[i] == w.deeds[i - 2]);
        }
    }
}

/// A press that is called off after it was made is let go in the next tick, before
/// anything else is done, and is no longer on its way meanwhile.
pub proof fn law_cancelled_press_is_let_go(
    mail: MailView,
    game: GameThread,
    this: usize,
    now: u64,
    answers: Answers,
)
    requires
        mail.command == Command::Release,
        answers.handles,
        game.clock.after(this).tick != game.last_tick,
    ensures
        !mail.cancelled().busy(),
        ({
            let v = visit(mail.cancelled(), game, this, now, answers);
            &&& v.deeds.len() >= 3
            &&& v.deeds[1] == ActionView::Handles
            &&& v.deeds[2] == ActionView::Release
            &&& !v.mail.release
        }),
{
    let start = mail.cancelled();
    let t1 = visit::turn(start, game, Event::Enter { this, now });
    let t2 = visit::turn(t1.mail, t1.game, Event::Paced);
    let t3 = visit::turn(t2.mail, t2.game, Event::Handles(true));
    let rest = visit_from(t3.mail, t3.game, Event::Reply(true), answers, 6);
    reveal_with_fuel(visit_from, 4);
    assert(t3.action == ActionView::Release);
    lemma_release_stays_done(t3.mail, t3.game, Event::Reply(true), answers, 6);
    assert(visit(start, game, this, now, answers).deeds =~= seq![t1.action] + (seq![t2.action] + (
    seq![t3.action] + rest.deeds)));
}

/// Behind its own step an order never raises the request for a release again.
proof fn lemma_release_stays_done(
    mail: MailView,
    game: GameThread,
    event: Event,
    answers: Answers,
    limit: nat,
)
    requires
        !mail.release,
        event is Reply || event is Paced || event is Handles,
    ensures
        !visit_from(mail, game, event, answers, limit).mail.release,
    decreases limit,
{
    let t = visit::turn(mail, game, event);
    if limit > 0 && !(t.action is Return) {
        lemma_release_stays_done(
            t.mail,
            t.game,
            answer(t.action, answers),
            answers,
            (limit - 1) as nat,
        );
    }
}

} // verus!
