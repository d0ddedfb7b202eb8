//! What a visit of the game thread does for those who asked.

use vstd::prelude::*;

use crate::input::laws::{Answers, Visit};
use crate::input::pace::{Pace, Pacer, TickClock};
use crate::input::visit::{self, ActionView, Event, GameThread, Order, Stage};
use crate::input::{Command, MailView};

verus! {

/// A deed that is done where it was asked for.
pub open spec fn maybe(asked: bool, deed: ActionView) -> Seq<ActionView> {
    if asked {
        seq![deed]
    } else {
        Seq::empty()
    }
}

/// What was asked for, each thing once, in this order: an abandoned press is let go, the
/// inventory is stacked, the chat is written, the sound is played, the cursor is put in
/// its place for a press that has one, and the button is pressed or let go.
pub open spec fn asked(mail: MailView, order: Order) -> Seq<ActionView> {
    maybe(order.release, ActionView::Release) + (maybe(order.stack, ActionView::Stack) + (maybe(
        order.chat,
        ActionView::Chat(mail.chat),
    ) + (maybe(order.sound, ActionView::Sound) + (maybe(
        order.command == Command::Press && mail.aim_x >= 0 && mail.aim_y >= 0,
        ActionView::Aim(mail.aim_x, mail.aim_y),
    ) + (maybe(order.command == Command::Press, ActionView::Press) + maybe(
        order.command == Command::Release,
        ActionView::LetGo,
    ))))))
}

/// One more, from the start where a counter is full.
pub open spec fn one_more(n: u32) -> int {
    if n == 0xFFFF_FFFF {
        0
    } else {
        n + 1
    }
}

/// The mailbox when what was asked for has been done.
pub open spec fn done(
    mail: MailView,
    order: Order,
    answers: Answers,
    after: MailView,
) -> bool {
    let pressed = order.command == Command::Press;
    let let_go = order.command == Command::Release;
    &&& after.release == (mail.release && !(order.release))
    &&& after.quick_stack == (mail.quick_stack && !(order.stack))
    &&& after.chat == if order.chat {
        Seq::<Seq<char>>::empty()
    } else {
        mail.chat
    }
    &&& after.chat_pending == (mail.chat_pending && !(order.chat))
    &&& after.sound == (mail.sound && !(order.sound))
    &&& after.stacks == if order.stack && answers.stacked {
        one_more(mail.stacks)
    } else {
        mail.stacks as int
    }
    &&& pressed && answers.pressed ==> after.command == Command::Release
    &&& pressed && !answers.pressed ==> after.command == Command::Idle
    &&& let_go ==> after.command == Command::Idle
    &&& after.failures == if pressed && !answers.pressed {
        one_more(mail.failures)
    } else {
        mail.failures as int
    }
    &&& after.clicks == if let_go {
        one_more(mail.clicks)
    } else {
        mail.clicks as int
    }
    &&& after.aim_x == mail.aim_x && after.aim_y == mail.aim_y && after.fired == mail.fired
    &&& after.inactive == mail.inactive
}

/// The deed of one number, where it is asked for.
spec fn piece(mail: MailView, order: Order, k: int) -> Seq<ActionView> {
    if k == 0 {
        maybe(order.release, ActionView::Release)
    } else if k == 1 {
        maybe(order.stack, ActionView::Stack)
    } else if k == 2 {
        maybe(order.chat, ActionView::Chat(mail.chat))
    } else if k == 3 {
        maybe(order.sound, ActionView::Sound)
    } else if k == 4 {
        maybe(
            order.command == Command::Press && mail.aim_x >= 0 && mail.aim_y >= 0,
            ActionView::Aim(mail.aim_x, mail.aim_y),
        )
    } else {
        maybe(order.command == Command::Press, ActionView::Press) + maybe(
            order.command == Command::Release,
            ActionView::LetGo,
        )
    }
}

spec fn pieces(mail: MailView, order: Order, from: int) -> Seq<ActionView>
    decreases 6 - from,
{
    if from >= 6 {
        Seq::empty()
    } else {
        piece(mail, order, from) + pieces(mail, order, from + 1)
    }
}

/// The mailbox after the deed of one number.
spec fn after_piece(mail: MailView, order: Order, k: int, answers: Answers) -> MailView {
    if k == 0 && order.release {
        MailView { release: false, ..mail }
    } else if k == 1 && order.stack {
        MailView {
            quick_stack: false,
            stacks: if answers.stacked {
                one_more(mail.stacks) as u32
            } else {
                mail.stacks
            },
            ..mail
        }
    } else if k == 2 && order.chat {
        MailView { chat: Seq::empty(), chat_pending: false, ..mail }
    } else if k == 3 && order.sound {
        MailView { sound: false, ..mail }
    } else if k == 5 && order.command == Command::Press {
        if answers.pressed {
            MailView { command: Command::Release, ..mail }
        } else {
            MailView {
                command: Command::Idle,
                failures: one_more(mail.failures) as u32,
                ..mail
            }
        }
    } else if k == 5 && order.command == Command::Release {
        MailView { command: Command::Idle, clicks: one_more(mail.clicks) as u32, ..mail }
    } else if k == 5 {
        MailView { command: Command::Idle, ..mail }
    } else {
        mail
    }
}

spec fn after_pieces(mail: MailView, order: Order, from: int, answers: Answers) -> MailView
    decreases 6 - from,
{
    if from >= 6 {
        mail
    } else {
        after_pieces(after_piece(mail, order, from, answers), order, from + 1, answers)
    }
}

proof fn lemma_later_pieces(mail: MailView, order: Order, k: int, from: int, answers: Answers)
    requires
        0 <= k < from,
    ensures
        pieces(after_piece(mail, order, k, answers), order, from) == pieces(mail, order, from),
    decreases 6 - from,
{
    if from < 6 {
        lemma_later_pieces(mail, order, k, from + 1, answers);
        assert(piece(after_piece(mail, order, k, answers), order, from) =~= piece(
            mail,
            order,
            from,
        ));
    }
}

/// A step that is due does the deed of its number, and leaves the mailbox that follows.
proof fn lemma_due_step(
    mail: MailView,
    game: GameThread,
    order: Order,
    k: u8,
    answers: Answers,
)
    requires
        k <= 5,
        mail.due(order, k),
        !(k == 5 && order.command == Command::Idle),
    ensures
        ({
            let t = visit::advanced(mail, game, order, k);
            let event = crate::input::laws::answer(t.action, answers);
            &&& !(t.action is Return)
            &&& event is Reply
            &&& t.game == (GameThread { stage: Stage::Working { order, step: k }, ..game })
            &&& piece(mail, order, k as int) == seq![t.action]
            &&& t.mail.ended(order, k, event->Reply_0) == after_piece(
                mail,
                order,
                k as int,
                answers,
            )
        }),
{
    assert(mail.next_due(order, k) == k);
    let t = visit::advanced(mail, game, order, k);
    assert(piece(mail, order, k as int) =~= seq![t.action]);
}

/// A step that is not due does nothing.
proof fn lemma_idle_step(mail: MailView, order: Order, k: u8, answers: Answers)
    requires
        k < 5,
        !mail.due(order, k),
    ensures
        piece(mail, order, k as int) == Seq::<ActionView>::empty(),
        after_piece(mail, order, k as int, answers) == mail,
        mail.next_due(order, k) == mail.next_due(order, (k + 1) as u8),
{
}

proof fn lemma_asked(
    mail: MailView,
    game: GameThread,
    order: Order,
    from: u8,
    answers: Answers,
    limit: nat,
)
    requires
        from <= 6,
        limit >= 6 - from,
    ensures
        ({
            let v = crate::input::laws::carried_out(mail, game, order, from, answers, limit);
            &&& v.deeds == pieces(mail, order, from as int)
            &&& v.mail == after_pieces(mail, order, from as int, answers)
            &&& v.game == (GameThread { stage: Stage::Away, ..game })
        }),
    decreases 6 - from, 1int,
{
    if from == 6 {
        lemma_over(mail, game, order, answers, limit);
    } else if from == 5 && order.command == Command::Idle {
        lemma_no_click(mail, game, order, answers, limit);
    } else if from < 5 && !mail.due(order, from) {
        let next = (from + 1) as u8;
        lemma_idle_step(mail, order, from, answers);
        lemma_asked(mail, game, order, next, answers, limit);
        assert(visit::advanced(mail, game, order, from) == visit::advanced(
            mail,
            game,
            order,
            next,
        ));
        let rest = pieces(mail, order, next as int);
        assert(Seq::<ActionView>::empty() + rest =~= rest);
    } else {
        lemma_asked_due(mail, game, order, from, answers, limit);
    }
}

proof fn lemma_over(
    mail: MailView,
    game: GameThread,
    order: Order,
    answers: Answers,
    limit: nat,
)
    ensures
        ({
            let v = crate::input::laws::carried_out(mail, game, order, 6, answers, limit);
            &&& v.deeds == pieces(mail, order, 6)
            &&& v.mail == after_pieces(mail, order, 6, answers)
            &&& v.game == (GameThread { stage: Stage::Away, ..game })
        }),
{
}

proof fn lemma_no_click(
    mail: MailView,
    game: GameThread,
    order: Order,
    answers: Answers,
    limit: nat,
)
    requires
        order.command == Command::Idle,
    ensures
        ({
            let v = crate::input::laws::carried_out(mail, game, order, 5, answers, limit);
            &&& v.deeds == pieces(mail, order, 5)
            &&& v.mail == after_pieces(mail, order, 5, answers)
            &&& v.game == (GameThread { stage: Stage::Away, ..game })
        }),
{
    reveal_with_fuel(pieces, 2);
    reveal_with_fuel(after_pieces, 2);
    assert(pieces(mail, order, 5) =~= Seq::<ActionView>::empty());
}

proof fn lemma_asked_due(
    mail: MailView,
    game: GameThread,
    order: Order,
    from: u8,
    answers: Answers,
    limit: nat,
)
    requires
        from <= 5,
        limit >= 6 - from,
        mail.due(order, from),
        !(from == 5 && order.command == Command::Idle),
    ensures
        ({
            let v = crate::input::laws::carried_out(mail, game, order, from, answers, limit);
            &&& v.deeds == pieces(mail, order, from as int)
            &&& v.mail == after_pieces(mail, order, from as int, answers)
            &&& v.game == (GameThread { stage: Stage::Away, ..game })
        }),
    decreases 6 - from, 0int,
{
    let next = (from + 1) as u8;
    let t = visit::advanced(mail, game, order, from);
    let event = crate::input::laws::answer(t.action, answers);
    lemma_due_step(mail, game, order, from, answers);
    let after = after_piece(mail, order, from as int, answers);
    assert(visit::turn(t.mail, t.game, event) == visit::advanced(after, t.game, order, next));
    lemma_asked(after, t.game, order, next, answers, (limit - 1) as nat);
    lemma_later_pieces(mail, order, from as int, next as int, answers);
}

proof fn lemma_pieces(mail: MailView, order: Order)
    ensures
        pieces(mail, order, 0) == asked(mail, order),
{
    reveal_with_fuel(pieces, 7);
    let last = piece(mail, order, 5);
    assert(last + Seq::<ActionView>::empty() =~= last);
}

proof fn lemma_after_pieces(mail: MailView, order: Order, answers: Answers)
    ensures
        done(mail, order, answers, after_pieces(mail, order, 0, answers)),
        order.command == Command::Idle ==> after_pieces(mail, order, 0, answers).command
            == Command::Idle,
{
    reveal_with_fuel(after_pieces, 7);
}

/// A visit in a tick that was not served yet, with a way into the game, does exactly what
/// was asked for, each thing once and in its order, whatever else was asked for; then
/// nothing of it is asked for any more, but for a press, which is to be let go. A stacking
/// that works, a press that fails and a click that is over are counted.
pub proof fn law_everything_asked_for_is_done(
    mail: MailView,
    game: GameThread,
    this: usize,
    now: u64,
    answers: Answers,
)
    requires
        answers.handles,
        game.clock.after(this).tick != game.last_tick,
        mail.release || mail.quick_stack || mail.chat_pending || mail.sound || mail.command
            != Command::Idle,
    ensures
        ({
            let v = crate::input::laws::visit(mail, game, this, now, answers);
            let order = mail.order(game.clock.after(this).tick);
            let fired = MailView { fired: v.mail.fired, ..mail };
            &&& v.deeds.len() >= 2
            &&& v.deeds[0] is Pace
            &&& v.deeds[1] == ActionView::Handles
            &&& v.deeds.skip(2) == asked(mail, order)
            &&& order.release == mail.release && order.stack == mail.quick_stack && order.chat
                == mail.chat_pending && order.sound == mail.sound && order.command == mail.command
            &&& v.mail.fired == one_more(mail.fired)
            &&& done(fired, order, answers, v.mail)
            &&& mail.command == Command::Idle ==> v.mail.command == Command::Idle
            &&& !v.mail.release && !v.mail.quick_stack && !v.mail.chat_pending && !v.mail.sound
            &&& v.game.last_tick == v.game.clock.tick
            &&& v.game.clock == game.clock.after(this)
            &&& v.game.stage is Away
        }),
{
    crate::input::laws::lemma_visit_carries_out(mail, game, this, now, answers);
    let v = crate::input::laws::visit(mail, game, this, now, answers);
    let t = visit::turn(mail, game, Event::Enter { this, now });
    let order = mail.order(t.game.clock.tick);
    let started = GameThread {
        last_tick: t.game.clock.tick,
        stage: Stage::Asking { order },
        ..t.game
    };
    lemma_asked(t.mail, started, order, 0, answers, 6);
    lemma_pieces(t.mail, order);
    lemma_after_pieces(t.mail, order, answers);
    let w = crate::input::laws::carried_out(t.mail, started, order, 0, answers, 6);
    assert(v.deeds.skip(2) =~= w.deeds);
}

/// A visit that finds nothing asked for, or a tick that was served already, does nothing to
/// the game and leaves every request as it is. Without a way into the game everything is
/// dropped but the sound, and that counts as a failure.
pub proof fn law_nothing_else_is_done(
    mail: MailView,
    game: GameThread,
    this: usize,
    now: u64,
    answers: Answers,
)
    ensures
        ({
            let v = crate::input::laws::visit(mail, game, this, now, answers);
            let quiet = !mail.release && !mail.quick_stack && !mail.chat_pending && !mail.sound
                && mail.command == Command::Idle;
            let served = !quiet && answers.handles && game.clock.after(this).tick == game.last_tick;
            let lost = !quiet && !answers.handles;
            &&& quiet ==> v.deeds.len() == 1
            &&& served || lost ==> v.deeds.len() == 2 && v.deeds[1] == ActionView::Handles
            &&& quiet || served || lost ==> v.deeds[0] is Pace && v.mail.fired == one_more(
                mail.fired,
            )
            &&& quiet || served ==> v.mail == (MailView { fired: v.mail.fired, ..mail })
            &&& lost ==> v.mail.command == Command::Idle && !v.mail.release && !v.mail.quick_stack
                && v.mail.chat.len() == 0 && !v.mail.chat_pending && v.mail.failures == one_more(
                mail.failures,
            )
            &&& lost ==> v.mail == (MailView {
                command: v.mail.command,
                release: false,
                quick_stack: false,
                chat: v.mail.chat,
                chat_pending: false,
                failures: v.mail.failures,
                fired: v.mail.fired,
                ..mail
            })
        }),
{
    reveal_with_fuel(crate::input::laws::visit_from, 4);
}

/// What is asked for is noted, and nothing else: a press with its place or with none, a
/// press called off, a line for the chat.
pub proof fn law_requests_are_noted(
    mail: MailView,
    aim: Option<(i32, i32)>,
    line: Seq<char>,
)
    ensures
        ({
            let m = mail.clicking(aim);
            &&& m.command == Command::Press
            &&& aim matches Some(p) ==> m.aim_x == p.0 && m.aim_y == p.1
            &&& aim is None ==> m.aim_x == -1 && m.aim_y == -1
            &&& m == (MailView { command: m.command, aim_x: m.aim_x, aim_y: m.aim_y, ..mail })
            &&& m.busy()
        }),
        mail.busy() <==> mail.command == Command::Press || mail.command == Command::Release,
        ({
            let m = mail.cancelled();
            &&& m.command == Command::Idle
            &&& m.release == (mail.release || mail.command == Command::Release)
            &&& m.failures == one_more(mail.failures)
            &&& m == (MailView {
                command: m.command,
                release: m.release,
                failures: m.failures,
                ..mail
            })
        }),
        ({
            let m = mail.chatting(line);
            &&& m.chat_pending
            &&& m.chat.len() > 0 && m.chat.last() == line
            &&& mail.chat.len() < 32 ==> m.chat.drop_last() == mail.chat
            &&& mail.chat.len() >= 32 ==> m.chat.drop_last() == mail.chat.drop_first()
            &&& m == (MailView { chat: m.chat, chat_pending: true, ..mail })
        }),
        ({
            let m = MailView::initial();
            &&& m.command == Command::Idle && !m.release && !m.quick_stack && !m.sound
            &&& m.chat.len() == 0 && !m.chat_pending && !m.inactive
            &&& m.aim_x == -1 && m.aim_y == -1
            &&& m.fired == 0 && m.clicks == 0 && m.failures == 0 && m.stacks == 0
        }),
{
    assert(mail.chat.push(line).drop_last() =~= mail.chat);
    assert(mail.chat.drop_first().push(line).drop_last() =~= mail.chat.drop_first());
}

// ---------------------------------------------------------------------------
// Ticks and their pace
// ---------------------------------------------------------------------------

/// A tick begins with the player it began with last, or where there was none, or after
/// 64 calls in a row from others; it is counted, and the player is remembered. Any other
/// call belongs to the tick that runs, and is counted as one of others.
pub proof fn law_ticks_begin_with_their_player(clock: TickClock, this: usize)
    requires
        clock.misses < u32::MAX,
    ensures
        ({
            let c = clock.after(this);
            let begins = clock.owner == this || clock.owner == 0 || clock.misses >= 64;
            &&& begins ==> c.tick == one_more(clock.tick) && c.owner == this && c.misses == 0
            &&& !begins ==> c.tick == clock.tick && c.owner == clock.owner && c.misses
                == clock.misses + 1
        }),
{
}

/// A game in the background is held at sixty ticks a second. The first tick is not held;
/// another player of the same tick is not held; a tick that comes early sleeps exactly up
/// to its time and counts from there; one that comes late is not held and counts from when
/// it came. The timer of the system is made fine once.
pub proof fn law_pace_is_kept(p: Pacer, tick: u32, now: u64)
    requires
        p.due_fits(tick, now),
    ensures
        ({
            let q = p.paced(tick, now);
            let r = p.pace(tick, now);
            &&& r.raise == !p.raised && !r.lower && q.raised
            &&& p.mark is None ==> r.sleep == 0 && q.mark == Some((tick, now))
            &&& p.mark matches Some((last, at)) ==> {
                let early = last != tick && now < at + 16_667_000;
                &&& last == tick ==> r.sleep == 0 && q.mark == p.mark
                &&& early ==> now + r.sleep == at + 16_667_000 && q.mark == Some(
                    (tick, (at + 16_667_000) as u64),
                )
                &&& last != tick && !early ==> r.sleep == 0 && q.mark == Some((tick, now))
            }
        }),
{
}

/// A game thread that has not come by yet is nowhere and holds nothing; whoever comes first
/// begins a tick, and that tick is served.
pub proof fn law_first_visit_begins_a_tick(this: usize)
    ensures
        ({
            let game = GameThread::initial();
            &&& game.stage is Away
            &&& game.pacer.mark is None && !game.pacer.raised
            &&& game.clock.after(this).tick == 1 && game.clock.after(this).owner == this
            &&& game.clock.after(this).tick != game.last_tick
        }),
{
}

} // verus!
