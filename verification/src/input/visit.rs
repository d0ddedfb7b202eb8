//! A visit of the game thread, turn by turn.

use vstd::prelude::*;

use super::pace::{pace, pace_idle, tick_of, Pace, Pacer, TickClock};
use super::{count, Command, MailView, Mailbox};

verus! {

/// What was asked for when the game thread came by in `tick`.
#[derive(Debug, Clone, Copy, PartialEq, Eq, Structural)]
pub struct Order {
    pub tick: u32,
    pub command: Command,
    pub stack: bool,
    pub chat: bool,
    pub sound: bool,
    pub release: bool,
}

impl Order {
    /// Whether there is nothing to do.
    pub open spec fn empty(self) -> bool {
        self.command == Command::Idle && !self.stack && !self.chat && !self.sound && !self.release
    }
}

/// How far a visit has got.
#[derive(Debug, Clone, Copy, PartialEq, Eq, Structural)]
pub enum Stage {
    /// The game thread is elsewhere.
    Away,
    /// The tick is being held up to its time.
    Pacing { tick: u32 },
    /// The way into the game is being looked for.
    Asking { order: Order },
    /// The step of that number is being done.
    Working { order: Order, step: u8 },
}

/// What the game thread keeps from one visit to the next.
#[derive(Debug, Clone, Copy)]
pub struct GameThread {
    pub clock: TickClock,
    pub pacer: Pacer,
    /// The tick in which orders were last carried out.
    pub last_tick: u32,
    pub stage: Stage,
}

/// What happened.
#[derive(Debug, Clone, Copy, PartialEq, Eq, Structural)]
pub enum Event {
    /// The game entered `Player.ItemCheck` of the player `this`.
    Enter { this: usize, now: u64 },
    /// The pace was kept.
    Paced,
    /// There is a way into the game, or there is none.
    Handles(bool),
    /// The action was done, and whether it succeeded.
    Reply(bool),
}

/// What to do next.
#[derive(Debug)]
pub enum Action {
    Pace(Pace),
    /// Find a way into the game.
    Handles,
    /// Let the button go that was pressed for a command since called off.
    Release,
    /// Stack the inventory into the chests nearby.
    Stack,
    /// Write these lines into the chat.
    Chat(Vec<String>),
    /// Play the sound of a quest fish.
    Sound,
    /// Put the cursor there.
    Aim(i32, i32),
    Press,
    LetGo,
    /// Give the thread back to the game.
    Return,
}

/// The model of [`Action`].
pub enum ActionView {
    Pace(Pace),
    Handles,
    Release,
    Stack,
    Chat(Seq<Seq<char>>),
    Sound,
    Aim(i32, i32),
    Press,
    LetGo,
    Return,
}

impl View for Action {
    type V = ActionView;

    open spec fn view(&self) -> ActionView {
        match *self {
            Action::Pace(p) => ActionView::Pace(p),
            Action::Handles => ActionView::Handles,
            Action::Release => ActionView::Release,
            Action::Stack => ActionView::Stack,
            Action::Chat(v) => ActionView::Chat(super::lines(v@)),
            Action::Sound => ActionView::Sound,
            Action::Aim(x, y) => ActionView::Aim(x, y),
            Action::Press => ActionView::Press,
            Action::LetGo => ActionView::LetGo,
            Action::Return => ActionView::Return,
        }
    }
}

/// The step that lets an abandoned press go.
pub const STEP_RELEASE: u8 = 0;

/// The step that stacks into chests.
pub const STEP_STACK: u8 = 1;

/// The step that writes into the chat.
pub const STEP_CHAT: u8 = 2;

/// The step that plays the sound.
pub const STEP_SOUND: u8 = 3;

/// The step that puts the cursor in its place.
pub const STEP_AIM: u8 = 4;

/// The step that presses or lets go.
pub const STEP_CLICK: u8 = 5;

/// Behind the last step.
pub const STEP_END: u8 = 6;

impl MailView {
    /// What is asked for now.
    pub open spec fn order(self, tick: u32) -> Order {
        Order {
            tick,
            command: self.command,
            stack: self.quick_stack,
            chat: self.chat_pending,
            sound: self.sound,
            release: self.release,
        }
    }

    /// With everything dropped that a game thread without a way into the game
    /// cannot do. The sound stays.
    pub open spec fn given_up(self) -> MailView {
        MailView {
            command: Command::Idle,
            release: false,
            quick_stack: false,
            chat: Seq::empty(),
            chat_pending: false,
            failures: super::counted(self.failures),
            ..self
        }
    }

    /// Whether a step of an order is to be done.
    pub open spec fn due(self, order: Order, step: u8) -> bool {
        if step == STEP_RELEASE {
            order.release
        } else if step == STEP_STACK {
            order.stack
        } else if step == STEP_CHAT {
            order.chat
        } else if step == STEP_SOUND {
            order.sound
        } else if step == STEP_AIM {
            order.command == Command::Press && self.aim_x >= 0 && self.aim_y >= 0
        } else {
            true
        }
    }

    /// The first step from `step` on that is to be done.
    pub open spec fn next_due(self, order: Order, step: u8) -> u8
        decreases STEP_END - step,
    {
        if step >= STEP_CLICK || self.due(order, step) {
            step
        } else {
            self.next_due(order, (step + 1) as u8)
        }
    }

    /// The mailbox when a step begins: its request is taken out.
    pub open spec fn begun(self, order: Order, step: u8) -> MailView {
        if step == STEP_RELEASE {
            MailView { release: false, ..self }
        } else if step == STEP_STACK {
            MailView { quick_stack: false, ..self }
        } else if step == STEP_CHAT {
            MailView { chat: Seq::empty(), chat_pending: false, ..self }
        } else if step == STEP_SOUND {
            MailView { sound: false, ..self }
        } else if step == STEP_CLICK && order.command == Command::Idle {
            MailView { command: Command::Idle, ..self }
        } else {
            self
        }
    }

    /// What is done at a step.
    pub open spec fn deed(self, order: Order, step: u8) -> ActionView {
        if step == STEP_RELEASE {
            ActionView::Release
        } else if step == STEP_STACK {
            ActionView::Stack
        } else if step == STEP_CHAT {
            ActionView::Chat(self.chat)
        } else if step == STEP_SOUND {
            ActionView::Sound
        } else if step == STEP_AIM {
            ActionView::Aim(self.aim_x, self.aim_y)
        } else if step == STEP_CLICK && order.command == Command::Press {
            ActionView::Press
        } else if step == STEP_CLICK && order.command == Command::Release {
            ActionView::LetGo
        } else {
            ActionView::Return
        }
    }

    /// The mailbox when a step is over: a press that worked is to be let go, one
    /// that failed is given up, and one that was let go is a click.
    pub open spec fn ended(self, order: Order, step: u8, ok: bool) -> MailView {
        if step == STEP_STACK && ok {
            MailView { stacks: super::counted(self.stacks), ..self }
        } else if step == STEP_CLICK && order.command == Command::Press {
            if ok {
                MailView { command: Command::Release, ..self }
            } else {
                MailView { command: Command::Idle, failures: super::counted(self.failures), ..self }
            }
        } else if step == STEP_CLICK && order.command == Command::Release {
            MailView { command: Command::Idle, clicks: super::counted(self.clicks), ..self }
        } else {
            self
        }
    }
}

/// A mailbox, the game thread, and what the thread does next.
pub struct Turn {
    pub mail: MailView,
    pub game: GameThread,
    pub action: ActionView,
}

/// Goes on with an order from the first step due.
pub open spec fn advanced(mail: MailView, game: GameThread, order: Order, from: u8) -> Turn {
    let step = if from >= STEP_END {
        STEP_END
    } else {
        mail.next_due(order, from)
    };
    let action = mail.deed(order, step);
    Turn {
        mail: mail.begun(order, step),
        game: GameThread {
            stage: if action is Return {
                Stage::Away
            } else {
                Stage::Working { order, step }
            },
            ..game
        },
        action,
    }
}

/// The end of a visit.
pub open spec fn returning(mail: MailView, game: GameThread) -> Turn {
    Turn { mail, game: GameThread { stage: Stage::Away, ..game }, action: ActionView::Return }
}

/// What follows on an event. An event that does not belong to the stage ends the
/// visit and changes nothing else.
pub open spec fn turn(mail: MailView, game: GameThread, event: Event) -> Turn {
    match (event, game.stage) {
        (Event::Enter { this, now }, _) => {
            let clock = game.clock.after(this);
            Turn {
                mail: MailView { fired: super::counted(mail.fired), ..mail },
                game: GameThread {
                    clock,
                    pacer: if mail.inactive {
                        game.pacer.paced(clock.tick, now)
                    } else {
                        Pacer { mark: None, raised: false }
                    },
                    stage: Stage::Pacing { tick: clock.tick },
                    ..game
                },
                action: ActionView::Pace(
                    if mail.inactive {
                        game.pacer.pace(clock.tick, now)
                    } else {
                        Pace { raise: false, lower: game.pacer.raised, sleep: 0 }
                    },
                ),
            }
        },
        (Event::Paced, Stage::Pacing { tick }) => if mail.order(tick).empty() {
            // Nothing to do: the game is not touched at all.
            returning(mail, game)
        } else {
            Turn {
                mail,
                game: GameThread { stage: Stage::Asking { order: mail.order(tick) }, ..game },
                action: ActionView::Handles,
            }
        },
        (Event::Handles(found), Stage::Asking { order }) => if !found {
            returning(mail.given_up(), game)
        } else if game.last_tick == order.tick {
            // Another player of the same tick: a press and its release must not
            // fall together.
            returning(mail, game)
        } else {
            advanced(mail, GameThread { last_tick: order.tick, ..game }, order, STEP_RELEASE)
        },
        (Event::Reply(ok), Stage::Working { order, step }) => advanced(
            mail.ended(order, step, ok),
            game,
            order,
            (step + 1) as u8,
        ),
        _ => returning(mail, game),
    }
}

impl GameThread {
    /// A game thread that has not come by yet.
    pub open spec fn initial() -> GameThread {
        GameThread {
            clock: TickClock { tick: 0, owner: 0, misses: 0 },
            pacer: Pacer { mark: None, raised: false },
            last_tick: u32::MAX,
            stage: Stage::Away,
        }
    }

    pub fn new() -> (r: GameThread)
        ensures
            r == GameThread::initial(),
    {
        GameThread {
            clock: TickClock { tick: 0, owner: 0, misses: 0 },
            pacer: Pacer { mark: None, raised: false },
            last_tick: u32::MAX,
            stage: Stage::Away,
        }
    }

    /// Whether the number of the step that is being done is one of the steps.
    pub open spec fn wf(self) -> bool {
        self.stage matches Stage::Working { order, step } ==> step < STEP_END
    }
}

fn advance(mail: &mut Mailbox, game: &mut GameThread, order: Order, from: u8) -> (r: Action)
    requires
        from <= STEP_END,
    ensures
        ({
            let t = advanced(old(mail)@, *old(game), order, from);
            final(mail)@ == t.mail && *final(game) == t.game && r@ == t.action
        }),
        final(game).wf(),
{
    let mut step: u8 = from;
    while step < STEP_CLICK
        invariant_except_break
            step <= STEP_END,
            step < STEP_END ==> mail@.next_due(order, step) == mail@.next_due(order, from),
            from < STEP_END ==> step < STEP_END,
            from == STEP_END ==> step == STEP_END,
        ensures
            from < STEP_END ==> step == mail@.next_due(order, from) && step < STEP_END,
            from == STEP_END ==> step == STEP_END,
        decreases STEP_END - step,
    {
        let due: bool = match step {
            0 => order.release,
            1 => order.stack,
            2 => order.chat,
            3 => order.sound,
            _ => order.command == Command::Press && mail.aim_x >= 0 && mail.aim_y >= 0,
        };
        if due {
            break;
        }
        step = step + 1;
    }
    game.stage = Stage::Working { order, step };
    match step {
        0 => {
            mail.release = false;
            Action::Release
        },
        1 => {
            mail.quick_stack = false;
            Action::Stack
        },
        2 => {
            let mut taken: Vec<String> = Vec::new();
            std::mem::swap(&mut taken, &mut mail.chat);
            assert(super::lines(mail.chat@) =~= Seq::empty());
            mail.chat_pending = false;
            Action::Chat(taken)
        },
        3 => {
            mail.sound = false;
            Action::Sound
        },
        4 => Action::Aim(mail.aim_x, mail.aim_y),
        _ => {
            if step == STEP_CLICK && order.command == Command::Press {
                return Action::Press;
            }
            if step == STEP_CLICK && order.command == Command::Release {
                return Action::LetGo;
            }
            if step == STEP_CLICK {
                mail.command = Command::Idle;
            }
            game.stage = Stage::Away;
            Action::Return
        },
    }
}

/// Whether a visit of `this` can be held up to its time, where it has to be.
pub open spec fn visit_fits(mail: MailView, game: GameThread, this: usize, now: u64) -> bool {
    mail.inactive ==> game.pacer.due_fits(game.clock.after(this).tick, now)
}

/// Whether a visit of `this` can be held up to its time, where it has to be.
pub fn can_enter(mail: &Mailbox, game: &GameThread, this: usize, now: u64) -> (r: bool)
    ensures
        r == visit_fits(mail@, *game, this, now),
{
    let mut clock = game.clock;
    let tick: u32 = tick_of(&mut clock, this);
    !mail.inactive || game.pacer.has_time(tick, now)
}

/// One turn of a visit of the game thread.
pub fn on_item_check(mail: &mut Mailbox, game: &mut GameThread, event: Event) -> (r: Action)
    requires
        old(game).wf(),
        event matches Event::Enter { this, now } ==> visit_fits(old(mail)@, *old(game), this, now),
    ensures
        ({
            let t = turn(old(mail)@, *old(game), event);
            final(mail)@ == t.mail && *final(game) == t.game && r@ == t.action
        }),
        final(game).wf(),
{
    match (event, game.stage) {
        (Event::Enter { this, now }, _) => {
            mail.fired = count(mail.fired);
            let tick: u32 = tick_of(&mut game.clock, this);
            let held = if mail.inactive {
                pace(&mut game.pacer, tick, now)
            } else {
                pace_idle(&mut game.pacer)
            };
            game.stage = Stage::Pacing { tick };
            Action::Pace(held)
        },
        (Event::Paced, Stage::Pacing { tick }) => {
            let order = Order {
                tick,
                command: mail.command,
                stack: mail.quick_stack,
                chat: mail.chat_pending,
                sound: mail.sound,
                release: mail.release,
            };
            if order.command == Command::Idle && !order.stack && !order.chat && !order.sound
                && !order.release {
                game.stage = Stage::Away;
                return Action::Return;
            }
            game.stage = Stage::Asking { order };
            Action::Handles
        },
        (Event::Handles(found), Stage::Asking { order }) => {
            if !found {
                mail.failures = count(mail.failures);
                mail.command = Command::Idle;
                mail.release = false;
                mail.quick_stack = false;
                mail.chat_pending = false;
                mail.chat.clear();
                assert(super::lines(mail.chat@) =~= Seq::empty());
                game.stage = Stage::Away;
                return Action::Return;
            }
            if game.last_tick == order.tick {
                game.stage = Stage::Away;
                return Action::Return;
            }
            game.last_tick = order.tick;
            advance(mail, game, order, STEP_RELEASE)
        },
        (Event::Reply(ok), Stage::Working { order, step }) => {
            if step == STEP_STACK && ok {
                mail.stacks = count(mail.stacks);
            } else if step == STEP_CLICK && order.command == Command::Press {
                if ok {
                    mail.command = Command::Release;
                } else {
                    mail.failures = count(mail.failures);
                    mail.command = Command::Idle;
                }
            } else if step == STEP_CLICK && order.command == Command::Release {
                mail.command = Command::Idle;
                mail.clicks = count(mail.clicks);
            }
            advance(mail, game, order, step + 1)
        },
        _ => {
            game.stage = Stage::Away;
            Action::Return
        },
    }
}

} // verus!
