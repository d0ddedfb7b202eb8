//! Presses that are applied from inside a frame of the game.
//!
//! The worker decides and leaves its requests in the [`Mailbox`]; the thread of the
//! game applies them when it enters `Player.ItemCheck`, which it does once per
//! player and tick. What the game thread does on such a visit is a machine: it is
//! handed an [`visit::Event`], and says by an [`visit::Action`] what to do next.

use vstd::prelude::*;

pub mod deeds;
pub mod laws;
pub mod pace;
pub mod visit;

pub use deeds::{
    claim_mouse_interface, cursor, edit_text, show_item_tooltip, show_text_tooltip, ui_scale, wheel,
};
pub use pace::shutdown;
pub use visit::{can_enter, on_item_check};

verus! {

/// How many lines wait for the chat at most.
pub const CHAT_LIMIT: usize = 32;

/// The coordinate that leaves the cursor alone.
pub const NO_AIM: i32 = -1;

/// Where a press stands.
#[derive(Debug, Clone, Copy, PartialEq, Eq, Structural)]
pub enum Command {
    Idle,
    /// To be pressed in the coming tick.
    Press,
    /// Pressed; to be let go in the tick after.
    Release,
}

/// What the worker asks of the game thread, and what came of it.
#[derive(Debug)]
pub struct Mailbox {
    pub command: Command,
    /// A press was called off half way and has to be let go.
    pub release: bool,
    /// The inventory is to be stacked into the chests nearby.
    pub quick_stack: bool,
    /// Lines for the chat, the oldest first.
    pub chat: Vec<String>,
    pub chat_pending: bool,
    /// The sound of a quest fish is to be played.
    pub sound: bool,
    /// Where to aim; a negative coordinate leaves the cursor alone.
    pub aim_x: i32,
    pub aim_y: i32,
    /// How often the game came by.
    pub fired: u32,
    pub clicks: u32,
    pub failures: u32,
    pub stacks: u32,
    /// The window of the game is not in front.
    pub inactive: bool,
}

/// The model of [`Mailbox`].
pub struct MailView {
    pub command: Command,
    pub release: bool,
    pub quick_stack: bool,
    pub chat: Seq<Seq<char>>,
    pub chat_pending: bool,
    pub sound: bool,
    pub aim_x: i32,
    pub aim_y: i32,
    pub fired: u32,
    pub clicks: u32,
    pub failures: u32,
    pub stacks: u32,
    pub inactive: bool,
}

/// The characters of each line.
pub open spec fn lines(v: Seq<String>) -> Seq<Seq<char>> {
    v.map_values(|s: String| s@)
}

impl View for Mailbox {
    type V = MailView;

    open spec fn view(&self) -> MailView {
        MailView {
            command: self.command,
            release: self.release,
            quick_stack: self.quick_stack,
            chat: lines(self.chat@),
            chat_pending: self.chat_pending,
            sound: self.sound,
            aim_x: self.aim_x,
            aim_y: self.aim_y,
            fired: self.fired,
            clicks: self.clicks,
            failures: self.failures,
            stacks: self.stacks,
            inactive: self.inactive,
        }
    }
}

/// A counter after one more event; it starts over when it is full.
pub open spec fn counted(n: u32) -> u32 {
    if n == u32::MAX {
        0
    } else {
        (n + 1) as u32
    }
}

pub(crate) fn count(n: u32) -> (r: u32)
    ensures
        r == counted(n),
{
    if n == u32::MAX {
        0
    } else {
        n + 1
    }
}

impl MailView {
    pub open spec fn initial() -> MailView {
        MailView {
            command: Command::Idle,
            release: false,
            quick_stack: false,
            chat: Seq::empty(),
            chat_pending: false,
            sound: false,
            aim_x: NO_AIM,
            aim_y: NO_AIM,
            fired: 0,
            clicks: 0,
            failures: 0,
            stacks: 0,
            inactive: false,
        }
    }

    /// With a press asked for, at `aim` or wherever the cursor is.
    pub open spec fn clicking(self, aim: Option<(i32, i32)>) -> MailView {
        MailView {
            command: Command::Press,
            aim_x: match aim {
                Some(p) => p.0,
                None => NO_AIM,
            },
            aim_y: match aim {
                Some(p) => p.1,
                None => NO_AIM,
            },
            ..self
        }
    }

    /// With the press called off. One that is already made has to be let go.
    pub open spec fn cancelled(self) -> MailView {
        MailView {
            command: Command::Idle,
            release: self.release || self.command == Command::Release,
            failures: counted(self.failures),
            ..self
        }
    }

    /// With one more line for the chat; the oldest goes where there is no room.
    pub open spec fn chatting(self, line: Seq<char>) -> MailView {
        MailView {
            chat: if self.chat.len() >= CHAT_LIMIT {
                self.chat.drop_first().push(line)
            } else {
                self.chat.push(line)
            },
            chat_pending: true,
            ..self
        }
    }

    /// With the inventory to be stacked, or not.
    pub open spec fn stacking(self, asked: bool) -> MailView {
        MailView { quick_stack: asked, ..self }
    }

    /// With the sound of a quest fish to be played.
    pub open spec fn sounding(self) -> MailView {
        MailView { sound: true, ..self }
    }

    /// With the window of the game in front, or not.
    pub open spec fn fronted(self, active: bool) -> MailView {
        MailView { inactive: !active, ..self }
    }

    /// Whether a press is on its way.
    pub open spec fn busy(self) -> bool {
        self.command != Command::Idle
    }
}

impl Mailbox {
    /// An empty mailbox.
    pub fn new() -> (r: Mailbox)
        ensures
            r@ == MailView::initial(),
    {
        let r = Mailbox {
            command: Command::Idle,
            release: false,
            quick_stack: false,
            chat: Vec::new(),
            chat_pending: false,
            sound: false,
            aim_x: NO_AIM,
            aim_y: NO_AIM,
            fired: 0,
            clicks: 0,
            failures: 0,
            stacks: 0,
            inactive: false,
        };
        assert(r@.chat =~= Seq::empty());
        r
    }
}

/// Says whether the window of the game is in front.
pub fn set_window_active(mail: &mut Mailbox, active: bool)
    ensures
        final(mail)@ == (MailView { inactive: !active, ..old(mail)@ }),
        final(mail)@ == old(mail)@.fronted(active),
{
    mail.inactive = !active;
}

/// Whether the window of the game is in front.
pub fn window_active(mail: &Mailbox) -> (r: bool)
    ensures
        r == !mail@.inactive,
{
    !mail.inactive
}

/// Asks for a press, at `aim` on the screen or wherever the cursor is.
pub fn request_click(mail: &mut Mailbox, aim: Option<(i32, i32)>)
    ensures
        final(mail)@ == old(mail)@.clicking(aim),
{
    match aim {
        Some((x, y)) => {
            mail.aim_x = x;
            mail.aim_y = y;
        },
        None => {
            mail.aim_x = NO_AIM;
            mail.aim_y = NO_AIM;
        },
    }
    mail.command = Command::Press;
}

/// Whether a press is on its way.
pub fn busy(mail: &Mailbox) -> (r: bool)
    ensures
        r == mail@.busy(),
{
    mail.command != Command::Idle
}

/// Asks for the inventory to be stacked into the chests nearby.
pub fn request_quick_stack(mail: &mut Mailbox)
    ensures
        final(mail)@ == (MailView { quick_stack: true, ..old(mail)@ }),
        final(mail)@ == old(mail)@.stacking(true),
{
    mail.quick_stack = true;
}

/// Whether the stacking has not been done yet.
pub fn quick_stack_pending(mail: &Mailbox) -> (r: bool)
    ensures
        r == mail@.quick_stack,
{
    mail.quick_stack
}

/// Calls the stacking off.
pub fn cancel_quick_stack(mail: &mut Mailbox)
    ensures
        final(mail)@ == (MailView { quick_stack: false, ..old(mail)@ }),
        final(mail)@ == old(mail)@.stacking(false),
{
    mail.quick_stack = false;
}

/// Asks for the sound of a quest fish.
pub fn request_sound(mail: &mut Mailbox)
    ensures
        final(mail)@ == (MailView { sound: true, ..old(mail)@ }),
        final(mail)@ == old(mail)@.sounding(),
{
    mail.sound = true;
}

/// Leaves a line for the chat. Where nobody takes the lines, the oldest are lost.
pub fn queue_chat(mail: &mut Mailbox, line: String)
    ensures
        final(mail)@ == old(mail)@.chatting(line@),
{
    if mail.chat.len() >= CHAT_LIMIT {
        mail.chat.remove(0);
        assert(lines(mail.chat@) =~= lines(old(mail).chat@).drop_first());
    }
    let ghost before = mail.chat@;
    mail.chat.push(line);
    assert(lines(mail.chat@) =~= lines(before).push(line@));
    mail.chat_pending = true;
}

/// Calls a press off, so that nobody waits for it forever. One that is already
/// made is let go by the game thread.
pub fn cancel(mail: &mut Mailbox)
    ensures
        final(mail)@ == old(mail)@.cancelled(),
{
    if mail.command == Command::Release {
        mail.release = true;
    }
    mail.command = Command::Idle;
    mail.failures = count(mail.failures);
}

/// The chat never holds more lines than it may, the newest is always there, and
/// every line but the oldest stays.
pub proof fn law_chat_keeps_the_newest(mail: MailView, line: Seq<char>)
    requires
        mail.chat.len() <= CHAT_LIMIT,
    ensures
        mail.chatting(line).chat.len() <= CHAT_LIMIT,
        mail.chatting(line).chat.last() == line,
        mail.chat.len() < CHAT_LIMIT ==> mail.chatting(line).chat.drop_last() == mail.chat,
        mail.chat.len() == CHAT_LIMIT ==> mail.chatting(line).chat.drop_last()
            == mail.chat.drop_first(),
{
    assert(mail.chat.push(line).drop_last() =~= mail.chat);
    assert(mail.chat.drop_first().push(line).drop_last() =~= mail.chat.drop_first());
}

} // verus!
