//! The trap for crashes.
//!
//! The trap repairs nothing: it writes down what happened and where, together with what
//! the two threads were about, and lets the exception go on. Exceptions of the managed
//! code are passed over.

use vstd::prelude::*;

use crate::text;

verus! {

/// How many crashes are written down.
pub const MAX_LOGGED: u32 = 4;

pub const ACCESS_VIOLATION: u32 = 0xC000_0005;

pub const STACK_OVERFLOW: u32 = 0xC000_00FD;

pub const ILLEGAL_INSTRUCTION: u32 = 0xC000_001D;

pub const STEP_NONE: u8 = 0;

pub const STEP_CLICK: u8 = 1;

pub const STEP_QUICK_STACK: u8 = 2;

pub const STEP_CHAT: u8 = 3;

pub const STEP_ITEM_TOOLTIP: u8 = 4;

pub const STEP_TEXT_TOOLTIP: u8 = 5;

pub const STEP_SEARCH_TEXT: u8 = 6;

pub const STEP_BOBBER: u8 = 7;

pub const STEP_STOCK: u8 = 8;

pub const STEP_POTIONS: u8 = 9;

pub const STEP_ROD: u8 = 10;

pub const STEP_LANG: u8 = 11;

pub const STEP_SOUND: u8 = 12;

/// What a step is called.
pub open spec fn named(step: u8) -> Seq<char> {
    if step == STEP_CLICK {
        "нажатие"@
    } else if step == STEP_QUICK_STACK {
        "раскладка по сундукам"@
    } else if step == STEP_CHAT {
        "строка в чат"@
    } else if step == STEP_ITEM_TOOLTIP {
        "подсказка предмета"@
    } else if step == STEP_TEXT_TOOLTIP {
        "текстовая подсказка"@
    } else if step == STEP_SEARCH_TEXT {
        "набор в строке поиска"@
    } else if step == STEP_BOBBER {
        "чтение поплавка"@
    } else if step == STEP_STOCK {
        "наживка и ячейки"@
    } else if step == STEP_POTIONS {
        "зелья"@
    } else if step == STEP_ROD {
        "удочка в руке"@
    } else if step == STEP_LANG {
        "язык игры"@
    } else if step == STEP_SOUND {
        "звук квестовой рыбы"@
    } else {
        "ничего"@
    }
}

/// What a step is called.
pub fn step_name(step: u8) -> (r: &'static str)
    ensures
        r@ == named(step),
{
    match step {
        STEP_CLICK => "нажатие",
        STEP_QUICK_STACK => "раскладка по сундукам",
        STEP_CHAT => "строка в чат",
        STEP_ITEM_TOOLTIP => "подсказка предмета",
        STEP_TEXT_TOOLTIP => "текстовая подсказка",
        STEP_SEARCH_TEXT => "набор в строке поиска",
        STEP_BOBBER => "чтение поплавка",
        STEP_STOCK => "наживка и ячейки",
        STEP_POTIONS => "зелья",
        STEP_ROD => "удочка в руке",
        STEP_LANG => "язык игры",
        STEP_SOUND => "звук квестовой рыбы",
        _ => "ничего",
    }
}

/// What the two threads are about.
#[derive(Debug, Clone, Copy, PartialEq, Eq, Structural)]
pub struct Marks {
    pub game: u8,
    pub worker: u8,
}

impl Marks {
    /// Both are about nothing.
    pub fn new() -> (r: Marks)
        ensures
            r == (Marks { game: STEP_NONE, worker: STEP_NONE }),
    {
        Marks { game: STEP_NONE, worker: STEP_NONE }
    }
}

/// A thread.
#[derive(Debug, Clone, Copy, PartialEq, Eq, Structural)]
pub enum Thread {
    /// The thread of the game.
    Game,
    Worker,
}

impl Marks {
    /// The marks with that of one thread changed.
    pub open spec fn with(self, thread: Thread, step: u8) -> Marks {
        match thread {
            Thread::Game => Marks { game: step, ..self },
            Thread::Worker => Marks { worker: step, ..self },
        }
    }
}

/// The mark that a step is under way, to be taken off when it is over.
#[derive(Debug)]
pub struct Step {
    pub thread: Thread,
}

impl Step {
    /// The thread of the game begins a step.
    pub fn game(marks: &mut Marks, step: u8) -> (r: Step)
        ensures
            *final(marks) == old(marks).with(Thread::Game, step),
            r.thread == Thread::Game,
    {
        marks.game = step;
        Step { thread: Thread::Game }
    }

    /// The worker begins a step.
    pub fn worker(marks: &mut Marks, step: u8) -> (r: Step)
        ensures
            *final(marks) == old(marks).with(Thread::Worker, step),
            r.thread == Thread::Worker,
    {
        marks.worker = step;
        Step { thread: Thread::Worker }
    }

    /// The step is over.
    pub fn finish(self, marks: &mut Marks)
        ensures
            *final(marks) == old(marks).with(self.thread, STEP_NONE),
    {
        match self.thread {
            Thread::Game => {
                marks.game = STEP_NONE;
            },
            Thread::Worker => {
                marks.worker = STEP_NONE;
            },
        }
    }
}

/// The trap itself.
#[derive(Debug, Clone, Copy, PartialEq, Eq, Structural)]
pub struct Trap {
    /// What the system gave for it, 0 where it is not set.
    pub handle: usize,
    /// How many crashes came by.
    pub logged: u32,
}

impl Trap {
    /// A trap that is not set.
    pub fn new() -> (r: Trap)
        ensures
            r == (Trap { handle: 0, logged: 0 }),
    {
        Trap { handle: 0, logged: 0 }
    }
}

impl Trap {
    /// Whether the trap still has to be set.
    pub open spec fn unset(self) -> bool {
        self.handle == 0
    }

    /// The trap when the system gave this for it.
    pub open spec fn set(self, handle: usize) -> Trap {
        if handle != 0 {
            Trap { handle, ..self }
        } else {
            self
        }
    }

    /// The trap that was given up, and what goes back to the system.
    pub open spec fn given_up(self) -> (Trap, Option<usize>) {
        (
            Trap { handle: 0, ..self },
            if self.handle == 0 {
                None
            } else {
                Some(self.handle)
            },
        )
    }

    /// The trap after an exception, and whether that is written down.
    pub open spec fn struck(self, code: u32) -> (Trap, bool) {
        if fatal(code) {
            (
                Trap { logged: crate::input::counted(self.logged), ..self },
                self.logged < MAX_LOGGED,
            )
        } else {
            (self, false)
        }
    }
}

/// Whether the trap still has to be set.
pub fn install(trap: &Trap) -> (r: bool)
    ensures
        r == (trap.handle == 0),
        r == trap.unset(),
{
    trap.handle == 0
}

/// Keeps what the system gave for the trap, and says whether it is set; 0 is what a
/// system gives that refuses.
pub fn installed(trap: &mut Trap, handle: usize) -> (r: bool)
    ensures
        r == (handle != 0),
        *final(trap) == if handle != 0 {
            Trap { handle, ..*old(trap) }
        } else {
            *old(trap)
        },
        *final(trap) == old(trap).set(handle),
{
    if handle == 0 {
        return false;
    }
    trap.handle = handle;
    true
}

/// Gives the trap up, and says what has to be given back to the system.
pub fn uninstall(trap: &mut Trap) -> (r: Option<usize>)
    ensures
        *final(trap) == (Trap { handle: 0, ..*old(trap) }),
        r == if old(trap).handle == 0 {
            None
        } else {
            Some(old(trap).handle)
        },
        (*final(trap), r) == old(trap).given_up(),
{
    let handle: usize = trap.handle;
    trap.handle = 0;
    if handle == 0 {
        None
    } else {
        Some(handle)
    }
}

/// Whether an exception kills the game without a word.
pub open spec fn fatal(code: u32) -> bool {
    code == ACCESS_VIOLATION || code == STACK_OVERFLOW || code == ILLEGAL_INSTRUCTION
}

/// Whether an exception is written down: only the first few of those that kill are.
pub fn catches(trap: &mut Trap, code: u32) -> (r: bool)
    ensures
        r == (fatal(code) && old(trap).logged < MAX_LOGGED),
        *final(trap) == if fatal(code) {
            Trap { logged: crate::input::counted(old(trap).logged), ..*old(trap) }
        } else {
            *old(trap)
        },
        (*final(trap), r) == old(trap).struck(code),
{
    if code != ACCESS_VIOLATION && code != STACK_OVERFLOW && code != ILLEGAL_INSTRUCTION {
        return false;
    }
    let before: u32 = trap.logged;
    trap.logged = crate::input::count(before);
    before < MAX_LOGGED
}

/// An exception.
#[derive(Debug, Clone, Copy, PartialEq, Eq, Structural)]
pub struct Exception {
    pub code: u32,
    pub address: usize,
    /// How many parameters it has.
    pub parameters: usize,
    /// The first two of them: the kind of access and its address.
    pub kind: usize,
    pub target: usize,
}

/// What a kind of access is called.
pub open spec fn access(kind: usize) -> Seq<char> {
    if kind == 0 {
        "чтение"@
    } else if kind == 1 {
        "запись"@
    } else if kind == 8 {
        "исполнение"@
    } else {
        "доступ"@
    }
}

/// An address in at least eight hexadecimal digits.
pub open spec fn hex(n: nat) -> Seq<char> {
    "0x"@ + crate::text::numeral(n, 16, 8)
}

/// What is known of the access where one was refused.
pub open spec fn detail(e: Exception) -> Seq<char> {
    if e.code == ACCESS_VIOLATION && e.parameters >= 2 {
        ", "@ + access(e.kind) + " по "@ + hex(e.target as nat)
    } else {
        Seq::empty()
    }
}

/// The line on a crash.
pub open spec fn report_line(e: Exception, module: Seq<char>, marks: Marks) -> Seq<char> {
    "ПАДЕНИЕ: код "@ + hex(e.code as nat) + " по адресу "@ + hex(e.address as nat) + " в "@
        + module + detail(e) + " | игровой поток: "@ + named(marks.game) + ", рабочий: "@ + named(
        marks.worker,
    )
}

fn push_hex(out: &mut String, n: u64)
    ensures
        final(out)@ == old(out)@ + hex(n as nat),
{
    out.append("0x");
    text::push_numeral(out, n, 16, 8);
    assert(out@ =~= old(out)@ + hex(n as nat));
}

/// Writes the line on a crash.
pub fn report(e: Exception, module: &str, marks: Marks) -> (r: String)
    ensures
        r@ == report_line(e, module@, marks),
{
    let mut info = String::new();
    if e.code == ACCESS_VIOLATION && e.parameters >= 2 {
        info.append(", ");
        assert(info@ =~= ", "@);
        info.append(
            match e.kind {
                0 => "чтение",
                1 => "запись",
                8 => "исполнение",
                _ => "доступ",
            },
        );
        info.append(" по ");
        push_hex(&mut info, e.target as u64);
    }
    let mut out = text::owned("ПАДЕНИЕ: код ");
    push_hex(&mut out, e.code as u64);
    out.append(" по адресу ");
    push_hex(&mut out, e.address as u64);
    out.append(" в ");
    out.append(module);
    out.append(info.as_str());
    out.append(" | игровой поток: ");
    out.append(step_name(marks.game));
    out.append(", рабочий: ");
    out.append(step_name(marks.worker));
    out
}

/// The name of the module that an address belongs to.
pub open spec fn module_name(in_module: bool, path: Option<Seq<char>>) -> Seq<char> {
    if !in_module {
        "вне модулей (JIT или куча)"@
    } else {
        match path {
            Some(p) => crate::text::last_part(p),
            None => "неизвестный модуль"@,
        }
    }
}

/// The name of the module that an address belongs to: `in_module` says whether it
/// belongs to one, and `path` is its file where that is known.
pub fn module_of(in_module: bool, path: Option<&str>) -> (r: String)
    ensures
        r@ == if !in_module {
            "вне модулей (JIT или куча)"@
        } else {
            match path {
                Some(p) => crate::text::last_part(p@),
                None => "неизвестный модуль"@,
            }
        },
        r@ == module_name(
            in_module,
            match path {
                Some(p) => Some(p@),
                None => None,
            },
        ),
{
    if !in_module {
        return text::owned("вне модулей (JIT или куча)");
    }
    match path {
        Some(p) => text::file_name(p),
        None => text::owned("неизвестный модуль"),
    }
}

/// The trap after some exceptions.
pub open spec fn after_all(trap: Trap, codes: Seq<u32>) -> Trap
    decreases codes.len(),
{
    if codes.len() == 0 {
        trap
    } else {
        let before = after_all(trap, codes.drop_last());
        if fatal(codes.last()) {
            Trap { logged: crate::input::counted(before.logged), ..before }
        } else {
            before
        }
    }
}

/// How many of some exceptions kill.
pub open spec fn fatal_among(codes: Seq<u32>) -> nat
    decreases codes.len(),
{
    if codes.len() == 0 {
        0
    } else {
        fatal_among(codes.drop_last()) + if fatal(codes.last()) {
            1nat
        } else {
            0
        }
    }
}

/// The log is not flooded: the trap counts exactly the exceptions that kill, as long as
/// they can be counted, and once there were enough of them it is full.
pub proof fn law_few_crashes_are_logged(codes: Seq<u32>)
    requires
        fatal_among(codes) < 0x1_0000_0000,
    ensures
        after_all(Trap { handle: 0, logged: 0 }, codes).logged == fatal_among(codes),
        (after_all(Trap { handle: 0, logged: 0 }, codes).logged < MAX_LOGGED) == (fatal_among(
            codes,
        ) < MAX_LOGGED),
    decreases codes.len(),
{
    if codes.len() > 0 {
        law_few_crashes_are_logged(codes.drop_last());
    }
}

/// A step that is over leaves the marks as they were before it, if its thread was about
/// nothing then; the other thread is none of its business.
pub proof fn law_steps_leave_no_mark(marks: Marks, thread: Thread, step: u8)
    ensures
        marks.with(thread, step).with(thread, STEP_NONE) == marks.with(thread, STEP_NONE),
        match thread {
            Thread::Game => marks.with(thread, step).worker == marks.worker,
            Thread::Worker => marks.with(thread, step).game == marks.game,
        },
{
}

} // verus!
