//! The rounds of the worker thread: hotkeys, the way into the game, the automaton and
//! the lines of the panel.
//!
//! The hotkeys come first in every round and do not depend on the game: the player can
//! always send the companion away. What a round has to do is one [`Task`] after the
//! other; when a task is done the worker is told, and says what comes next.

use vstd::prelude::*;

use crate::config::{Config, ConfigView, FilterMode};
use crate::text;

verus! {

/// The pause between two rounds, in nanoseconds.
pub const POLL_INTERVAL: u64 = 30_000_000;

/// The time between two turns of the automaton. To read the game is dear.
pub const TICK_INTERVAL: u64 = 120_000_000;

/// The time between two lines on the status.
pub const STATUS_INTERVAL: u64 = 10_000_000_000;

/// The time between two attempts to find the game, which may still be starting.
pub const ATTACH_RETRY: u64 = 750_000_000;

/// How often the game is looked for before the worker gives up.
pub const ATTACH_ATTEMPTS: u32 = 40;

/// A key of which only the moment counts in which it goes down.
#[derive(Debug, Clone, Copy, PartialEq, Eq, Structural)]
pub struct KeyEdge {
    pub vk: i32,
    pub was_down: bool,
}

impl KeyEdge {
    /// A key that is up.
    pub fn new(vk: u16) -> (r: KeyEdge)
        ensures
            r == (KeyEdge { vk: vk as i32, was_down: false }),
    {
        KeyEdge { vk: vk as i32, was_down: false }
    }

    /// Whether the key has just gone down.
    pub open spec fn goes_down(self, down: bool) -> bool {
        down && !self.was_down
    }

    /// The key after a look at it.
    pub open spec fn seen(self, down: bool) -> KeyEdge {
        KeyEdge { was_down: down, ..self }
    }

    /// Whether the key has just gone down.
    pub fn pressed(&mut self, down: bool) -> (r: bool)
        ensures
            r == (down && !old(self).was_down),
            r == old(self).goes_down(down),
            *final(self) == old(self).seen(down),
    {
        let edge = down && !self.was_down;
        self.was_down = down;
        edge
    }
}

/// How it stands with the game.
#[derive(Debug, Clone, Copy, PartialEq, Eq, Structural)]
pub enum Connection {
    Searching,
    Connected,
    /// The worker gave up.
    NotFound,
}

/// How it stands with the detour.
#[derive(Debug, Clone, Copy, PartialEq, Eq, Structural)]
pub enum DetourLine {
    Missing,
    NoAddress,
    InPlace,
    Refused,
}

/// What the worker has to do.
#[derive(Debug, Clone, Copy, PartialEq, Eq, Structural)]
pub enum Task {
    InstallOverlay,
    /// Renew the lines of the panel, before the first round.
    ShowFirst,
    /// Look at the hotkeys.
    ReadKeys,
    /// Switch the automaton on or off.
    Toggle,
    /// Renew the lines of the panel after that.
    ShowToggle,
    /// Look for the game; `verbose` says whether the log is told.
    Attach { verbose: bool },
    /// Have the game run at full speed in the background.
    Unthrottle,
    /// Find the address of `Player.ItemCheck`.
    FindMethod,
    /// Set the detour there.
    SetDetour { address: usize },
    /// A turn of the automaton.
    Tick,
    /// Renew the lines of the panel after that.
    ShowTick,
    /// Write a line on the status.
    Report,
    /// Wait for the next round.
    Sleep,
    /// Leave.
    Stop,
}

/// What came of a task.
#[derive(Debug, Clone, Copy, PartialEq, Eq, Structural)]
pub enum Event {
    Done,
    /// Which hotkeys are down, and whether somebody else wants the worker to leave.
    Keys { shutdown: bool, unload: bool, ui: bool, toggle: bool },
    /// The game was found, or it was not.
    Attached(bool),
    Method(Option<usize>),
    Detour(bool),
}

/// The worker between two tasks.
#[derive(Debug, Clone, Copy, PartialEq, Eq, Structural)]
pub struct Worker {
    pub key_ui: KeyEdge,
    pub key_toggle: KeyEdge,
    pub key_unload: KeyEdge,
    /// Whether the game is to run at full speed in the background.
    pub unthrottle: bool,
    pub attached: bool,
    pub attempts: u32,
    pub next_attach: u64,
    pub gave_up: bool,
    pub connection: Connection,
    pub detour_line: DetourLine,
    /// When the next turn of the automaton is due.
    pub tick_due: u64,
    /// When the next line on the status is due.
    pub status_due: u64,
    pub show_ui: bool,
    /// The player wants the companion to go.
    pub unload: bool,
    pub task: Task,
}

/// Whether a clock can be read on from here.
pub open spec fn time_fits(now: u64) -> bool {
    now + STATUS_INTERVAL <= u64::MAX
}

/// Whether a clock can be read on from here.
pub fn has_time(now: u64) -> (r: bool)
    ensures
        r == time_fits(now),
{
    now <= u64::MAX - STATUS_INTERVAL
}

/// Whether the log is told of an attempt: of the first, and of every tenth.
pub open spec fn verbose(attempts: u32) -> bool {
    attempts == 1 || attempts % 10 == 0
}

impl Worker {
    pub open spec fn initial(config: ConfigView, show_ui: bool, now: u64) -> Worker {
        Worker {
            key_ui: KeyEdge { vk: config.hotkey_ui as i32, was_down: false },
            key_toggle: KeyEdge { vk: config.hotkey_toggle as i32, was_down: false },
            key_unload: KeyEdge { vk: config.hotkey_unload as i32, was_down: false },
            unthrottle: config.disable_inactive_throttle,
            attached: false,
            attempts: 0,
            next_attach: now,
            gave_up: false,
            connection: Connection::Searching,
            detour_line: DetourLine::Missing,
            tick_due: now,
            status_due: now,
            show_ui,
            unload: false,
            task: Task::InstallOverlay,
        }
    }

    /// A worker before its first task. The first turn and the first line on the status
    /// are due at once.
    pub fn new(config: &Config, show_ui: bool, now: u64) -> (r: Worker)
        ensures
            r == Worker::initial(config@, show_ui, now),
            r.wf(),
    {
        Worker {
            key_ui: KeyEdge::new(config.hotkey_ui),
            key_toggle: KeyEdge::new(config.hotkey_toggle),
            key_unload: KeyEdge::new(config.hotkey_unload),
            unthrottle: config.disable_inactive_throttle,
            attached: false,
            attempts: 0,
            next_attach: now,
            gave_up: false,
            connection: Connection::Searching,
            detour_line: DetourLine::Missing,
            tick_due: now,
            status_due: now,
            show_ui,
            unload: false,
            task: Task::InstallOverlay,
        }
    }

    /// There are no more attempts than there may be, and none once they are used up.
    pub open spec fn wf(self) -> bool {
        &&& self.attempts <= ATTACH_ATTEMPTS
        &&& self.attempts == ATTACH_ATTEMPTS ==> self.gave_up || self.attached || self.attaching()
    }

    /// Whether an attempt is under way.
    pub open spec fn attaching(self) -> bool {
        self.task is Attach || self.task is Unthrottle || self.task is FindMethod
            || self.task is SetDetour
    }

    pub open spec fn with(self, task: Task) -> Worker {
        Worker { task, ..self }
    }

    /// The end of a round: a line on the status where one is due.
    pub open spec fn to_report(self, now: u64) -> Worker {
        if self.attached && now >= self.status_due {
            Worker { status_due: (now + STATUS_INTERVAL) as u64, ..self }.with(Task::Report)
        } else {
            self.with(Task::Sleep)
        }
    }

    /// A turn of the automaton where one is due.
    pub open spec fn to_tick(self, now: u64) -> Worker {
        if self.attached && now >= self.tick_due {
            Worker { tick_due: (now + TICK_INTERVAL) as u64, ..self }.with(Task::Tick)
        } else {
            self.to_report(now)
        }
    }

    /// An attempt to find the game where one is due.
    pub open spec fn to_attach(self, now: u64) -> Worker {
        if !self.attached && !self.gave_up && now >= self.next_attach {
            Worker { attempts: (self.attempts + 1) as u32, ..self }.with(
                Task::Attach { verbose: verbose((self.attempts + 1) as u32) },
            )
        } else {
            self.to_tick(now)
        }
    }

    /// The round after a look at the hotkeys. The one that sends the companion away is
    /// looked at first, and the others no more once it is pressed.
    pub open spec fn keyed(
        self,
        shutdown: bool,
        unload: bool,
        ui: bool,
        toggle: bool,
        now: u64,
    ) -> Worker {
        if shutdown {
            self.with(Task::Stop)
        } else if unload && !self.key_unload.was_down {
            Worker { key_unload: self.key_unload.seen(unload), unload: true, ..self }.with(
                Task::Stop,
            )
        } else {
            let next = self.looked(unload, ui, toggle);
            if toggle && !self.key_toggle.was_down {
                next.with(Task::Toggle)
            } else {
                next.to_attach(now)
            }
        }
    }

    /// The game was not found this time.
    pub open spec fn refused(self, now: u64) -> Worker {
        let last = self.attempts >= ATTACH_ATTEMPTS;
        Worker {
            gave_up: self.gave_up || last,
            connection: if last {
                Connection::NotFound
            } else {
                self.connection
            },
            next_attach: (now + ATTACH_RETRY) as u64,
            ..self
        }.to_tick(now)
    }

    /// The game was found and all is set up in it.
    pub open spec fn settled(self, detour_line: DetourLine, now: u64) -> Worker {
        Worker { attached: true, detour_line, ..self }.to_tick(now)
    }

    /// What comes next.
    pub open spec fn after(self, event: Event, now: u64) -> Worker {
        match (self.task, event) {
            (Task::InstallOverlay, Event::Done) => self.with(Task::ShowFirst),
            (Task::ShowFirst, Event::Done) => self.with(Task::ReadKeys),
            (Task::ReadKeys, Event::Keys { shutdown, unload, ui, toggle }) => self.keyed(
                shutdown,
                unload,
                ui,
                toggle,
                now,
            ),
            (Task::Toggle, Event::Done) => self.with(Task::ShowToggle),
            (Task::ShowToggle, Event::Done) => self.to_attach(now),
            (Task::Attach { .. }, Event::Attached(found)) => if found {
                Worker { connection: Connection::Connected, ..self }.with(
                    if self.unthrottle {
                        Task::Unthrottle
                    } else {
                        Task::FindMethod
                    },
                )
            } else {
                self.refused(now)
            },
            (Task::Unthrottle, Event::Done) => self.with(Task::FindMethod),
            (Task::FindMethod, Event::Method(address)) => match address {
                Some(address) => self.with(Task::SetDetour { address }),
                None => self.settled(DetourLine::NoAddress, now),
            },
            (Task::SetDetour { .. }, Event::Detour(set)) => self.settled(
                if set {
                    DetourLine::InPlace
                } else {
                    DetourLine::Refused
                },
                now,
            ),
            (Task::Tick, Event::Done) => self.with(Task::ShowTick),
            (Task::ShowTick, Event::Done) => self.to_report(now),
            (Task::Report, Event::Done) => self.with(Task::Sleep),
            (Task::Sleep, Event::Done) => self.with(Task::ReadKeys),
            _ => self,
        }
    }

    fn go_to_report(&mut self, now: u64)
        requires
            time_fits(now),
        ensures
            *final(self) == old(self).to_report(now),
    {
        if self.attached && now >= self.status_due {
            self.status_due = now + STATUS_INTERVAL;
            self.task = Task::Report;
        } else {
            self.task = Task::Sleep;
        }
    }

    fn go_to_tick(&mut self, now: u64)
        requires
            time_fits(now),
        ensures
            *final(self) == old(self).to_tick(now),
    {
        if self.attached && now >= self.tick_due {
            self.tick_due = now + TICK_INTERVAL;
            self.task = Task::Tick;
        } else {
            self.go_to_report(now);
        }
    }

    fn go_to_attach(&mut self, now: u64)
        requires
            time_fits(now),
            old(self).wf(),
            !old(self).attaching(),
        ensures
            *final(self) == old(self).to_attach(now),
            final(self).wf(),
    {
        if !self.attached && !self.gave_up && now >= self.next_attach {
            self.attempts = self.attempts + 1;
            self.task = Task::Attach {
                verbose: self.attempts == 1 || self.attempts % 10 == 0,
            };
        } else {
            self.go_to_tick(now);
        }
    }

    /// The worker after a look at the hotkeys that do not send it away.
    pub open spec fn looked(self, unload: bool, ui: bool, toggle: bool) -> Worker {
        Worker {
            key_unload: self.key_unload.seen(unload),
            key_ui: self.key_ui.seen(ui),
            key_toggle: self.key_toggle.seen(toggle),
            show_ui: self.show_ui != (ui && !self.key_ui.was_down),
            ..self
        }
    }

    fn look(&mut self, unload: bool, ui: bool, toggle: bool) -> (r: bool)
        ensures
            *final(self) == old(self).looked(unload, ui, toggle),
            r == (toggle && !old(self).key_toggle.was_down),
    {
        self.key_unload.was_down = unload;
        if self.key_ui.pressed(ui) {
            self.show_ui = !self.show_ui;
        }
        self.key_toggle.pressed(toggle)
    }

    fn read_keys(&mut self, shutdown: bool, unload: bool, ui: bool, toggle: bool, now: u64)
        requires
            time_fits(now),
            old(self).wf(),
            old(self).task is ReadKeys,
        ensures
            *final(self) == old(self).keyed(shutdown, unload, ui, toggle, now),
            final(self).wf(),
    {
        if shutdown {
            self.task = Task::Stop;
        } else if unload && !self.key_unload.was_down {
            self.key_unload.was_down = true;
            self.unload = true;
            self.task = Task::Stop;
        } else if self.look(unload, ui, toggle) {
            self.task = Task::Toggle;
        } else {
            self.go_to_attach(now);
        }
    }

    /// The task is done, at the time `now`, and this came of it. What does not belong to
    /// the task changes nothing.
    pub fn tell(&mut self, event: Event, now: u64)
        requires
            time_fits(now),
            old(self).wf(),
        ensures
            *final(self) == old(self).after(event, now),
            final(self).wf(),
    {
        match (self.task, event) {
            (Task::InstallOverlay, Event::Done) => {
                self.task = Task::ShowFirst;
            },
            (Task::ShowFirst, Event::Done) => {
                self.task = Task::ReadKeys;
            },
            (Task::ReadKeys, Event::Keys { shutdown, unload, ui, toggle }) => {
                self.read_keys(shutdown, unload, ui, toggle, now);
            },
            (Task::Toggle, Event::Done) => {
                self.task = Task::ShowToggle;
            },
            (Task::ShowToggle, Event::Done) => {
                self.go_to_attach(now);
            },
            (Task::Attach { .. }, Event::Attached(found)) => {
                if found {
                    self.connection = Connection::Connected;
                    self.task = if self.unthrottle {
                        Task::Unthrottle
                    } else {
                        Task::FindMethod
                    };
                } else {
                    if self.attempts >= ATTACH_ATTEMPTS {
                        self.gave_up = true;
                        self.connection = Connection::NotFound;
                    }
                    self.next_attach = now + ATTACH_RETRY;
                    self.go_to_tick(now);
                }
            },
            (Task::Unthrottle, Event::Done) => {
                self.task = Task::FindMethod;
            },
            (Task::FindMethod, Event::Method(address)) => {
                match address {
                    Some(address) => {
                        self.task = Task::SetDetour { address };
                    },
                    None => {
                        self.attached = true;
                        self.detour_line = DetourLine::NoAddress;
                        self.go_to_tick(now);
                    },
                }
            },
            (Task::SetDetour { .. }, Event::Detour(set)) => {
                self.attached = true;
                self.detour_line = if set {
                    DetourLine::InPlace
                } else {
                    DetourLine::Refused
                };
                self.go_to_tick(now);
            },
            (Task::Tick, Event::Done) => {
                self.task = Task::ShowTick;
            },
            (Task::ShowTick, Event::Done) => {
                self.go_to_report(now);
            },
            (Task::Report, Event::Done) => {
                self.task = Task::Sleep;
            },
            (Task::Sleep, Event::Done) => {
                self.task = Task::ReadKeys;
            },
            _ => {},
        }
    }
}

// ---------------------------------------------------------------------------
// The lines of the panel
// ---------------------------------------------------------------------------

/// How it stands with the game, in words.
pub open spec fn connection_words(c: Connection, version: Option<Seq<char>>) -> Seq<char> {
    match c {
        Connection::Searching => "ищу игру"@,
        Connection::Connected => match version {
            Some(v) => "подключено, "@ + v,
            None => "подключено"@,
        },
        Connection::NotFound => "игра не найдена"@,
    }
}

/// How it stands with the detour, in words.
pub open spec fn detour_words(d: DetourLine) -> Seq<char> {
    match d {
        DetourLine::Missing => "не установлен"@,
        DetourLine::NoAddress => "адрес не получен"@,
        DetourLine::InPlace => "установлен"@,
        DetourLine::Refused => "не встал"@,
    }
}

/// What the filter does, in words.
pub open spec fn filter_words(config: ConfigView) -> Seq<char> {
    match config.filter_mode {
        FilterMode::Blacklist => "чёрный список ("@ + crate::text::decimal(config.blacklist.len())
            + ")"@,
        FilterMode::Whitelist => "белый список ("@ + crate::text::decimal(config.whitelist.len())
            + ")"@,
    }
}

/// What becomes of a full inventory, in words.
pub open spec fn chest_words(config: ConfigView) -> Seq<char> {
    if config.quick_stack_when_full {
        "разложить при заполнении"@
    } else {
        "не трогать"@
    }
}

/// The lines of the panel.
pub open spec fn panel_lines(
    config: ConfigView,
    worker: Worker,
    version: Option<Seq<char>>,
    status: Seq<char>,
    bobber: Seq<char>,
    stock: Seq<char>,
) -> Seq<(Seq<char>, Seq<char>)> {
    seq![
        ("состояние"@, connection_words(worker.connection, version)),
        ("детур"@, detour_words(worker.detour_line)),
        ("рыбалка"@, status),
        ("фильтр"@, filter_words(config)),
        ("сундуки"@, chest_words(config)),
        ("поплавок"@, bobber),
        ("запасы"@, stock),
        (Seq::empty(), Seq::empty()),
        (Seq::empty(), "Insert — панель, End — старт/стоп, Delete — выгрузка"@),
    ]
}

fn filter_text(config: &Config) -> (r: String)
    ensures
        r@ == filter_words(config@),
{
    let (head, n): (&str, usize) = match config.filter_mode {
        FilterMode::Blacklist => ("чёрный список (", config.blacklist.len()),
        FilterMode::Whitelist => ("белый список (", config.whitelist.len()),
    };
    let mut out = text::owned(head);
    text::push_numeral(&mut out, n as u64, 10, 1);
    out.append(")");
    out
}

fn connection_text(c: Connection, version: Option<&str>) -> (r: String)
    ensures
        r@ == connection_words(
            c,
            match version {
                Some(v) => Some(v@),
                None => None,
            },
        ),
{
    match c {
        Connection::Searching => text::owned("ищу игру"),
        Connection::Connected => match version {
            Some(v) => {
                let mut out = text::owned("подключено, ");
                out.append(v);
                out
            },
            None => text::owned("подключено"),
        },
        Connection::NotFound => text::owned("игра не найдена"),
    }
}

/// Writes the lines of the panel: how it stands with the game, whose version is given
/// where it is known, with the detour, the automaton, the filter, the chests, the bobber
/// and the stock, and which keys there are.
pub fn publish(
    config: &Config,
    worker: &Worker,
    version: Option<&str>,
    status: &str,
    bobber: &str,
    stock: &str,
) -> (r: Vec<(String, String)>)
    ensures
        crate::overlay::pairs(r@) == panel_lines(
            config@,
            *worker,
            match version {
                Some(v) => Some(v@),
                None => None,
            },
            status@,
            bobber@,
            stock@,
        ),
{
    let detour = match worker.detour_line {
        DetourLine::Missing => "не установлен",
        DetourLine::NoAddress => "адрес не получен",
        DetourLine::InPlace => "установлен",
        DetourLine::Refused => "не встал",
    };
    let chests = if config.quick_stack_when_full {
        "разложить при заполнении"
    } else {
        "не трогать"
    };
    let r = vec![
        (text::owned("состояние"), connection_text(worker.connection, version)),
        (text::owned("детур"), text::owned(detour)),
        (text::owned("рыбалка"), text::owned(status)),
        (text::owned("фильтр"), filter_text(config)),
        (text::owned("сундуки"), text::owned(chests)),
        (text::owned("поплавок"), text::owned(bobber)),
        (text::owned("запасы"), text::owned(stock)),
        (String::new(), String::new()),
        (
            String::new(),
            text::owned("Insert — панель, End — старт/стоп, Delete — выгрузка"),
        ),
    ];
    assert(crate::overlay::pairs(r@) =~= panel_lines(
        config@,
        *worker,
        match version {
            Some(v) => Some(v@),
            None => None,
        },
        status@,
        bobber@,
        stock@,
    ));
    r
}

// ---------------------------------------------------------------------------
// Laws
// ---------------------------------------------------------------------------

/// Whatever became of the game, the key that sends the companion away does so in the
/// round in which it goes down.
pub proof fn law_unload_always_works(w: Worker, ui: bool, toggle: bool, now: u64)
    requires
        w.task is ReadKeys,
        !w.key_unload.was_down,
    ensures
        ({
            let next = w.after(Event::Keys { shutdown: false, unload: true, ui, toggle }, now);
            next.task is Stop && next.unload
        }),
{
}

/// A key that is held counts once: the panel is not flipped again while the key stays
/// down.
pub proof fn law_held_keys_count_once(w: Worker, unload: bool, toggle: bool, now: u64)
    requires
        w.task is ReadKeys,
        w.key_ui.was_down,
    ensures
        w.after(Event::Keys { shutdown: false, unload, ui: true, toggle }, now).show_ui
            == w.show_ui,
{
}

/// Two turns of the automaton are at least their interval apart: a turn that begins puts
/// the next one off, and nothing but a turn moves that time.
pub proof fn law_turns_keep_their_distance(w: Worker, event: Event, now: u64)
    requires
        time_fits(now),
    ensures
        ({
            let next = w.after(event, now);
            if next.task is Tick && !(w.task is Tick) {
                next.tick_due == now + TICK_INTERVAL && now >= w.tick_due && next.attached
            } else {
                next.tick_due == w.tick_due
            }
        }),
{
}

/// There are no more attempts to find the game than there may be; when the last one fails
/// the worker gives up for good, and never looks for the game again.
pub proof fn law_search_comes_to_an_end(w: Worker, event: Event, now: u64)
    requires
        time_fits(now),
        w.wf(),
    ensures
        w.after(event, now).attempts <= ATTACH_ATTEMPTS,
        w.task is Attach && event == Event::Attached(false) && w.attempts == ATTACH_ATTEMPTS
            ==> w.after(event, now).gave_up && w.after(event, now).connection
            == Connection::NotFound,
        w.gave_up && !w.attaching() ==> w.after(event, now).gave_up && !w.after(
            event,
            now,
        ).attaching(),
{
}

/// How many tasks of a round may still follow before the worker rests or leaves.
pub open spec fn ahead(task: Task) -> nat {
    match task {
        Task::InstallOverlay => 12,
        Task::ShowFirst => 11,
        Task::ReadKeys => 10,
        Task::Toggle => 9,
        Task::ShowToggle => 8,
        Task::Attach { .. } => 7,
        Task::Unthrottle => 6,
        Task::FindMethod => 5,
        Task::SetDetour { .. } => 4,
        Task::Tick => 3,
        Task::ShowTick => 2,
        Task::Report => 1,
        Task::Sleep => 0,
        Task::Stop => 0,
    }
}

/// Whether an event belongs to a task.
pub open spec fn answers(task: Task, event: Event) -> bool {
    match task {
        Task::ReadKeys => event is Keys,
        Task::Attach { .. } => event is Attached,
        Task::FindMethod => event is Method,
        Task::SetDetour { .. } => event is Detour,
        Task::Stop => false,
        _ => event == Event::Done,
    }
}

/// Every round comes to its end: each answer brings the worker nearer to its rest, where
/// a new round begins, or to its leave.
pub proof fn law_rounds_end(w: Worker, event: Event, now: u64)
    requires
        answers(w.task, event),
    ensures
        if w.task is Sleep {
            w.after(event, now).task is ReadKeys
        } else {
            ahead(w.after(event, now).task) < ahead(w.task)
        },
{
}

} // verus!
