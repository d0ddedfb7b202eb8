//! What the rounds of the worker, the log and the detour come to.

use vstd::prelude::*;

use crate::config::{ConfigView, FilterMode};
use crate::detour::{Detour, DetourStage};
use crate::logging::Time;
use crate::worker::{Connection, DetourLine, Event, KeyEdge, Task, Worker};

verus! {

/// What a round comes to once keys and game are looked after: a turn of the automaton
/// every 0.12 seconds and a line on the status every ten, both only in a game that was
/// found; otherwise the worker sleeps.
pub open spec fn ends(before: Worker, now: u64, tick: bool, after: Worker) -> bool {
    let ticks = tick && before.attached && now >= before.tick_due;
    let reports = !ticks && before.attached && now >= before.status_due;
    &&& after.task is Tick <==> ticks
    &&& after.task is Report <==> reports
    &&& after.task is Sleep <==> !ticks && !reports
    &&& after.tick_due == if ticks {
        now + 120_000_000
    } else {
        before.tick_due as int
    }
    &&& after.status_due == if reports {
        now + 10_000_000_000
    } else {
        before.status_due as int
    }
    &&& after == (Worker {
        task: after.task,
        tick_due: after.tick_due,
        status_due: after.status_due,
        ..before
    })
}

/// The game is looked for every 0.75 seconds until it is found or the worker gave up; the
/// attempt is counted, and the log is told of the first and of every tenth.
pub open spec fn searches(before: Worker, now: u64, after: Worker) -> bool {
    let tries = !before.attached && !before.gave_up && now >= before.next_attach;
    &&& tries ==> after.attempts == before.attempts + 1 && after == (Worker {
        attempts: after.attempts,
        task: Task::Attach { verbose: after.attempts == 1 || after.attempts % 10 == 0 },
        ..before
    })
    &&& !tries ==> ends(before, now, true, after)
}

/// A round begins with the keys. Whoever wants the worker to leave gets his will at once;
/// so does the key that sends it away, in the moment it goes down; only that key says that
/// the companion is to be unloaded. The key of the panel shows or hides it in the moment
/// it goes down, the key of the automaton turns it. A key that stays down counts once.
pub proof fn law_keys_come_first(
    w: Worker,
    shutdown: bool,
    unload: bool,
    ui: bool,
    toggle: bool,
    now: u64,
)
    requires
        w.task is ReadKeys,
        crate::worker::time_fits(now),
        w.wf(),
    ensures
        ({
            let x = w.after(Event::Keys { shutdown, unload, ui, toggle }, now);
            let sent_away = !shutdown && unload && !w.key_unload.was_down;
            let stays = !shutdown && !sent_away;
            let turned = stays && toggle && !w.key_toggle.was_down;
            let seen = Worker {
                key_unload: KeyEdge { was_down: unload, ..w.key_unload },
                key_ui: KeyEdge { was_down: ui, ..w.key_ui },
                key_toggle: KeyEdge { was_down: toggle, ..w.key_toggle },
                show_ui: if ui && !w.key_ui.was_down {
                    !w.show_ui
                } else {
                    w.show_ui
                },
                ..w
            };
            &&& shutdown ==> x == (Worker { task: Task::Stop, ..w })
            &&& sent_away ==> x == (Worker {
                task: Task::Stop,
                unload: true,
                key_unload: KeyEdge { was_down: true, ..w.key_unload },
                ..w
            })
            &&& turned ==> x == (Worker { task: Task::Toggle, ..seen })
            &&& stays && !turned ==> searches(seen, now, x)
        }),
{
}

/// The order of the tasks: the overlay, the panel, the keys, round after round; after the
/// key of the automaton the panel, then the search; after a turn the panel, then the
/// status.
pub proof fn law_tasks_follow_each_other(w: Worker, now: u64)
    requires
        crate::worker::time_fits(now),
        w.wf(),
    ensures
        w.task is InstallOverlay ==> w.after(Event::Done, now) == (Worker {
            task: Task::ShowFirst,
            ..w
        }),
        w.task is ShowFirst ==> w.after(Event::Done, now) == (Worker { task: Task::ReadKeys, ..w }),
        w.task is Toggle ==> w.after(Event::Done, now) == (Worker { task: Task::ShowToggle, ..w }),
        w.task is ShowToggle ==> searches(w, now, w.after(Event::Done, now)),
        w.task is Tick ==> w.after(Event::Done, now) == (Worker { task: Task::ShowTick, ..w }),
        w.task is ShowTick ==> ends(w, now, false, w.after(Event::Done, now)),
        w.task is Report ==> w.after(Event::Done, now) == (Worker { task: Task::Sleep, ..w }),
        w.task is Sleep ==> w.after(Event::Done, now) == (Worker { task: Task::ReadKeys, ..w }),
        w.task is Stop ==> w.after(Event::Done, now) == w,
{
}

/// A game that was found is set up: it may run at full speed in the background where that
/// is wanted, its method is looked for, and the detour is set where that was found. Then
/// it counts as found, whatever became of the detour, and the panel tells. A game that was
/// not found is looked for again 0.75 seconds later, forty times in all.
pub proof fn law_game_is_set_up(
    w: Worker,
    address: Option<usize>,
    found: bool,
    set: bool,
    now: u64,
)
    requires
        crate::worker::time_fits(now),
        w.wf(),
    ensures
        w.task is Attach && found ==> w.after(Event::Attached(true), now) == (Worker {
            connection: Connection::Connected,
            task: if w.unthrottle {
                Task::Unthrottle
            } else {
                Task::FindMethod
            },
            ..w
        }),
        w.task is Attach ==> ends(
            Worker {
                gave_up: w.gave_up || w.attempts >= 40,
                connection: if w.attempts >= 40 {
                    Connection::NotFound
                } else {
                    w.connection
                },
                next_attach: (now + 750_000_000) as u64,
                ..w
            },
            now,
            true,
            w.after(Event::Attached(false), now),
        ),
        w.task is Unthrottle ==> w.after(Event::Done, now) == (Worker {
            task: Task::FindMethod,
            ..w
        }),
        w.task is FindMethod && address is Some ==> w.after(Event::Method(address), now) == (
        Worker { task: Task::SetDetour { address: address->0 }, ..w }),
        w.task is FindMethod ==> ends(
            Worker { attached: true, detour_line: DetourLine::NoAddress, ..w },
            now,
            true,
            w.after(Event::Method(None), now),
        ),
        w.task is SetDetour ==> ends(
            Worker {
                attached: true,
                detour_line: if set {
                    DetourLine::InPlace
                } else {
                    DetourLine::Refused
                },
                ..w
            },
            now,
            true,
            w.after(Event::Detour(set), now),
        ),
{
}

/// A worker begins with the keys of the configuration, with nothing found and nothing
/// tried, and everything due.
pub proof fn law_worker_starts_blank(c: ConfigView, show_ui: bool, now: u64)
    ensures
        ({
            let w = Worker::initial(c, show_ui, now);
            &&& w.key_ui == (KeyEdge { vk: c.hotkey_ui as i32, was_down: false })
            &&& w.key_toggle == (KeyEdge { vk: c.hotkey_toggle as i32, was_down: false })
            &&& w.key_unload == (KeyEdge { vk: c.hotkey_unload as i32, was_down: false })
            &&& w.unthrottle == c.disable_inactive_throttle
            &&& !w.attached && w.attempts == 0 && !w.gave_up && !w.unload
            &&& w.next_attach == now && w.tick_due == now && w.status_due == now
            &&& w.connection is Searching && w.detour_line is Missing
            &&& w.show_ui == show_ui && w.task is InstallOverlay
        }),
{
}

/// The lines of the panel, each with its label: the game with its version, the detour, the
/// automaton, the list in use with its length, the chests, the bobber, the stock, and the
/// keys.
pub proof fn law_panel_lines(
    c: ConfigView,
    w: Worker,
    version: Option<Seq<char>>,
    status: Seq<char>,
    bobber: Seq<char>,
    stock: Seq<char>,
)
    ensures
        ({
            let l = crate::worker::panel_lines(c, w, version, status, bobber, stock);
            let black = "чёрный список ("@ + crate::text::numeral(c.blacklist.len(), 10, 1) + ")"@;
            let white = "белый список ("@ + crate::text::numeral(c.whitelist.len(), 10, 1) + ")"@;
            &&& l.len() == 9
            &&& l[0].0 == "состояние"@ && l[1].0 == "детур"@ && l[2] == ("рыбалка"@, status)
            &&& l[3].0 == "фильтр"@ && l[4].0 == "сундуки"@ && l[5] == ("поплавок"@, bobber)
            &&& l[6] == ("запасы"@, stock)
            &&& w.connection is Searching ==> l[0].1 == "ищу игру"@
            &&& w.connection is NotFound ==> l[0].1 == "игра не найдена"@
            &&& w.connection is Connected && version is None ==> l[0].1 == "подключено"@
            &&& w.connection is Connected && version is Some ==> l[0].1 == "подключено, "@
                + version->0
            &&& w.detour_line is Missing ==> l[1].1 == "не установлен"@
            &&& w.detour_line is NoAddress ==> l[1].1 == "адрес не получен"@
            &&& w.detour_line is InPlace ==> l[1].1 == "установлен"@
            &&& w.detour_line is Refused ==> l[1].1 == "не встал"@
            &&& c.filter_mode is Blacklist ==> l[3].1 == black
            &&& c.filter_mode is Whitelist ==> l[3].1 == white
            &&& c.quick_stack_when_full ==> l[4].1 == "разложить при заполнении"@
            &&& !c.quick_stack_when_full ==> l[4].1 == "не трогать"@
            &&& l[7].0.len() == 0 && l[7].1.len() == 0 && l[8].0.len() == 0
            &&& l[8].1 == "Insert — панель, End — старт/стоп, Delete — выгрузка"@
        }),
{
}

/// A line of the log is its time of day, to the millisecond, and its message; of the lines
/// that are kept there are 256 at most, the newest last, and the last ones asked for are
/// the newest.
pub proof fn law_log_lines(
    t: Time,
    msg: Seq<char>,
    lines: Seq<Seq<char>>,
    line: Seq<char>,
    n: nat,
)
    requires
        lines.len() <= 256,
    ensures
        crate::logging::entry(t, msg) == "["@ + (crate::text::numeral(t.hour as nat, 10, 2) + ":"@
            + crate::text::numeral(t.minute as nat, 10, 2) + ":"@ + crate::text::numeral(
            t.second as nat,
            10,
            2,
        ) + "."@ + crate::text::numeral(t.milliseconds as nat, 10, 3)) + "] "@ + msg,
        ({
            let all = crate::logging::appended(lines, line);
            &&& all.len() <= 256 && all.len() > 0 && all.last() == line
            &&& lines.len() < 256 ==> all.drop_last() == lines
            &&& lines.len() == 256 ==> all.drop_last() == lines.drop_first()
        }),
        ({
            let last = crate::logging::last_of(lines, n);
            &&& last.len() == if n < lines.len() {
                n
            } else {
                lines.len()
            }
            &&& forall|i: int|
                0 <= i < last.len() ==> #[trigger] last[i] == lines[lines.len() - last.len() + i]
        }),
{
    assert(lines.push(line).drop_last() =~= lines);
    assert(lines.drop_first().push(line).drop_last() =~= lines.drop_first());
}

/// Setting the detour: where it was prepared the way back is kept and it is switched on;
/// where it was switched on it works on that address. Where either fails it may be tried
/// again. Giving it up leaves nothing that works.
pub proof fn law_detour_steps(d: Detour, address: usize, original: Option<usize>, done: bool)
    ensures
        ({
            let (c, stage) = d.created(address, original);
            &&& original matches Some(way) ==> c == (Detour { trampoline: way, ..d }) && stage == (
            DetourStage::Enable { address })
            &&& original is None ==> c == (Detour { installed: false, ..d }) && stage
                == DetourStage::Over(false)
        }),
        ({
            let (c, stage) = d.enabled(address, done);
            &&& done ==> c == (Detour { target: address, active: true, ..d }) && stage
                == DetourStage::Over(true)
            &&& !done ==> c == (Detour { installed: false, ..d }) && stage == DetourStage::Over(
                false,
            )
        }),
        ({
            let c = crate::detour::gone(d);
            &&& d.installed ==> !c.installed && !c.active && c.target == 0 && c.trampoline
                == d.trampoline
            &&& !d.installed ==> c == d
        }),
{
}

/// The first bytes of a method are two digits and a blank each, in their order.
pub proof fn law_bytes_are_dumped(bytes: Seq<u8>, last: u8)
    ensures
        crate::detour::dump(Seq::empty()) == Seq::<char>::empty(),
        crate::detour::dump(bytes.push(last)) == crate::detour::dump(bytes)
            + crate::text::numeral(last as nat, 16, 2) + " "@,
{
    assert(bytes.push(last).drop_last() =~= bytes);
}

} // verus!
