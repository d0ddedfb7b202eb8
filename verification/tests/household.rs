use piscatio::config::{Config, FilterMode, Found};
use piscatio::crash::{self, Exception, Marks, Step, Trap};
use piscatio::detour::{self, Detour, DetourStage};
use piscatio::lang::{self, Lang};
use piscatio::logging::{self, Sink, Time};
use piscatio::overlay::state::{Mark, Shared};
use piscatio::worker::{self, Connection, DetourLine, Event, KeyEdge, Task, Worker};

const MS: u64 = 1_000_000;
const START: u64 = 1_000 * MS;

#[test]
fn missing_and_broken_configurations_become_defaults() {
    let (config, save) = Config::load(Found::Missing);
    assert!(save);
    assert_eq!(config.filter_mode, FilterMode::Blacklist);
    assert_eq!(config.blacklist, vec![2337, 2338, 2339]);
    assert!(config.whitelist.is_empty());
    assert_eq!((config.jitter_min_ms, config.jitter_max_ms), (120, 480));
    assert_eq!(
        (config.hotkey_ui, config.hotkey_toggle, config.hotkey_unload),
        (0x2D, 0x23, 0x2E)
    );
    let (broken, save) = Config::load(Found::Broken);
    assert!(!save);
    assert_eq!(broken.blacklist, config.blacklist);
    let mut own = Config::default();
    own.whitelist = vec![2334];
    let (loaded, save) = Config::load(Found::Parsed(own));
    assert!(!save);
    assert_eq!(loaded.whitelist, vec![2334]);
}

#[test]
fn switches_of_the_panel_are_kept() {
    let mut config = Config::default();
    let mut shared = Shared::default();
    assert!(!config.keep(&mut shared));
    assert_eq!(config.blacklist, vec![2337, 2338, 2339]);
    shared.quick_stack = false;
    shared.auto_potions = true;
    shared.potions = [false, true, true];
    shared.pull_enemy_spawns = true;
    shared.whitelist_mode = true;
    for item in [2297, 2290, 2334, 2303] {
        shared.filter.insert(item, Mark::Allow);
    }
    for item in [2339, 2299] {
        shared.filter.insert(item, Mark::Deny);
    }
    shared.filter.insert(5, Mark::Neutral);
    shared.dirty = true;
    assert!(config.keep(&mut shared));
    assert!(!shared.dirty);
    assert_eq!(config.filter_mode, FilterMode::Whitelist);
    assert_eq!(config.whitelist, vec![2290, 2297, 2303, 2334]);
    assert_eq!(config.blacklist, vec![2299, 2339]);
    assert!(!config.quick_stack_when_full && config.auto_potions && config.pull_enemy_spawns);
    assert_eq!(config.potions, [false, true, true]);
    assert_eq!((config.jitter_min_ms, config.jitter_max_ms), (120, 480));
    assert_eq!((config.hotkey_ui, config.cursor_detour), (0x2D, true));
    assert!(!config.keep(&mut shared));

    let mut fresh = Shared::default();
    config.restore(&mut fresh);
    assert!(!fresh.quick_stack && fresh.auto_potions && fresh.pull_enemy_spawns);
    assert!(fresh.whitelist_mode);
    assert_eq!(fresh.potions, [false, true, true]);
    assert_eq!(fresh.filter.len(), 6);
    for item in [5, 2290, 2299, 2334, 2339, 9000] {
        assert_eq!(fresh.mark(item), shared.mark(item));
        assert_eq!(fresh.should_pull(item), shared.should_pull(item));
    }
    assert!(!fresh.dirty && !fresh.auto_fish);
}

#[test]
fn list_of_the_mode_decides() {
    let mut config = Config::default();
    config.whitelist = vec![2337, 2334];
    let mut shared = Shared::default();
    config.restore(&mut shared);
    assert_eq!(shared.mark(2337), Mark::Deny);
    assert!(!shared.should_pull(2337) && shared.should_pull(2334) && shared.should_pull(1));
    config.filter_mode = FilterMode::Whitelist;
    config.restore(&mut shared);
    assert_eq!(shared.mark(2337), Mark::Allow);
    assert_eq!(shared.mark(2338), Mark::Deny);
    assert!(shared.should_pull(2337) && shared.should_pull(2334) && !shared.should_pull(1));
}

#[test]
fn filter_mode_toggles() {
    assert_eq!(FilterMode::Blacklist.toggled(), FilterMode::Whitelist);
    assert_eq!(FilterMode::Whitelist.toggled(), FilterMode::Blacklist);
}

// ---------------------------------------------------------------------------
// Language
// ---------------------------------------------------------------------------

#[test]
fn language_is_russian_at_first() {
    let mut lang = Lang::new();
    assert!(lang::is_russian(&lang));
    assert_eq!(lang::t(&lang).bobber, "Поплавок");
    lang::set_russian(&mut lang, false);
    assert!(!lang::is_russian(&lang));
    assert_eq!(lang::t(&lang).bobber, "Bobber");
    assert_eq!(lang::t(&lang).chat_potion_used, "auto-used {}");
    assert_eq!(lang::RUSSIAN_ID, 6);
}

#[test]
fn row_labels_are_those_of_the_window() {
    assert_eq!(
        lang::en().row_labels(),
        [
            "Stack into nearby chests when full",
            "Hook enemies (Duke Fishron)",
            "Bobber",
            "Free slots",
            "Auto-drink potions",
            "Potions to use automatically:"
        ]
    );
    assert_eq!(lang::ru().row_labels()[4], "Автопитьё зелий");
}

#[test]
fn slots_are_filled_in_order() {
    assert_eq!(lang::fill(lang::ru().note_aim, &["640", "360"]), " (зафиксировано 640:360)");
    assert_eq!(lang::fill("{} сек.", &["1.5"]), "1.5 сек.");
    assert_eq!(lang::fill("{}{}", &["a"]), "a{}");
    assert_eq!(lang::fill("{}", &["{}", "b"]), "{}");
    assert_eq!(lang::fill("{{}}", &["x"]), "{x}");
    assert_eq!(lang::fill("{a} {", &["x"]), "{a} {");
    assert_eq!(lang::fill("{a}{{}{}", &["x", "y"]), "{a}{xy");
    assert_eq!(lang::fill("без слота", &["x", "y"]), "без слота");
    assert_eq!(lang::fill("{}", &[]), "{}");
    assert_eq!(lang::fill("", &["x"]), "");
    assert_eq!(lang::fill("a{", &["x"]), "a{");
    assert_eq!(lang::fill("я{}ю{}", &["1", "2", "3"]), "я1ю2");
}

// ---------------------------------------------------------------------------
// Log
// ---------------------------------------------------------------------------

fn time(milliseconds: u16) -> Time {
    Time { hour: 7, minute: 5, second: 59, milliseconds }
}

#[test]
fn log_lines_are_stamped() {
    assert_eq!(logging::stamp(time(3)), "07:05:59.003");
    let mut sink = Sink::new();
    assert_eq!(
        logging::init(&mut sink, true, time(12)),
        Some("[07:05:59.012] ---- piscatio start ----".to_string())
    );
    assert_eq!(
        logging::line(&mut sink, time(999), "привет"),
        Some("[07:05:59.999] привет".to_string())
    );
    assert_eq!(logging::tail(&sink, 1), vec!["[07:05:59.999] привет"]);
    assert_eq!(logging::tail(&sink, 10).len(), 2);
    assert!(logging::tail(&sink, 0).is_empty());
}

#[test]
fn log_without_a_file_keeps_its_lines() {
    let mut sink = Sink::new();
    assert_eq!(logging::init(&mut sink, false, time(1)), None);
    assert_eq!(logging::line(&mut sink, time(2), "x"), None);
    assert_eq!(logging::tail(&sink, 9).len(), 2);
    sink.poisoned = true;
    assert_eq!(logging::line(&mut sink, time(2), "y"), None);
    assert!(logging::tail(&sink, 9).is_empty());
}

#[test]
fn log_keeps_the_newest_lines() {
    let mut sink = Sink::new();
    for i in 0..300 {
        logging::line(&mut sink, time(0), &format!("{i}"));
    }
    let all = logging::tail(&sink, 1000);
    assert_eq!(all.len(), 256);
    assert_eq!(all[0], "[07:05:59.000] 44");
    assert_eq!(all[255], "[07:05:59.000] 299");
    assert_eq!(logging::tail(&sink, 2)[0], "[07:05:59.000] 298");
}

// ---------------------------------------------------------------------------
// Crashes
// ---------------------------------------------------------------------------

#[test]
fn steps_leave_no_mark() {
    let mut marks = Marks::new();
    let step = Step::game(&mut marks, crash::STEP_CHAT);
    let other = Step::worker(&mut marks, crash::STEP_BOBBER);
    assert_eq!((marks.game, marks.worker), (3, 7));
    step.finish(&mut marks);
    assert_eq!((marks.game, marks.worker), (0, 7));
    other.finish(&mut marks);
    assert_eq!(marks, Marks::new());
}

#[test]
fn steps_have_names() {
    assert_eq!(crash::step_name(crash::STEP_NONE), "ничего");
    assert_eq!(crash::step_name(crash::STEP_CLICK), "нажатие");
    assert_eq!(crash::step_name(crash::STEP_SOUND), "звук квестовой рыбы");
    assert_eq!(crash::step_name(200), "ничего");
}

#[test]
fn trap_is_set_once() {
    let mut trap = Trap::new();
    assert!(crash::install(&trap));
    assert!(!crash::installed(&mut trap, 0));
    assert!(crash::install(&trap));
    assert!(crash::installed(&mut trap, 77));
    assert!(!crash::install(&trap));
    assert_eq!(crash::uninstall(&mut trap), Some(77));
    assert_eq!(crash::uninstall(&mut trap), None);
}

#[test]
fn few_crashes_are_logged() {
    let mut trap = Trap::new();
    assert!(!crash::catches(&mut trap, 0xE043_4352));
    assert_eq!(trap.logged, 0);
    assert!(crash::catches(&mut trap, 0xC000_0005));
    assert!(crash::catches(&mut trap, 0xC000_00FD));
    assert!(crash::catches(&mut trap, 0xC000_001D));
    assert!(crash::catches(&mut trap, 0xC000_0005));
    assert!(!crash::catches(&mut trap, 0xC000_0005));
    assert_eq!(trap.logged, 5);
}

#[test]
fn crashes_are_described() {
    let mut e =
        Exception { code: 0xC000_0005, address: 0x6884_1234, parameters: 2, kind: 0, target: 0x10 };
    let marks = Marks { game: crash::STEP_CLICK, worker: crash::STEP_NONE };
    assert_eq!(
        crash::report(e, "clr.dll", marks),
        "ПАДЕНИЕ: код 0xC0000005 по адресу 0x68841234 в clr.dll, чтение по 0x00000010 \
         | игровой поток: нажатие, рабочий: ничего"
    );
    e.kind = 1;
    assert!(crash::report(e, "m", marks).contains("в m, запись по 0x00000010 |"));
    e.kind = 8;
    assert!(crash::report(e, "m", marks).contains(", исполнение по "));
    e.kind = 3;
    assert!(crash::report(e, "m", marks).contains(", доступ по "));
    e.parameters = 1;
    assert!(crash::report(e, "m", marks).contains(" в m | игровой поток"));
    e.code = crash::STACK_OVERFLOW;
    e.parameters = 2;
    assert!(crash::report(e, "m", marks).contains("код 0xC00000FD по адресу 0x68841234 в m |"));
    assert_eq!(crash::module_of(false, None), "вне модулей (JIT или куча)");
    assert_eq!(crash::module_of(true, None), "неизвестный модуль");
    assert_eq!(crash::module_of(true, Some("C:\\a\\clr.dll")), "clr.dll");
}

// ---------------------------------------------------------------------------
// Detour
// ---------------------------------------------------------------------------

#[test]
fn detour_works_while_it_is_set() {
    let mut d = Detour::new();
    let set = |d: &mut Detour, original: Option<usize>, done: bool| {
        let mut stage = detour::install(d, 500);
        loop {
            stage = match stage {
                DetourStage::Create { address } => detour::on_created(d, address, original),
                DetourStage::Enable { address } => detour::on_enabled(d, address, done),
                DetourStage::Over(_) => return detour::is_active(d),
            };
        }
    };
    assert!(!set(&mut d, None, true));
    assert!(!set(&mut d, Some(9), false));
    assert!(set(&mut d, Some(9), true));
    assert!(set(&mut d, None, false));
    detour::uninstall(&mut d);
    assert!(!detour::is_active(&d));
    assert!(!set(&mut d, None, true));
    assert!(set(&mut d, Some(9), true));
}

#[test]
fn detour_is_set_in_two_steps() {
    let mut d = Detour::new();
    assert!(!detour::is_active(&d));
    assert_eq!(detour::install(&mut d, 500), DetourStage::Create { address: 500 });
    assert_eq!(detour::on_created(&mut d, 500, Some(900)), DetourStage::Enable { address: 500 });
    assert!(!detour::is_active(&d));
    assert_eq!(detour::on_enabled(&mut d, 500, true), DetourStage::Over(true));
    assert!(detour::is_active(&d));
    assert_eq!(d, Detour { trampoline: 900, target: 500, installed: true, active: true });
    assert_eq!(detour::install(&mut d, 600), DetourStage::Over(true));
    assert_eq!(detour::uninstall(&mut d), Some(500));
    assert!(!detour::is_active(&d));
    assert_eq!(detour::uninstall(&mut d), None);
}

#[test]
fn detour_that_is_refused_can_be_tried_again() {
    let mut d = Detour::new();
    detour::install(&mut d, 500);
    assert_eq!(detour::on_created(&mut d, 500, None), DetourStage::Over(false));
    assert!(!d.installed);
    assert_eq!(detour::install(&mut d, 500), DetourStage::Create { address: 500 });
    detour::on_created(&mut d, 500, Some(9));
    assert_eq!(detour::on_enabled(&mut d, 500, false), DetourStage::Over(false));
    assert!(!d.installed && !d.active);
}

#[test]
fn first_bytes_are_written() {
    assert_eq!(detour::peek(0, &[]), "нет адреса");
    assert_eq!(detour::peek(1, &[0x55, 0x8B, 0x0C, 0]), "55 8B 0C 00 ");
}

// ---------------------------------------------------------------------------
// Worker
// ---------------------------------------------------------------------------

const QUIET: Event = Event::Keys { shutdown: false, unload: false, ui: false, toggle: false };

fn worker() -> Worker {
    let mut w = Worker::new(&Config::default(), true, START);
    assert_eq!(w.task, Task::InstallOverlay);
    w.tell(Event::Done, START);
    assert_eq!(w.task, Task::ShowFirst);
    w.tell(Event::Done, START);
    assert_eq!(w.task, Task::ReadKeys);
    w
}

fn attached() -> Worker {
    let mut w = worker();
    w.tell(QUIET, START);
    assert_eq!(w.task, Task::Attach { verbose: true });
    w.tell(Event::Attached(true), START);
    assert_eq!(w.task, Task::Unthrottle);
    w.tell(Event::Done, START);
    assert_eq!(w.task, Task::FindMethod);
    w.tell(Event::Method(Some(500)), START);
    assert_eq!(w.task, Task::SetDetour { address: 500 });
    w.tell(Event::Detour(true), START);
    w
}

#[test]
fn keys_count_when_they_go_down() {
    let mut key = KeyEdge::new(0x26);
    assert_eq!(key.vk, 0x26);
    assert!(!key.pressed(false));
    assert!(key.pressed(true));
    assert!(!key.pressed(true));
    assert!(!key.pressed(false));
    assert!(key.pressed(true));
}

#[test]
fn a_round_with_the_game() {
    let mut w = attached();
    assert!(w.attached);
    assert_eq!(w.connection, Connection::Connected);
    assert_eq!(w.detour_line, DetourLine::InPlace);
    assert_eq!(w.task, Task::Tick);
    w.tell(Event::Done, START + 1);
    assert_eq!(w.task, Task::ShowTick);
    w.tell(Event::Done, START + 2);
    assert_eq!(w.task, Task::Report);
    w.tell(Event::Done, START + 3);
    assert_eq!(w.task, Task::Sleep);
    w.tell(Event::Done, START + 30 * MS);
    w.tell(QUIET, START + 119 * MS);
    assert_eq!(w.task, Task::Sleep);
    w.tell(Event::Done, START + 120 * MS);
    w.tell(QUIET, START + 120 * MS);
    assert_eq!(w.task, Task::Tick);
    w.tell(Event::Done, START + 121 * MS);
    w.tell(Event::Done, START + 122 * MS);
    assert_eq!(w.task, Task::Sleep);
}

#[test]
fn unload_works_at_any_time() {
    let mut w = worker();
    w.gave_up = true;
    w.tell(Event::Keys { shutdown: false, unload: true, ui: true, toggle: true }, START);
    assert_eq!(w.task, Task::Stop);
    assert!(w.unload && w.show_ui);
    let mut w = attached();
    w.task = Task::ReadKeys;
    w.tell(Event::Keys { shutdown: true, unload: false, ui: false, toggle: false }, START);
    assert_eq!(w.task, Task::Stop);
    assert!(!w.unload);
}

#[test]
fn panel_and_automaton_are_switched() {
    let mut w = worker();
    w.tell(Event::Keys { shutdown: false, unload: false, ui: true, toggle: true }, START);
    assert!(!w.show_ui);
    assert_eq!(w.task, Task::Toggle);
    w.tell(Event::Done, START);
    assert_eq!(w.task, Task::ShowToggle);
    w.tell(Event::Done, START);
    assert_eq!(w.task, Task::Attach { verbose: true });
}

#[test]
fn search_comes_to_an_end() {
    let mut w = worker();
    let mut now = START;
    let mut verbose = Vec::new();
    for _ in 0..200 {
        w.tell(QUIET, now);
        if let Task::Attach { verbose: told } = w.task {
            if told {
                verbose.push(w.attempts);
            }
            w.tell(Event::Attached(false), now);
        }
        assert_eq!(w.task, Task::Sleep);
        w.tell(Event::Done, now);
        now += 375 * MS;
    }
    assert_eq!(w.attempts, 40);
    assert!(w.gave_up && !w.attached);
    assert_eq!(w.connection, Connection::NotFound);
    assert_eq!(verbose, vec![1, 10, 20, 30, 40]);
}

#[test]
fn detour_may_be_refused() {
    let mut w = attached();
    w.attached = false;
    w.task = Task::SetDetour { address: 5 };
    w.tell(Event::Detour(false), START);
    assert_eq!(w.detour_line, DetourLine::Refused);
    assert!(w.attached);
    let mut w = worker();
    w.unthrottle = false;
    w.tell(QUIET, START);
    w.tell(Event::Attached(true), START);
    assert_eq!(w.task, Task::FindMethod);
    w.tell(Event::Method(None), START);
    assert_eq!(w.detour_line, DetourLine::NoAddress);
    assert!(w.attached);
}

#[test]
fn events_of_other_tasks_change_nothing() {
    let mut w = worker();
    let before = w;
    w.tell(Event::Detour(true), START);
    w.tell(Event::Done, START);
    assert_eq!(w, before);
}

#[test]
fn lines_are_published() {
    let config = Config::default();
    let w = attached();
    let lines = worker::publish(&config, &w, Some("v1.4.5.6"), "работает", "в воде", "наживка 5");
    assert_eq!(lines.len(), 9);
    let at = |i: usize| (lines[i].0.as_str(), lines[i].1.as_str());
    assert_eq!(at(0), ("состояние", "подключено, v1.4.5.6"));
    assert_eq!(at(1), ("детур", "установлен"));
    assert_eq!(at(2), ("рыбалка", "работает"));
    assert_eq!(at(3), ("фильтр", "чёрный список (3)"));
    assert_eq!(at(4), ("сундуки", "разложить при заполнении"));
    assert_eq!(at(5), ("поплавок", "в воде"));
    assert_eq!(at(6), ("запасы", "наживка 5"));
    assert_eq!(at(7), ("", ""));
    assert_eq!(at(8), ("", "Insert — панель, End — старт/стоп, Delete — выгрузка"));
    let mut config = Config::default();
    config.filter_mode = FilterMode::Whitelist;
    config.quick_stack_when_full = false;
    let lines = worker::publish(&config, &worker(), None, "", "", "");
    assert_eq!(lines[0].1, "ищу игру");
    assert_eq!(lines[1].1, "не установлен");
    assert_eq!(lines[3].1, "белый список (0)");
    assert_eq!(lines[4].1, "не трогать");
    let lines = worker::publish(&config, &attached(), None, "", "", "");
    assert_eq!(lines[0].1, "подключено");
}
