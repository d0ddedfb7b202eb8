use piscatio::config::Config;
use piscatio::fishing::bite::{announce, display_name, Announcement, Bite};
use piscatio::fishing::idle::{Idle, Stock};
use piscatio::fishing::tick::{Event, Potion, Request, Stage};
use piscatio::fishing::{has_time, Fishing, Stop};
use piscatio::game::Bobber;
use piscatio::input;
use piscatio::input::Mailbox;
use piscatio::overlay::state::{Facts, Mark, Store};
use piscatio::single::Single;

const MS: u64 = 1_000_000;
const START: u64 = 10_000 * MS;
const POTIONS: [Potion; 3] = [
    Potion { item: 2354, buff: 121 },
    Potion { item: 2355, buff: 122 },
    Potion { item: 2356, buff: 123 },
];

/// A game that the automaton plays in.
struct Pond {
    fishing: Fishing,
    store: Store,
    mail: Mailbox,
    config: Config,
    detour: bool,
    rod: Option<bool>,
    stock: Option<Stock>,
    buff: Option<bool>,
    found: Option<i32>,
    bobber: Option<Option<Bobber>>,
    mouse: Option<(i32, i32)>,
    waits: Vec<u64>,
    told: Vec<String>,
    drunk: Vec<i32>,
    asked: Vec<String>,
}

fn single(x: f32) -> Single {
    Single { bits: x.to_bits() }
}

fn floating() -> Option<Option<Bobber>> {
    Some(Some(Bobber { index: 12, ai0: single(0.0), ai1: single(0.0), local_ai1: single(100.0) }))
}

fn biting(catch: i32) -> Option<Option<Bobber>> {
    Some(Some(Bobber {
        index: 12,
        ai0: single(0.0),
        ai1: single(-20.0),
        local_ai1: single(catch as f32),
    }))
}

impl Pond {
    fn new() -> Pond {
        let mut store = Store::new();
        store.open().unwrap().auto_fish = true;
        Pond {
            fishing: Fishing::new(START),
            store,
            mail: Mailbox::new(),
            config: Config::default(),
            detour: true,
            rod: Some(true),
            stock: Some(Stock { bait: 20, free: 30, missing: [false, true, false] }),
            buff: Some(true),
            found: None,
            bobber: Some(None),
            mouse: Some((640, 360)),
            waits: Vec::new(),
            told: Vec::new(),
            drunk: Vec::new(),
            asked: Vec::new(),
        }
    }

    fn tick(&mut self, now: u64) {
        let mut stage = Stage::Start;
        let mut event = Event::Begin;
        loop {
            assert!(self.fishing.admits(
                &mut self.store,
                &self.mail,
                &self.config,
                self.detour,
                stage,
                &event,
                now,
            ));
            let (next, request) = self.fishing.tick(
                &mut self.store,
                &mut self.mail,
                &self.config,
                &POTIONS,
                self.detour,
                stage,
                event,
                now,
            );
            stage = next;
            self.asked.push(format!("{request:?}"));
            event = match request {
                Request::Rod => Event::Rod(self.rod),
                Request::Stock => Event::Stock(self.stock),
                Request::Player => Event::Player(self.stock.is_some()),
                Request::Buff(_) => Event::Buff(self.buff),
                Request::Find(_) => Event::Found(self.found),
                Request::Drink { buff, .. } => {
                    self.drunk.push(buff);
                    Event::Drunk(true)
                }
                Request::Bobber(_) => Event::Bobber(self.bobber),
                Request::Mouse => Event::Mouse(self.mouse),
                Request::Measure(nanos) => {
                    self.waits.push(nanos);
                    Event::Done
                }
                Request::Crate(item) => Event::Crate(item == 2334),
                Request::Enemy(id) => {
                    Event::Enemy(if id == 370 { Some("Duke Fishron".to_string()) } else { None })
                }
                Request::Tell(a) => {
                    self.told.push(format!("{a:?}"));
                    Event::Done
                }
                Request::Average => Event::Average(single(1.5)),
                Request::Done => return,
            };
        }
    }

    /// The press that waits is applied.
    fn apply(&mut self) {
        self.mail.command = input::Command::Idle;
    }

    fn line(&mut self) -> String {
        self.store.open().unwrap().status.fishing.clone()
    }

    /// The first cast of the player at (640, 360), and a second tick.
    fn cast_by_hand(&mut self) -> u64 {
        self.tick(START);
        self.bobber = floating();
        self.tick(START + 120 * MS);
        START + 240 * MS
    }
}

#[test]
fn first_cast_is_the_players() {
    let mut pond = Pond::new();
    pond.tick(START);
    assert_eq!(pond.line(), "жду первый заброс вручную");
    assert!(!input::busy(&pond.mail));
    pond.bobber = floating();
    pond.tick(START + 120 * MS);
    assert_eq!(pond.fishing.aim, Some((640, 360)));
    assert_eq!(pond.line(), "работает | забросов 0 уловов 0 пропущено 0");
    let shared = pond.store.open().unwrap();
    assert!(shared.status.bobber_cast);
    assert_eq!(shared.status.aim, Some((640, 360)));
    assert_eq!(shared.stats.average_bite, single(1.5));
}

#[test]
fn old_bobber_teaches_no_aim() {
    let mut pond = Pond::new();
    pond.bobber = floating();
    pond.tick(START);
    assert_eq!(pond.fishing.aim, None);
    assert_eq!(pond.line(), "поплавок уже был в воде — жду нового заброса");
    assert!(pond.store.open().unwrap().status.recast);
    pond.bobber = Some(None);
    pond.tick(START + 120 * MS);
    pond.bobber = floating();
    pond.mouse = Some((10, 20));
    pond.tick(START + 240 * MS);
    assert_eq!(pond.fishing.aim, Some((10, 20)));
}

#[test]
fn aim_outside_the_screen_is_none() {
    let mut pond = Pond::new();
    pond.tick(START);
    pond.bobber = floating();
    pond.mouse = Some((-1, 20));
    pond.tick(START + 120 * MS);
    assert_eq!(pond.fishing.aim, None);
    pond.mouse = None;
    pond.tick(START + 240 * MS);
    assert_eq!(pond.fishing.aim, None);
}

#[test]
fn a_bite_is_pulled_and_the_rod_cast_again() {
    let mut pond = Pond::new();
    let now = pond.cast_by_hand();
    pond.bobber = biting(2297);
    pond.tick(now);
    assert!(input::busy(&pond.mail));
    assert_eq!(pond.mail.aim_x, -1);
    assert_eq!(pond.fishing.pulls, 1);
    assert_eq!(pond.waits, vec![120 * MS]);
    assert_eq!(pond.fishing.crates, 0);
    assert!(pond.told.is_empty());
    let pause = pond.fishing.next_action - now;
    assert!(pause >= 470 * MS && pause < 830 * MS);
    pond.apply();
    pond.bobber = Some(None);
    pond.tick(now + 120 * MS);
    assert!(!input::busy(&pond.mail));
    pond.tick(now + pause);
    assert!(input::busy(&pond.mail));
    assert_eq!((pond.mail.aim_x, pond.mail.aim_y), (640, 360));
    assert_eq!(pond.fishing.casts, 1);
    assert_eq!(pond.line(), "работает | забросов 1 уловов 1 пропущено 0");
}

#[test]
fn a_bite_is_decided_once() {
    let mut pond = Pond::new();
    let now = pond.cast_by_hand();
    pond.bobber = biting(2297);
    pond.tick(now);
    pond.apply();
    pond.tick(now + 2_000 * MS);
    assert_eq!(pond.fishing.pulls, 1);
    assert!(!input::busy(&pond.mail));
    pond.bobber = floating();
    pond.tick(now + 2_120 * MS);
    pond.bobber = biting(2297);
    pond.tick(now + 2_240 * MS);
    assert_eq!(pond.fishing.pulls, 2);
}

#[test]
fn filtered_catch_is_left_and_told() {
    let mut pond = Pond::new();
    let now = pond.cast_by_hand();
    let shared = pond.store.open().unwrap();
    shared.filter.insert(2337, Mark::Deny);
    shared.facts.insert(2337, Facts { display: "Old Shoe".to_string(), quest: false });
    pond.bobber = biting(2337);
    pond.tick(now);
    assert_eq!(pond.fishing.skips, 1);
    assert!(!input::busy(&pond.mail));
    assert_eq!(
        pond.told,
        vec!["Skipped { item: 2337, name: \"Old Shoe\", whitelist: false }"]
    );
    assert_eq!(pond.waits, vec![120 * MS]);
}

#[test]
fn quest_fish_and_crates_are_noticed() {
    let mut pond = Pond::new();
    let now = pond.cast_by_hand();
    let shared = pond.store.open().unwrap();
    shared.facts.insert(2334, Facts { display: "Crate".to_string(), quest: true });
    pond.bobber = biting(2334);
    pond.tick(now);
    assert_eq!(pond.fishing.crates, 1);
    assert_eq!(pond.told, vec!["Quest { item: 2334, name: \"Crate\" }"]);
    let stats = pond.store.open().unwrap().stats;
    assert_eq!((stats.caught, stats.crates, stats.skipped), (1, 1, 0));
}

#[test]
fn enemies_are_left_unless_wanted() {
    let mut pond = Pond::new();
    let now = pond.cast_by_hand();
    pond.bobber = biting(-370);
    pond.tick(now);
    assert_eq!(pond.fishing.skips, 1);
    assert_eq!(pond.told, vec!["Spawn { name: \"Duke Fishron\", hooked: false }"]);
    pond.store.open().unwrap().pull_enemy_spawns = true;
    pond.bobber = biting(-586);
    pond.tick(now + 120 * MS);
    assert_eq!(pond.fishing.pulls, 1);
    assert_eq!(pond.told[1], "Spawn { name: \"#586\", hooked: true }");
    assert!(pond.fishing.next_action > now + 120 * MS);
}

#[test]
fn no_bait_stops() {
    let mut pond = Pond::new();
    let now = pond.cast_by_hand();
    pond.bobber = Some(None);
    pond.stock = Some(Stock { bait: 0, free: 3, missing: [false; 3] });
    pond.tick(now);
    assert_eq!(pond.fishing.stopped, Some(Stop::NoBait));
    assert_eq!(pond.line(), "стоп: наживка кончилась");
    assert!(!input::busy(&pond.mail));
    pond.stock = Some(Stock { bait: 50, free: 3, missing: [false; 3] });
    pond.tick(now + 5_000 * MS);
    assert!(!input::busy(&pond.mail));
}

#[test]
fn full_inventory_is_stacked_three_times() {
    let mut pond = Pond::new();
    let mut now = pond.cast_by_hand();
    pond.bobber = Some(None);
    pond.stock = Some(Stock { bait: 9, free: 0, missing: [false; 3] });
    for tries in 1..=3 {
        pond.tick(now);
        assert!(input::quick_stack_pending(&pond.mail));
        assert_eq!(pond.fishing.stack_tries, tries);
        assert_eq!(pond.fishing.next_action, now + 700 * MS);
        input::cancel_quick_stack(&mut pond.mail);
        now += 700 * MS;
    }
    pond.tick(now);
    assert_eq!(pond.fishing.stopped, Some(Stop::NoChests));
    assert_eq!(pond.line(), "стоп: инвентарь полон, сундуков рядом нет");
}

#[test]
fn full_inventory_without_stacking_is_fished_on() {
    let mut pond = Pond::new();
    let now = pond.cast_by_hand();
    pond.store.open().unwrap().quick_stack = false;
    pond.bobber = Some(None);
    pond.stock = Some(Stock { bait: 9, free: 0, missing: [false; 3] });
    pond.tick(now);
    assert_eq!(pond.fishing.stopped, None);
    assert_eq!(pond.fishing.casts, 1);
    assert!(input::busy(&pond.mail));
    assert!(!input::quick_stack_pending(&pond.mail));
}

#[test]
fn stacking_that_is_not_done_is_withdrawn() {
    let mut pond = Pond::new();
    let now = pond.cast_by_hand();
    pond.bobber = Some(None);
    pond.stock = Some(Stock { bait: 9, free: 0, missing: [false; 3] });
    pond.tick(now);
    pond.tick(now + 1_200 * MS);
    assert!(input::quick_stack_pending(&pond.mail));
    pond.tick(now + 1_201 * MS);
    assert!(!input::quick_stack_pending(&pond.mail));
    assert_eq!(pond.fishing.stack_sent, None);
}

#[test]
fn lost_press_is_called_off() {
    let mut pond = Pond::new();
    let now = pond.cast_by_hand();
    pond.bobber = Some(None);
    pond.tick(now);
    assert!(input::busy(&pond.mail));
    pond.tick(now + 1_200 * MS);
    assert!(input::busy(&pond.mail));
    let failures = pond.mail.failures;
    pond.bobber = floating();
    pond.tick(now + 1_201 * MS);
    assert!(!input::busy(&pond.mail));
    assert_eq!(pond.mail.failures, failures + 1);
}

#[test]
fn without_a_rod_fishing_is_off() {
    let mut pond = Pond::new();
    let now = pond.cast_by_hand();
    pond.rod = Some(false);
    pond.tick(now);
    let shared = pond.store.open().unwrap();
    assert!(!shared.auto_fish && shared.dirty);
    assert_eq!(pond.line(), "выключена");
    pond.bobber = Some(None);
    pond.tick(now + 120 * MS);
    assert_eq!(pond.fishing.aim, None);
}

#[test]
fn rod_is_not_looked_at_before_the_first_cast() {
    let mut pond = Pond::new();
    pond.rod = Some(false);
    pond.tick(START);
    assert!(pond.store.open().unwrap().auto_fish);
    assert!(!pond.asked.contains(&"Rod".to_string()));
}

#[test]
fn without_a_detour_nothing_is_pressed() {
    let mut pond = Pond::new();
    pond.detour = false;
    let now = pond.cast_by_hand();
    pond.bobber = biting(2297);
    pond.tick(now);
    assert!(!input::busy(&pond.mail));
    assert_eq!(pond.fishing.pulls, 0);
    assert!(pond.fishing.warned_no_detour);
    assert_eq!(pond.line(), "детур не стоит — нажимать некому");
}

#[test]
fn potions_are_drunk_where_they_are_wanted() {
    let mut pond = Pond::new();
    pond.store.open().unwrap().auto_potions = true;
    pond.buff = Some(false);
    pond.found = Some(17);
    pond.tick(START);
    assert_eq!(pond.drunk, vec![121, 123]);
    assert_eq!(pond.store.open().unwrap().stats.potions, 2);
    assert_eq!(pond.told[0], "Potion { item: 2354, name: \"#2354\" }");
    pond.tick(START + 2_999 * MS);
    assert_eq!(pond.drunk.len(), 2);
    pond.buff = None;
    pond.tick(START + 3_000 * MS);
    assert_eq!(pond.drunk.len(), 2);
    pond.buff = Some(false);
    pond.found = None;
    pond.tick(START + 6_000 * MS);
    assert_eq!(pond.drunk.len(), 2);
}

#[test]
fn unreadable_stock_is_shown_as_unknown() {
    let mut pond = Pond::new();
    pond.stock = None;
    pond.tick(START);
    let status = &pond.store.open().unwrap().status;
    assert_eq!((status.bait, status.free_slots), (-1, -1));
    assert_eq!(status.potions_missing, [false; 3]);
    pond.stock = Some(Stock { bait: 4, free: 5, missing: [true, false, true] });
    pond.tick(START + 300 * MS);
    let status = &pond.store.open().unwrap().status;
    assert_eq!((status.bait, status.free_slots), (4, 5));
    assert_eq!(status.potions_missing, [true, false, true]);
}

#[test]
fn unreadable_water_changes_nothing() {
    let mut pond = Pond::new();
    let now = pond.cast_by_hand();
    pond.bobber = None;
    pond.tick(now);
    assert!(!input::busy(&pond.mail));
    assert_eq!(pond.fishing.hint, Some(12));
    assert!(pond.store.open().unwrap().status.bobber_cast);
}

#[test]
fn session_time_starts_anew() {
    let mut pond = Pond::new();
    pond.tick(START);
    pond.tick(START + 5_500 * MS);
    assert_eq!(pond.fishing.session_seconds, 5);
    pond.store.open().unwrap().auto_fish = false;
    pond.tick(START + 9_000 * MS);
    assert_eq!(pond.fishing.session_seconds, 5);
    pond.store.open().unwrap().auto_fish = true;
    pond.tick(START + 10_000 * MS);
    assert_eq!(pond.fishing.session_seconds, 0);
}

#[test]
fn poisoned_state_takes_everything_and_casts_nothing() {
    let mut pond = Pond::new();
    let now = pond.cast_by_hand();
    pond.store.poisoned = true;
    let (what, _) = pond.fishing.on_bite(&mut pond.store, &mut pond.mail, true, 2337, now);
    assert_eq!(what, Bite::Off);
    pond.bobber = Some(None);
    pond.tick(now);
    assert!(!input::busy(&pond.mail));
}

#[test]
fn idle_outcomes_are_told_apart() {
    let mut pond = Pond::new();
    let now = pond.cast_by_hand();
    let mut idle = |stock: (i32, i32), pond: &mut Pond| {
        let mut fishing = Fishing::new(START);
        fishing.aim = Some((1, 2));
        fishing.on_idle(&mut pond.store, &mut pond.mail, &pond.config, pond.detour, stock, now)
    };
    assert_eq!(idle((-1, 5), &mut pond), Idle::Unknown);
    assert_eq!(idle((0, 5), &mut pond), Idle::NoBait);
    assert_eq!(idle((3, 0), &mut pond), Idle::Stacking);
    assert_eq!(idle((3, 0), &mut pond), Idle::Pending);
    pond.detour = false;
    assert_eq!(idle((3, 1), &mut pond), Idle::Uncast);
    pond.detour = true;
    assert_eq!(idle((3, 1), &mut pond), Idle::Cast);
    pond.store.open().unwrap().quick_stack = false;
    assert_eq!(idle((3, 0), &mut pond), Idle::Cast);
}

#[test]
fn full_counters_stop_only_what_counts() {
    let mut pond = Pond::new();
    let now = pond.cast_by_hand();
    let bite = Event::Bobber(biting(2334));
    let admits = |pond: &mut Pond, event: &Event| {
        let stage = match event {
            Event::Bobber(_) => Stage::Bobber,
            Event::Crate(_) => Stage::Crate { rolled: 2334 },
            _ => Stage::IdleStock,
        };
        pond.fishing.admits(
            &mut pond.store,
            &pond.mail,
            &pond.config,
            pond.detour,
            stage,
            event,
            now,
        )
    };
    let stock = |free| Event::Stock(Some(Stock { bait: 9, free, missing: [false; 3] }));
    pond.fishing.crates = u32::MAX;
    pond.fishing.casts = u32::MAX;
    assert!(admits(&mut pond, &bite));
    assert!(!admits(&mut pond, &Event::Crate(true)));
    assert!(admits(&mut pond, &Event::Crate(false)));
    assert!(!admits(&mut pond, &stock(5)));
    assert!(admits(&mut pond, &stock(0)));
    pond.fishing.pulls = u32::MAX;
    assert!(!admits(&mut pond, &bite));
    pond.store.open().unwrap().filter.insert(2334, Mark::Deny);
    assert!(admits(&mut pond, &bite));
    pond.fishing.skips = u32::MAX;
    assert!(!admits(&mut pond, &bite));
    pond.fishing.last_bite = 2334;
    assert!(admits(&mut pond, &bite));
}

#[test]
fn lowest_catch_matters_only_where_it_bites_anew() {
    let mut pond = Pond::new();
    let now = pond.cast_by_hand();
    let lowest = i32::MIN;
    let admits = |pond: &mut Pond, event: &Event| {
        pond.fishing.admits(
            &mut pond.store,
            &pond.mail,
            &pond.config,
            pond.detour,
            Stage::Bobber,
            event,
            now,
        )
    };
    let idle = Bobber { ai1: single(0.0), ..biting(lowest).unwrap().unwrap() };
    assert!(!admits(&mut pond, &Event::Bobber(biting(lowest))));
    assert!(admits(&mut pond, &Event::Bobber(Some(Some(idle)))));
    pond.fishing.last_bite = i32::MIN;
    assert!(admits(&mut pond, &Event::Bobber(biting(lowest))));
    pond.bobber = biting(lowest);
    pond.tick(now);
    assert_eq!(pond.fishing.skips + pond.fishing.pulls, 0);
}

#[test]
fn greatest_pause_is_the_greatest_number() {
    let mut fishing = Fishing::new(START);
    let mut config = Config::default();
    config.jitter_min_ms = u64::MAX - 350;
    config.jitter_max_ms = 0;
    assert_eq!(fishing.jitter(&config, 350), u64::MAX);
    config.jitter_min_ms = 0;
    config.jitter_max_ms = 1;
    assert!(has_time(&config, 700, u64::MAX - 700 * MS));
    assert!(!has_time(&config, 700, u64::MAX - 700 * MS + 1));
}

#[test]
fn pauses_stay_in_their_spread() {
    let mut fishing = Fishing::new(START);
    let config = Config::default();
    let first = fishing.jitter(&config, 350);
    let mut x: u32 = 0x9E37_79B9;
    x ^= x << 13;
    x ^= x >> 17;
    x ^= x << 5;
    let span = config.jitter_max_ms - config.jitter_min_ms;
    assert_eq!(first, 350 + config.jitter_min_ms + x as u64 % span);
    for _ in 0..1000 {
        let pause = fishing.jitter(&config, 700);
        assert!(pause >= 700 + config.jitter_min_ms);
        assert!(pause < 700 + config.jitter_max_ms);
        assert_ne!(fishing.rng, 0);
    }
    let mut config = Config::default();
    config.jitter_min_ms = 90;
    config.jitter_max_ms = 10;
    assert_eq!(fishing.jitter(&config, 1), 91);
}

#[test]
fn names_fall_back_to_numbers() {
    let mut store = Store::new();
    assert_eq!(display_name(&mut store, 2297), "#2297");
    store
        .open()
        .unwrap()
        .facts
        .insert(2297, Facts { display: "Окунь".to_string(), quest: false });
    assert_eq!(display_name(&mut store, 2297), "Окунь");
    assert!(announce(&mut store, 2297, true, None).is_none());
    match announce(&mut store, -4, false, None) {
        Some(Announcement::Spawn { name, hooked }) => {
            assert_eq!(name, "#4");
            assert!(!hooked);
        }
        _ => panic!("not told"),
    }
    store.poisoned = true;
    assert_eq!(display_name(&mut store, 2297), "#2297");
}
