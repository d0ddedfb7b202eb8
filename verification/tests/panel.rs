use piscatio::fishing::tick::Potion;
use piscatio::fishing::Fishing;
use piscatio::lang::{en, ru, set_russian, t, Lang};
use piscatio::overlay::state::{with, Mark, Shared, Store};
use piscatio::overlay::ui::{
    build, caption, places, write_out, Align, Color, Input, Label, Op, Place, Span, Tab, UiState,
    Words,
};
use piscatio::single::Single;

const POTIONS: [Potion; 3] = [
    Potion { item: 2354, buff: 121 },
    Potion { item: 2355, buff: 122 },
    Potion { item: 2356, buff: 123 },
];

fn click(place: Place) -> Input {
    Input { under: vec![place], clicked: true }
}

fn hover(place: Place) -> Input {
    Input { under: vec![place], clicked: false }
}

fn nowhere() -> Input {
    Input { under: Vec::new(), clicked: true }
}

#[test]
fn marks_go_round() {
    assert_eq!(Mark::Neutral.next(), Mark::Allow);
    assert_eq!(Mark::Allow.next(), Mark::Deny);
    assert_eq!(Mark::Deny.next(), Mark::Neutral);
}

#[test]
fn filter_decides_on_catches() {
    let mut shared = Shared::default();
    assert!(shared.should_pull(2297));
    shared.whitelist_mode = true;
    assert!(!shared.should_pull(2297));
    shared.cycle(2297);
    assert!(shared.should_pull(2297));
    shared.whitelist_mode = false;
    shared.cycle(2297);
    assert!(!shared.should_pull(2297));
    shared.cycle(2297);
    assert_eq!(shared.mark(2297), Mark::Neutral);
    assert!(shared.filter.is_empty());
    assert!(!shared.should_pull(-370));
    shared.pull_enemy_spawns = true;
    assert!(shared.should_pull(-370));
    assert!(shared.dirty);
}

#[test]
fn shared_state_is_made_on_first_use() {
    let mut store = Store::new();
    assert!(store.slot.is_none());
    assert_eq!(with(&mut store, |s| s.quick_stack), Some(true));
    assert!(store.slot.is_some());
    with(&mut store, |s| s.auto_fish = true);
    assert_eq!(with(&mut store, |s| s.auto_fish), Some(true));
    assert_eq!(with(&mut store, |s| s.potions), Some([true, false, true]));
    store.poisoned = true;
    assert_eq!(with(&mut store, |s| s.auto_fish), None);
}

#[test]
fn folded_panel_shows_its_arrow_only() {
    let mut store = Store::new();
    let mut ui = UiState::default();
    assert!(ui.expanded);
    let frame = build(&mut store, &mut ui, &click(Place::Arrow), &POTIONS);
    assert!(!ui.expanded);
    assert!(frame.over_ui);
    assert_eq!(frame.ops.len(), 4);
    assert_eq!(
        frame.ops[2],
        Op::Text {
            place: Place::Arrow,
            span: Span::Whole,
            align: Align::Centre,
            words: Words::Label(Label::Fold),
            color: Color::Text
        }
    );
    assert_eq!(frame.ops[3], Op::Triangle { place: Place::Arrow, up: false, color: Color::Text });
    // Where the panel was, there is the game now.
    let behind = Input { under: vec![Place::Main, Place::Knob(0)], clicked: true };
    let frame = build(&mut store, &mut ui, &behind, &POTIONS);
    assert!(!frame.over_ui);
    assert_eq!(with(&mut store, |s| s.auto_fish), Some(false));
    assert_eq!(frame.ops.len(), 4);
    build(&mut store, &mut ui, &click(Place::Arrow), &POTIONS);
    assert!(ui.expanded);
}

#[test]
fn switches_turn_and_show_their_old_state_once() {
    let mut store = Store::new();
    let mut ui = UiState::default();
    let frame = build(&mut store, &mut ui, &click(Place::Knob(0)), &POTIONS);
    assert!(frame.over_ui);
    assert_eq!(with(&mut store, |s| (s.auto_fish, s.dirty)), Some((true, true)));
    let off = Op::Fill { place: Place::Knob(0), span: Span::BackLong, inset: 1, color: Color::Off };
    let on = Op::Fill { place: Place::Knob(0), span: Span::FrontLong, inset: 1, color: Color::On };
    assert!(frame.ops.contains(&off) && !frame.ops.contains(&on));
    let frame = build(&mut store, &mut ui, &nowhere(), &POTIONS);
    assert!(frame.ops.contains(&on) && !frame.ops.contains(&off));
    // The cursor is off the panel.
    assert!(!frame.over_ui);
    build(&mut store, &mut ui, &click(Place::Knob(1)), &POTIONS);
    build(&mut store, &mut ui, &click(Place::Knob(4)), &POTIONS);
    build(&mut store, &mut ui, &click(Place::Slot(1)), &POTIONS);
    assert_eq!(
        with(&mut store, |s| (s.quick_stack, s.auto_potions, s.potions)),
        Some((false, true, [true, true, true]))
    );
    build(&mut store, &mut ui, &click(Place::Slot(1)), &POTIONS);
    assert_eq!(with(&mut store, |s| s.potions), Some([true, false, true]));
}

#[test]
fn looking_changes_nothing() {
    let mut store = Store::new();
    let mut ui = UiState { expanded: true, tab: Tab::Stats };
    let frame = build(&mut store, &mut ui, &hover(Place::FilterTab), &POTIONS);
    assert!(frame.over_ui);
    assert_eq!(ui, UiState { expanded: true, tab: Tab::Stats });
    assert_eq!(with(&mut store, |s| s.dirty), Some(false));
    let hovered =
        Op::Fill { place: Place::FilterTab, span: Span::Whole, inset: 1, color: Color::TabHover };
    let active =
        Op::Fill { place: Place::StatsTab, span: Span::Whole, inset: 1, color: Color::TabActive };
    assert!(frame.ops.contains(&hovered) && frame.ops.contains(&active));
}

#[test]
fn one_window_at_a_time() {
    let mut store = Store::new();
    let mut ui = UiState::default();
    build(&mut store, &mut ui, &click(Place::FilterTab), &POTIONS);
    assert_eq!(ui.tab, Tab::Filter);
    build(&mut store, &mut ui, &click(Place::StatsTab), &POTIONS);
    assert_eq!(ui.tab, Tab::Stats);
    build(&mut store, &mut ui, &click(Place::StatsTab), &POTIONS);
    assert_eq!(ui.tab, Tab::Closed);
}

#[test]
fn filter_window_has_a_cell_for_each_item() {
    let mut store = Store::new();
    with(&mut store, |s| s.fishable = (2290..2300).collect());
    let mut ui = UiState { expanded: true, tab: Tab::Filter };
    let place = Place::Cell { col: 1, row: 1 };
    let frame = build(&mut store, &mut ui, &click(place), &POTIONS);
    assert!(frame.over_ui);
    assert_eq!(with(&mut store, |s| s.mark(2299)), Some(Mark::Allow));
    assert_eq!(with(&mut store, |s| s.filter.len()), Some(1));
    let icons = frame.ops.iter().filter(|op| matches!(op, Op::Icon { .. })).count();
    assert_eq!(icons, 3 + 10);
    let window = Place::FilterWindow { rows: 2 };
    assert!(frame.ops.contains(&Op::Fill {
        place: window,
        span: Span::Whole,
        inset: -2,
        color: Color::Border
    }));
    assert_eq!(frame.ops.last(), Some(&Op::Icon { place, item: 2299 }));
    let frame = build(&mut store, &mut ui, &nowhere(), &POTIONS);
    let allowed =
        Op::Fill { place, span: Span::Whole, inset: 0, color: Color::MarkAllow };
    assert!(frame.ops.contains(&allowed));
    build(&mut store, &mut ui, &click(place), &POTIONS);
    build(&mut store, &mut ui, &click(place), &POTIONS);
    assert_eq!(with(&mut store, |s| s.filter.len()), Some(0));
}

#[test]
fn list_switches_its_colour() {
    let mut store = Store::new();
    let mut ui = UiState { expanded: true, tab: Tab::Filter };
    let frame = build(&mut store, &mut ui, &click(Place::ListKnob), &POTIONS);
    let word = |label| Op::Text {
        place: Place::ListKnob,
        span: Span::Whole,
        align: Align::Centre,
        words: Words::Label(label),
        color: Color::Text,
    };
    assert!(frame.ops.contains(&word(Label::Black)));
    assert_eq!(with(&mut store, |s| s.whitelist_mode), Some(true));
    let frame = build(&mut store, &mut ui, &nowhere(), &POTIONS);
    assert!(frame.ops.contains(&word(Label::White)));
    assert!(frame.ops.contains(&Op::Fill {
        place: Place::FilterWindow { rows: 1 },
        span: Span::Whole,
        inset: 0,
        color: Color::Back
    }));
}

#[test]
fn statistics_are_shown() {
    let mut store = Store::new();
    with(&mut store, |s| {
        s.stats.seconds = 3 * 3600 + 7 * 60 + 5;
        s.stats.caught = 12;
        s.stats.average_bite = Single { bits: 7 };
    });
    let mut ui = UiState { expanded: true, tab: Tab::Stats };
    let frame = build(&mut store, &mut ui, &nowhere(), &POTIONS);
    let value = |row, words| Op::Text {
        place: Place::StatsRow(row),
        span: Span::Whole,
        align: Align::Right,
        words,
        color: Color::Value,
    };
    assert!(frame.ops.contains(&value(0, Words::Clock(11225))));
    assert!(frame.ops.contains(&value(1, Words::Number(12))));
    assert!(frame.ops.contains(&value(4, Words::Seconds(Single { bits: 7 }))));
    assert_eq!(frame.ops.last(), Some(&value(5, Words::Number(0))));
    assert_eq!(write_out(Words::Clock(11225), &ru()), Some("03:07:05".to_string()));
    assert_eq!(write_out(Words::Clock(360_000), &en()), Some("100:00:00".to_string()));
}

#[test]
fn poisoned_state_shows_the_defaults() {
    let mut store = Store::new();
    store.poisoned = true;
    let mut ui = UiState { expanded: true, tab: Tab::Stats };
    let frame = build(&mut store, &mut ui, &click(Place::Knob(0)), &POTIONS);
    assert!(frame.over_ui);
    let free = Op::Text {
        place: Place::Row(3),
        span: Span::Whole,
        align: Align::Right,
        words: Words::Unknown,
        color: Color::Value,
    };
    assert!(frame.ops.contains(&free));
    assert!(frame.ops.contains(&Op::Fill {
        place: Place::StatsWindow { rows: 0 },
        span: Span::Whole,
        inset: 0,
        color: Color::Back
    }));
    assert!(!frame.ops.iter().any(|op| matches!(
        op,
        Op::Text { place: Place::StatsRow(_), .. }
    )));
}

#[test]
fn bobber_and_free_slots_are_shown() {
    let mut store = Store::new();
    with(&mut store, |s| {
        s.status.bobber_cast = true;
        s.status.free_slots = 17;
    });
    let mut ui = UiState::default();
    let frame = build(&mut store, &mut ui, &nowhere(), &POTIONS);
    assert!(frame.ops.contains(&Op::Ring { place: Place::Ring, color: Color::On }));
    assert!(frame.ops.contains(&Op::Text {
        place: Place::RingText,
        span: Span::Whole,
        align: Align::Corner,
        words: Words::Label(Label::Cast),
        color: Color::OnText
    }));
    assert!(frame.ops.contains(&Op::Text {
        place: Place::Row(3),
        span: Span::Whole,
        align: Align::Right,
        words: Words::Number(17),
        color: Color::Value
    }));
}

#[test]
fn words_are_written_out() {
    let words = ru();
    let name = Words::Label(Label::Name);
    assert_eq!(write_out(name, &words), Some("Terraria Auto Fisher".to_string()));
    assert_eq!(write_out(Words::Unknown, &words), Some("?".to_string()));
    assert_eq!(write_out(Words::Number(0), &words), Some("0".to_string()));
    assert_eq!(write_out(Words::Number(1234), &words), Some("1234".to_string()));
    assert_eq!(write_out(Words::Seconds(Single { bits: 0 }), &words), None);
}

#[test]
fn labels_follow_the_language() {
    let mut language = Lang::new();
    assert_eq!(caption(Label::AutoFish, &t(&language)), "Авторыбалка");
    assert_eq!(caption(Label::AutoPotions, &t(&language)), "Автопитьё зелий");
    assert_eq!(caption(Label::Average, &t(&language)), "Среднее время поклёвки");
    set_russian(&mut language, false);
    let words = t(&language);
    assert_eq!(caption(Label::AutoFish, &words), "Auto-fishing");
    assert_eq!(caption(Label::QuickStack, &words), "Stack into nearby chests when full");
    assert_eq!(caption(Label::NotCast, &words), "None");
    assert_eq!(caption(Label::Potions, &words), "Potions to use automatically:");
    assert_eq!(caption(Label::Filter, &words), words.tab_filter);
    assert_eq!(caption(Label::Drunk, &words), words.stat_potions);
    let label = Words::Label(Label::Bobber);
    assert_eq!(write_out(label, &words), Some("Bobber".to_string()));
    assert_eq!(caption(Label::Name, &words), caption(Label::Name, &ru()));
}

#[test]
fn open_windows_keep_the_mouse() {
    let mut store = Store::new();
    with(&mut store, |s| s.fishable = (2290..2300).collect());
    let filter = Place::FilterWindow { rows: 2 };
    let stats = Place::StatsWindow { rows: 6 };
    let mut over = |tab, expanded, place| {
        let mut ui = UiState { expanded, tab };
        let frame = build(&mut store, &mut ui, &click(place), &POTIONS);
        assert_eq!(ui, UiState { expanded, tab });
        assert_eq!(with(&mut store, |s| s.dirty), Some(false));
        frame.over_ui
    };
    assert!(over(Tab::Closed, true, Place::Main));
    assert!(!over(Tab::Closed, true, filter));
    assert!(!over(Tab::Closed, true, stats));
    assert!(over(Tab::Filter, true, filter));
    assert!(!over(Tab::Filter, true, stats));
    assert!(over(Tab::Stats, true, stats));
    assert!(!over(Tab::Stats, true, filter));
    assert!(!over(Tab::Filter, false, Place::Main));
    assert!(!over(Tab::Filter, false, filter));
}

#[test]
fn what_lies_behind_a_switch_does_not_matter() {
    let mut store = Store::new();
    with(&mut store, |s| s.fishable = vec![2290, 2291]);
    let mut ui = UiState { expanded: true, tab: Tab::Filter };
    let mut click_on = |under: Vec<Place>| {
        build(&mut store, &mut ui, &Input { under, clicked: true }, &POTIONS);
        let turned = with(&mut store, |s| (s.quick_stack, s.whitelist_mode, s.mark(2291)));
        (turned.unwrap(), ui.tab)
    };
    let window = Place::FilterWindow { rows: 1 };
    let start = (true, false, Mark::Neutral);
    assert_eq!(click_on(vec![Place::Main, Place::Row(1)]), (start, Tab::Filter));
    let knob = vec![Place::Main, Place::Row(1), Place::Knob(1)];
    assert_eq!(click_on(knob), ((false, false, Mark::Neutral), Tab::Filter));
    let list = vec![Place::ListKnob, window];
    assert_eq!(click_on(list), ((false, true, Mark::Neutral), Tab::Filter));
    let cell = vec![window, Place::Cell { col: 1, row: 0 }];
    assert_eq!(click_on(cell), ((false, true, Mark::Allow), Tab::Filter));
    let tab = vec![Place::Main, Place::StatsTab];
    assert_eq!(click_on(tab), ((false, true, Mark::Allow), Tab::Stats));
}

#[test]
fn places_for_the_mouse_are_listed() {
    let mut store = Store::new();
    with(&mut store, |s| s.fishable = (2290..2300).collect());
    let listed = places(&mut store);
    assert_eq!(listed.len(), 13 + 10);
    assert!(listed.contains(&Place::Main));
    assert!(listed.contains(&Place::FilterWindow { rows: 2 }));
    assert!(listed.contains(&Place::StatsWindow { rows: 6 }));
    assert_eq!(listed.last(), Some(&Place::Cell { col: 1, row: 1 }));
    store.poisoned = true;
    let listed = places(&mut store);
    assert!(listed.contains(&Place::FilterWindow { rows: 1 }));
    assert!(listed.contains(&Place::StatsWindow { rows: 0 }));
    assert_eq!(listed.len(), 13);
}

#[test]
fn main_switch_is_turned_by_its_key() {
    let mut store = Store::new();
    Fishing::toggle(&mut store);
    assert_eq!(with(&mut store, |s| (s.auto_fish, s.dirty)), Some((true, true)));
    Fishing::toggle(&mut store);
    assert_eq!(with(&mut store, |s| s.auto_fish), Some(false));
    store.poisoned = true;
    Fishing::toggle(&mut store);
    assert_eq!(with(&mut store, |s| s.auto_fish), None);
}
