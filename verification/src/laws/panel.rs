//! What the panel shows and what a click on it does.

use vstd::prelude::*;

use crate::fishing::tick::Potion;
use crate::overlay::state::{Mark, SharedView, Stats};
use crate::overlay::ui::{
    Align, Color, Input, Label, Op, Place, Shown, Span, Switch, Tab, UiState, Words,
};

verus! {

// ---------------------------------------------------------------------------
// Strokes
// ---------------------------------------------------------------------------

/// A whole place in one colour; so many points are left out at each edge.
pub open spec fn area(place: Place, inset: int, color: Color) -> Op {
    Op::Fill { place, span: Span::Whole, inset: inset as i32, color }
}

/// A part of a place in one colour.
pub open spec fn partly(place: Place, span: Span, color: Color) -> Op {
    Op::Fill { place, span, inset: 1, color }
}

pub open spec fn words(place: Place, align: Align, words: Words, color: Color) -> Op {
    Op::Text { place, span: Span::Whole, align, words, color }
}

pub open spec fn label(place: Place, align: Align, label: Label, color: Color) -> Op {
    words(place, align, Words::Label(label), color)
}

/// A window: a dark edge, a bright edge, and the ground.
pub open spec fn window(place: Place) -> Seq<Op> {
    seq![
        area(place, -2, Color::Border),
        area(place, -1, Color::Frame),
        area(place, 0, Color::Back),
    ]
}

/// A row with its label at the left.
pub open spec fn row(place: Place, name: Label) -> Seq<Op> {
    seq![
        area(place, 0, Color::RowBorder),
        area(place, 1, Color::Row),
        label(place, Align::Left, name, Color::Text),
    ]
}

/// A switch: one that is on is green with its word in front, one that is off is red with
/// its word behind.
pub open spec fn switch(place: Place, on: bool) -> Seq<Op> {
    if on {
        seq![
            area(place, 0, Color::Border),
            partly(place, Span::FrontLong, Color::On),
            partly(place, Span::BackShort, Color::Knob),
            Op::Text {
                place,
                span: Span::FrontLong,
                align: Align::Centre,
                words: Words::Label(Label::On),
                color: Color::OnText,
            },
        ]
    } else {
        seq![
            area(place, 0, Color::Border),
            partly(place, Span::FrontShort, Color::Knob),
            partly(place, Span::BackLong, Color::Off),
            Op::Text {
                place,
                span: Span::BackLong,
                align: Align::Centre,
                words: Words::Label(Label::Off),
                color: Color::OffText,
            },
        ]
    }
}

/// A button: bright where it is active, a little where the cursor is on it.
pub open spec fn button(place: Place, name: Label, active: bool, hovered: bool) -> Seq<Op> {
    seq![
        area(place, 0, Color::Border),
        area(
            place,
            1,
            if active {
                Color::TabActive
            } else if hovered {
                Color::TabHover
            } else {
                Color::TabIdle
            },
        ),
        label(place, Align::Centre, name, Color::Text),
    ]
}

/// The cell of an item: its frame, its ground, its icon.
pub open spec fn item_cell(place: Place, frame: Color, ground: Color, item: i32) -> Seq<Op> {
    seq![area(place, 0, frame), area(place, 2, ground), Op::Icon { place, item }]
}

/// The strokes are what they ought to be.
pub proof fn law_strokes(
    place: Place,
    name: Label,
    on: bool,
    hovered: bool,
    frame: Color,
    ground: Color,
    item: i32,
)
    ensures
        crate::overlay::ui::window_ops(place) == window(place),
        crate::overlay::ui::row_ops(place, name) == row(place, name),
        crate::overlay::ui::toggle_ops(place, on) == switch(place, on),
        crate::overlay::ui::button_ops(place, name, on, hovered) == button(
            place,
            name,
            on,
            hovered,
        ),
        crate::overlay::ui::cell_ops(place, frame, ground, item) == item_cell(
            place,
            frame,
            ground,
            item,
        ),
{
    assert(crate::overlay::ui::window_ops(place) =~= window(place));
    assert(crate::overlay::ui::toggle_ops(place, on) =~= switch(place, on));
}

// ---------------------------------------------------------------------------
// What is shown
// ---------------------------------------------------------------------------

/// The panel shows the switches, the bobber and the free slots as they are; where the
/// state cannot be had, it shows the defaults.
pub proof fn law_panel_shows_the_state(s: SharedView)
    ensures
        ({
            let p = crate::overlay::ui::shown(Some(s));
            &&& p.auto_fish == s.auto_fish && p.quick_stack == s.quick_stack
            &&& p.auto_potions == s.auto_potions
            &&& p.cast == s.status.bobber_cast && p.free == s.status.free_slots
            &&& p.potion0 == s.potions[0] && p.potion1 == s.potions[1] && p.potion2 == s.potions[2]
        }),
        ({
            let p = crate::overlay::ui::shown(None);
            &&& !p.auto_fish && p.quick_stack && !p.auto_potions && !p.cast && p.free == -1
            &&& !p.potion0 && !p.potion1 && !p.potion2
        }),
{
}

/// The number of free slots, or that it is not known.
pub open spec fn free_text(free: i32) -> Words {
    if free < 0 {
        Words::Unknown
    } else {
        Words::Number(free as u64)
    }
}

/// The cell of a potion: lit where it is drunk.
pub open spec fn potion_cell(i: usize, on: bool, item: i32) -> Seq<Op> {
    if on {
        item_cell(Place::Slot(i), Color::SlotOnBorder, Color::SlotOn, item)
    } else {
        item_cell(Place::Slot(i), Color::Border, Color::Slot, item)
    }
}

/// The panel: its name; the switches of fishing, stacking and potions with their labels;
/// whether the bobber is cast, how many slots are free; and a cell for each potion.
pub proof fn law_panel_rows(p: Shown, potions: Seq<Potion>)
    ensures
        ({
            let m = crate::overlay::ui::main_ops(p, potions);
            let bobber = if p.cast {
                seq![
                    Op::Ring { place: Place::Ring, color: Color::On },
                    label(Place::RingText, Align::Corner, Label::Cast, Color::OnText),
                ]
            } else {
                seq![
                    Op::Ring { place: Place::Ring, color: Color::Off },
                    label(Place::RingText, Align::Corner, Label::NotCast, Color::Muted),
                ]
            };
            m == Seq::<Op>::empty() + window(Place::Main) + seq![
                label(Place::MainTitle, Align::Corner, Label::Name, Color::Title),
            ] + row(Place::Row(0), Label::AutoFish) + switch(Place::Knob(0), p.auto_fish) + row(
                Place::Row(1),
                Label::QuickStack,
            ) + switch(Place::Knob(1), p.quick_stack) + row(Place::Row(2), Label::Bobber) + bobber
                + row(Place::Row(3), Label::FreeSlots) + seq![
                words(Place::Row(3), Align::Right, free_text(p.free), Color::Value),
            ] + row(Place::Row(4), Label::AutoPotions) + switch(Place::Knob(4), p.auto_potions)
                + seq![label(Place::PotionsText, Align::Corner, Label::Potions, Color::Text)]
                + potion_cell(0, p.potion0, potions[0].item) + potion_cell(
                1,
                p.potion1,
                potions[1].item,
            ) + potion_cell(2, p.potion2, potions[2].item)
        }),
{
    lemma_strokes(Place::Main, Label::Name, true);
    lemma_strokes(Place::Row(0), Label::AutoFish, true);
    lemma_strokes(Place::Knob(0), Label::Name, p.auto_fish);
    lemma_strokes(Place::Row(1), Label::QuickStack, true);
    lemma_strokes(Place::Knob(1), Label::Name, p.quick_stack);
    lemma_strokes(Place::Row(2), Label::Bobber, true);
    lemma_strokes(Place::Row(3), Label::FreeSlots, true);
    lemma_strokes(Place::Row(4), Label::AutoPotions, true);
    lemma_strokes(Place::Knob(4), Label::Name, p.auto_potions);
    lemma_potion(0, p.potion0, potions[0].item);
    lemma_potion(1, p.potion1, potions[1].item);
    lemma_potion(2, p.potion2, potions[2].item);
    lemma_bobber(p.cast);
}

proof fn lemma_strokes(place: Place, name: Label, on: bool)
    ensures
        crate::overlay::ui::window_ops(place) == window(place),
        crate::overlay::ui::row_ops(place, name) == row(place, name),
        crate::overlay::ui::toggle_ops(place, on) == switch(place, on),
{
    law_strokes(place, name, on, false, Color::Row, Color::Row, 0);
}

proof fn lemma_potion(i: usize, on: bool, item: i32)
    ensures
        crate::overlay::ui::potion_ops(i, on, item) == potion_cell(i, on, item),
{
}

proof fn lemma_bobber(cast: bool)
    ensures
        crate::overlay::ui::bobber_ops(cast) == if cast {
            seq![
                Op::Ring { place: Place::Ring, color: Color::On },
                label(Place::RingText, Align::Corner, Label::Cast, Color::OnText),
            ]
        } else {
            seq![
                Op::Ring { place: Place::Ring, color: Color::Off },
                label(Place::RingText, Align::Corner, Label::NotCast, Color::Muted),
            ]
        },
{
}

/// A row of the statistics: its label and its value.
pub open spec fn stat(i: usize, name: Label, value: Words) -> Seq<Op> {
    row(Place::StatsRow(i), name) + seq![
        words(Place::StatsRow(i), Align::Right, value, Color::Value),
    ]
}

/// The window of the statistics: the time, what was caught, the crates, what was left, the
/// average wait and the potions, each in its row with its label; without the state only
/// the title.
pub proof fn law_statistics_are_shown(s: SharedView)
    ensures
        ({
            let t = s.stats;
            let title = seq![
                label(Place::StatsTitle, Align::Corner, Label::Stats, Color::Title),
            ];
            &&& crate::overlay::ui::stats_ops(Some(s)) == Seq::<Op>::empty() + window(
                Place::StatsWindow { rows: 6 },
            ) + title + (Seq::<Op>::empty() + stat(0, Label::Time, Words::Clock(t.seconds)) + stat(
                1,
                Label::Caught,
                Words::Number(t.caught as u64),
            ) + stat(2, Label::Crates, Words::Number(t.crates as u64)) + stat(
                3,
                Label::Skipped,
                Words::Number(t.skipped as u64),
            ) + stat(4, Label::Average, Words::Seconds(t.average_bite)) + stat(
                5,
                Label::Drunk,
                Words::Number(t.potions as u64),
            ))
            &&& crate::overlay::ui::stats_ops(None) == Seq::<Op>::empty() + window(
                Place::StatsWindow { rows: 0 },
            ) + title
        }),
{
    lemma_strokes(Place::StatsWindow { rows: 6 }, Label::Name, true);
    lemma_strokes(Place::StatsWindow { rows: 0 }, Label::Name, true);
    lemma_strokes(Place::StatsRow(0), Label::Time, true);
    lemma_strokes(Place::StatsRow(1), Label::Caught, true);
    lemma_strokes(Place::StatsRow(2), Label::Crates, true);
    lemma_strokes(Place::StatsRow(3), Label::Skipped, true);
    lemma_strokes(Place::StatsRow(4), Label::Average, true);
    lemma_strokes(Place::StatsRow(5), Label::Drunk, true);
}

/// The window of the filter: as many rows of eight cells as the items take, one at the
/// least; the switch of the list with its colour and its word; the cells.
pub proof fn law_filter_is_shown(s: SharedView, input: Input)
    requires
        s.fishable.len() <= 0x1000_0000,
    ensures
        ({
            let n = s.fishable.len();
            let place = crate::overlay::ui::filter_place(Some(s));
            let white = s.whitelist_mode;
            &&& (place matches Place::FilterWindow { rows } && rows >= 1 && n <= 8 * rows && (rows
                == 1 || 8 * (rows - 1) < n))
            &&& crate::overlay::ui::filter_ops(Some(s), input) == Seq::<Op>::empty() + window(place)
                + seq![label(Place::FilterTitle, Align::Corner, Label::Filter, Color::Title)] + row(
                Place::ListRow,
                Label::List,
            ) + seq![
                area(Place::ListKnob, 0, Color::Border),
                area(
                    Place::ListKnob,
                    1,
                    if white {
                        Color::On
                    } else {
                        Color::Off
                    },
                ),
                label(
                    Place::ListKnob,
                    Align::Centre,
                    if white {
                        Label::White
                    } else {
                        Label::Black
                    },
                    Color::Text,
                ),
            ] + crate::overlay::ui::cells_ops(
                crate::overlay::ui::served(Some(s), input, Place::ListKnob, Switch::List),
                input,
                s.fishable,
                n,
            )
        }),
{
    let place = crate::overlay::ui::filter_place(Some(s));
    lemma_strokes(place, Label::Name, true);
    lemma_strokes(Place::ListRow, Label::List, true);
}

/// The cell of each item stands at its place, eight in a row, with the icon of the item,
/// framed green where it is taken and red where it is left.
pub proof fn law_items_have_their_cells(
    s: SharedView,
    input: Input,
    items: Seq<i32>,
    i: nat,
)
    requires
        i < items.len() <= 0x1000_0000,
    ensures
        ({
            let before = crate::overlay::ui::cells_served(Some(s), input, items, i);
            let mark = before->0.mark(items[i as int]);
            let place = Place::Cell { col: (i % 8) as usize, row: (i / 8) as usize };
            &&& before is Some
            &&& crate::overlay::ui::cells_ops(Some(s), input, items, i + 1)
                == crate::overlay::ui::cells_ops(Some(s), input, items, i) + item_cell(
                place,
                if mark == Mark::Allow {
                    Color::MarkAllow
                } else if mark == Mark::Deny {
                    Color::MarkDeny
                } else {
                    Color::Border
                },
                Color::Slot,
                items[i as int],
            )
            &&& crate::overlay::ui::cell(i as int) == place
        }),
        crate::overlay::ui::cells_ops(Some(s), input, items, 0) == Seq::<Op>::empty(),
{
    lemma_cells_served(s, input, items, i);
}

proof fn lemma_cells_served(s: SharedView, input: Input, items: Seq<i32>, n: nat)
    ensures
        crate::overlay::ui::cells_served(Some(s), input, items, n) is Some,
    decreases n,
{
    if n > 0 {
        lemma_cells_served(s, input, items, (n - 1) as nat);
    }
}

/// The tabs and the arrow: each button lights up under the cursor, the tab of the open
/// window is bright, and the arrow points up while the panel is open.
pub proof fn law_buttons_are_shown(ui: UiState, input: Input)
    ensures
        ({
            let opened = ui.expanded != (input.clicked && input.under@.contains(Place::Arrow));
            crate::overlay::ui::arrow_ops(ui, input) == Seq::<Op>::empty() + button(
                Place::Arrow,
                if ui.expanded {
                    Label::Fold
                } else {
                    Label::Unfold
                },
                false,
                input.under@.contains(Place::Arrow),
            ) + seq![Op::Triangle { place: Place::Arrow, up: opened, color: Color::Text }]
        }),
        ({
            let turned = input.clicked && input.under@.contains(Place::FilterTab);
            let stats = if turned {
                false
            } else {
                ui.tab == Tab::Stats
            };
            crate::overlay::ui::tabs_ops(ui, input) == Seq::<Op>::empty() + button(
                Place::FilterTab,
                Label::Filter,
                ui.tab == Tab::Filter,
                input.under@.contains(Place::FilterTab),
            ) + button(
                Place::StatsTab,
                Label::Stats,
                stats,
                input.under@.contains(Place::StatsTab),
            )
        }),
{
    law_strokes(
        Place::Arrow,
        Label::Name,
        false,
        input.under@.contains(Place::Arrow),
        Color::Row,
        Color::Row,
        0,
    );
}

/// A frame is the arrow alone while the panel is folded; otherwise the arrow, the panel,
/// the tabs, and the window that is open after the click.
pub proof fn law_frame_is_made_up(
    s: Option<SharedView>,
    ui: UiState,
    input: Input,
    potions: Seq<Potion>,
)
    ensures
        ({
            let f = crate::overlay::ui::frame_ops(s, ui, input, potions);
            let arrow = crate::overlay::ui::arrow_ops(ui, input);
            let panel = arrow + crate::overlay::ui::main_ops(
                crate::overlay::ui::shown(s),
                potions,
            ) + crate::overlay::ui::tabs_ops(ui, input);
            let opened = ui.expanded != (input.clicked && input.under@.contains(Place::Arrow));
            let after = crate::overlay::ui::ui_after(ui, input);
            let t = crate::overlay::ui::main_served(s, input);
            &&& after.expanded == opened
            &&& !opened ==> f == arrow
            &&& opened && after.tab == Tab::Closed ==> f == panel
            &&& opened && after.tab == Tab::Filter ==> f == panel
                + crate::overlay::ui::filter_ops(t, input)
            &&& opened && after.tab == Tab::Stats ==> f == panel + crate::overlay::ui::stats_ops(t)
        }),
{
}

// ---------------------------------------------------------------------------
// What a click does
// ---------------------------------------------------------------------------

/// Turning a switch turns that one and no other, and asks for the configuration to be
/// saved.
pub proof fn law_switches_turn_alone(s: SharedView, i: usize, item: i32)
    requires
        s.potions.len() == 3,
        i < 3,
    ensures
        crate::overlay::ui::turned(s, Switch::AutoFish) == (SharedView {
            auto_fish: !s.auto_fish,
            dirty: true,
            ..s
        }),
        crate::overlay::ui::turned(s, Switch::QuickStack) == (SharedView {
            quick_stack: !s.quick_stack,
            dirty: true,
            ..s
        }),
        crate::overlay::ui::turned(s, Switch::AutoPotions) == (SharedView {
            auto_potions: !s.auto_potions,
            dirty: true,
            ..s
        }),
        crate::overlay::ui::turned(s, Switch::List) == (SharedView {
            whitelist_mode: !s.whitelist_mode,
            dirty: true,
            ..s
        }),
        ({
            let t = crate::overlay::ui::turned(s, Switch::Potion(i));
            &&& t == (SharedView { potions: t.potions, dirty: true, ..s })
            &&& t.potions.len() == 3
            &&& t.potions[i as int] == !s.potions[i as int]
            &&& forall|j: int| 0 <= j < 3 && j != i ==> t.potions[j] == s.potions[j]
        }),
        crate::overlay::ui::turned(s, Switch::Item(item)) == s.cycled(item),
        crate::fishing::toggled(Some(s)) == Some(
            SharedView { auto_fish: !s.auto_fish, dirty: true, ..s },
        ),
        crate::fishing::toggled(None) is None,
{
}

/// Which windows a click opens and closes: the arrow folds and unfolds the panel; on an
/// open panel each tab opens its window, or closes it where it is open. A click elsewhere,
/// and a look, change nothing.
pub proof fn law_clicks_on_tabs(ui: UiState, input: Input)
    ensures
        ({
            let on = |place: Place| input.clicked && input.under@.contains(place);
            let u = crate::overlay::ui::ui_after(ui, input);
            let opened = ui.expanded != on(Place::Arrow);
            &&& u.expanded == opened
            &&& !opened ==> u.tab == ui.tab
            &&& opened && !on(Place::FilterTab) && !on(Place::StatsTab) ==> u.tab == ui.tab
            &&& opened && on(Place::FilterTab) && !on(Place::StatsTab) ==> u.tab == if ui.tab
                == Tab::Filter {
                Tab::Closed
            } else {
                Tab::Filter
            }
            &&& opened && on(Place::StatsTab) && !on(Place::FilterTab) ==> u.tab == if ui.tab
                == Tab::Stats {
                Tab::Closed
            } else {
                Tab::Stats
            }
        }),
        UiState::initial().expanded,
        UiState::initial().tab == Tab::Closed,
{
}

/// The mouse is kept from the game exactly over the arrow, and over an open panel with its
/// switches, cells and tabs, and over the window that is open with what is in it.
pub proof fn law_where_the_mouse_is_kept(s: SharedView, ui: UiState, input: Input)
    requires
        s.fishable.len() <= 0x1000_0000,
    ensures
        ({
            let over = |place: Place| input.under@.contains(place);
            let u = crate::overlay::ui::ui_after(ui, input);
            let main = over(Place::Main) || over(Place::Knob(0)) || over(Place::Knob(1)) || over(
                Place::Knob(4),
            ) || over(Place::Slot(0)) || over(Place::Slot(1)) || over(Place::Slot(2)) || over(
                Place::FilterTab,
            ) || over(Place::StatsTab);
            let filter = over(crate::overlay::ui::filter_place(Some(s))) || over(Place::ListKnob)
                || exists|i: int|
                0 <= i < s.fishable.len() && input.under@.contains(
                    #[trigger] crate::overlay::ui::cell(i),
                );
            let stats = over(Place::StatsWindow { rows: 6 });
            crate::overlay::ui::frame_over(Some(s), ui, input) <==> over(Place::Arrow)
                || u.expanded && (main || u.tab == Tab::Filter && filter || u.tab == Tab::Stats
                && stats)
        }),
{
    lemma_cells_over(input, s.fishable.len());
    let t = crate::overlay::ui::main_served(Some(s), input);
    assert(t is Some && t->0.fishable == s.fishable);
}

proof fn lemma_cells_over(input: Input, n: nat)
    ensures
        crate::overlay::ui::cells_over(input, n) <==> exists|i: int|
            0 <= i < n && input.under@.contains(#[trigger] crate::overlay::ui::cell(i)),
    decreases n,
{
    if n > 0 {
        lemma_cells_over(input, (n - 1) as nat);
    }
}

} // verus!
