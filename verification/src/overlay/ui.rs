//! What the panel shows and what a click on it does.
//!
//! The panel is built anew for every frame. It keeps nothing but whether it is
//! expanded and which window is open; the rest stands in the shared state. A frame is
//! a list of strokes, each at a [`Place`]; where a place is on the screen is for the
//! painter to say, and so is which places are under the cursor.

use vstd::prelude::*;

use super::state::{Mark, Shared, SharedView, Stats, Store};
use crate::fishing::tick::Potion;
use crate::lang::Strings;
use crate::single::Single;
use crate::text;

verus! {

/// How many items stand in a row of the filter.
pub const FILTER_COLS: usize = 8;

/// The window that is open below the panel.
#[derive(Debug, Clone, Copy, PartialEq, Eq, Structural)]
pub enum Tab {
    /// None is.
    Closed,
    Filter,
    Stats,
}

/// What the panel keeps from frame to frame.
#[derive(Debug, Clone, Copy, PartialEq, Eq, Structural)]
pub struct UiState {
    pub expanded: bool,
    pub tab: Tab,
}

impl UiState {
    pub open spec fn initial() -> UiState {
        UiState { expanded: true, tab: Tab::Closed }
    }
}

impl Default for UiState {
    fn default() -> (r: UiState)
        ensures
            r == UiState::initial(),
    {
        UiState { expanded: true, tab: Tab::Closed }
    }
}

/// A place on the panel or in its windows.
#[derive(Debug, Clone, Copy, PartialEq, Eq, Structural)]
pub enum Place {
    /// The arrow that folds the panel.
    Arrow,
    Main,
    MainTitle,
    /// A row of the panel, from the top.
    Row(usize),
    /// The switch in such a row.
    Knob(usize),
    Ring,
    RingText,
    PotionsText,
    /// The cell of a potion.
    Slot(usize),
    FilterTab,
    StatsTab,
    /// The window of the filter, with so many rows of items.
    FilterWindow { rows: usize },
    FilterTitle,
    ListRow,
    ListKnob,
    /// The cell of an item.
    Cell { col: usize, row: usize },
    /// The window of the statistics, with so many rows.
    StatsWindow { rows: usize },
    StatsTitle,
    StatsRow(usize),
}

/// Which part of a place is meant. A switch has a long part, with its word, and a
/// short one.
#[derive(Debug, Clone, Copy, PartialEq, Eq, Structural)]
pub enum Span {
    Whole,
    FrontLong,
    BackShort,
    FrontShort,
    BackLong,
}

/// Where in a place a text stands.
#[derive(Debug, Clone, Copy, PartialEq, Eq, Structural)]
pub enum Align {
    /// At its corner.
    Corner,
    /// At the left of a row, a little inside.
    Left,
    /// At the right of a row, a little inside.
    Right,
    Centre,
}

#[derive(Debug, Clone, Copy, PartialEq, Eq, Structural)]
pub enum Color {
    Border,
    Frame,
    Back,
    RowBorder,
    Row,
    On,
    OnText,
    Off,
    OffText,
    Knob,
    TabActive,
    TabHover,
    TabIdle,
    Text,
    Title,
    Muted,
    Value,
    SlotOnBorder,
    SlotOn,
    Slot,
    MarkAllow,
    MarkDeny,
}

/// A label of the panel.
#[derive(Debug, Clone, Copy, PartialEq, Eq, Structural)]
pub enum Label {
    Fold,
    Unfold,
    Name,
    AutoFish,
    QuickStack,
    Bobber,
    Cast,
    NotCast,
    FreeSlots,
    AutoPotions,
    Potions,
    Filter,
    Stats,
    List,
    White,
    Black,
    On,
    Off,
    Time,
    Caught,
    Crates,
    Skipped,
    Average,
    Drunk,
}

/// A text of the panel.
#[derive(Debug, Clone, Copy, PartialEq, Eq, Structural)]
pub enum Words {
    Label(Label),
    /// A number that is not known.
    Unknown,
    Number(u64),
    /// A time in seconds.
    Clock(u64),
    /// Seconds with one digit behind the point.
    Seconds(Single),
}

/// One stroke.
#[derive(Debug, Clone, Copy, PartialEq, Eq, Structural)]
pub enum Op {
    /// Fills a place; `inset` pixels are left out at each edge, or added where it is
    /// negative. Of a part of a place they are left out at the top and at the bottom.
    Fill { place: Place, span: Span, inset: i32, color: Color },
    Text { place: Place, span: Span, align: Align, words: Words, color: Color },
    /// A triangle in the middle of a place.
    Triangle { place: Place, up: bool, color: Color },
    /// The frame of a square.
    Ring { place: Place, color: Color },
    /// The icon of an item.
    Icon { place: Place, item: i32 },
}

/// The mouse in this frame.
#[derive(Debug)]
pub struct Input {
    /// The places under the cursor: a cursor on a switch is on the window behind it too.
    pub under: Vec<Place>,
    /// The button went down in this very frame.
    pub clicked: bool,
}

impl Input {
    /// Whether the cursor is over a place.
    pub open spec fn over(self, place: Place) -> bool {
        self.under@.contains(place)
    }

    /// Whether a place is clicked.
    pub open spec fn hits(self, place: Place) -> bool {
        self.clicked && self.over(place)
    }

    fn hovers(&self, place: Place) -> (r: bool)
        ensures
            r == self.over(place),
    {
        let mut i: usize = 0;
        while i < self.under.len()
            invariant
                i <= self.under@.len(),
                forall|j: int| 0 <= j < i ==> self.under@[j] != place,
            decreases self.under@.len() - i,
        {
            if self.under[i] == place {
                return true;
            }
            i = i + 1;
        }
        false
    }
}

/// A frame of the panel.
#[derive(Debug)]
pub struct Frame {
    /// The cursor is over the panel or one of its windows, so that the game must not have
    /// a click.
    pub over_ui: bool,
    pub ops: Vec<Op>,
}

// ---------------------------------------------------------------------------
// Texts
// ---------------------------------------------------------------------------

/// The wording of a label in the language of these strings; what they do not hold is
/// the same in every language.
pub open spec fn wording(label: Label, strings: Strings) -> Seq<char> {
    match label {
        Label::Fold => "\u{25B2}"@,
        Label::Unfold => "\u{25BC}"@,
        Label::Name => "Terraria Auto Fisher"@,
        Label::AutoFish => strings.auto_fish@,
        Label::QuickStack => strings.quick_stack@,
        Label::Bobber => strings.bobber@,
        Label::Cast => strings.bobber_cast@,
        Label::NotCast => strings.bobber_none@,
        Label::FreeSlots => strings.free_slots@,
        Label::AutoPotions => strings.auto_potions@,
        Label::Potions => strings.potions_shelf@,
        Label::Filter => strings.tab_filter@,
        Label::Stats => strings.tab_stats@,
        Label::List => "Список"@,
        Label::White => "Белый"@,
        Label::Black => "Чёрный"@,
        Label::On => "Вкл"@,
        Label::Off => "Выкл"@,
        Label::Time => strings.stat_time@,
        Label::Caught => strings.stat_caught@,
        Label::Crates => strings.stat_crates@,
        Label::Skipped => strings.stat_skipped@,
        Label::Average => strings.stat_bite@,
        Label::Drunk => strings.stat_potions@,
    }
}

/// The wording of a label in the language of these strings; what they do not hold is
/// the same in every language.
pub fn caption(label: Label, strings: &Strings) -> (r: &'static str)
    ensures
        r@ == wording(label, *strings),
{
    match label {
        Label::Fold => "\u{25B2}",
        Label::Unfold => "\u{25BC}",
        Label::Name => "Terraria Auto Fisher",
        Label::AutoFish => strings.auto_fish,
        Label::QuickStack => strings.quick_stack,
        Label::Bobber => strings.bobber,
        Label::Cast => strings.bobber_cast,
        Label::NotCast => strings.bobber_none,
        Label::FreeSlots => strings.free_slots,
        Label::AutoPotions => strings.auto_potions,
        Label::Potions => strings.potions_shelf,
        Label::Filter => strings.tab_filter,
        Label::Stats => strings.tab_stats,
        Label::List => "Список",
        Label::White => "Белый",
        Label::Black => "Чёрный",
        Label::On => "Вкл",
        Label::Off => "Выкл",
        Label::Time => strings.stat_time,
        Label::Caught => strings.stat_caught,
        Label::Crates => strings.stat_crates,
        Label::Skipped => strings.stat_skipped,
        Label::Average => strings.stat_bite,
        Label::Drunk => strings.stat_potions,
    }
}

/// A time in hours, minutes and seconds, of at least two digits each.
pub open spec fn clock(seconds: u64) -> Seq<char> {
    crate::text::numeral((seconds / 3600) as nat, 10, 2) + ":"@ + crate::text::numeral(
        ((seconds % 3600) / 60) as nat,
        10,
        2,
    ) + ":"@ + crate::text::numeral((seconds % 60) as nat, 10, 2)
}

/// A text as it is written; nothing for one that takes a fraction.
pub open spec fn written(words: Words, strings: Strings) -> Option<Seq<char>> {
    match words {
        Words::Label(label) => Some(wording(label, strings)),
        Words::Unknown => Some("?"@),
        Words::Number(n) => Some(crate::text::numeral(n as nat, 10, 1)),
        Words::Clock(seconds) => Some(clock(seconds)),
        Words::Seconds(_) => None,
    }
}

/// Writes a text out; nothing for one that takes a fraction.
pub fn write_out(words: Words, strings: &Strings) -> (r: Option<String>)
    ensures
        match r {
            Some(s) => written(words, *strings) == Some(s@),
            None => written(words, *strings) is None,
        },
{
    match words {
        Words::Label(label) => Some(text::owned(caption(label, strings))),
        Words::Unknown => Some(text::owned("?")),
        Words::Number(n) => {
            let mut s = String::new();
            text::push_numeral(&mut s, n, 10, 1);
            assert(s@ =~= crate::text::numeral(n as nat, 10, 1));
            Some(s)
        },
        Words::Clock(seconds) => {
            let mut s = String::new();
            text::push_numeral(&mut s, seconds / 3600, 10, 2);
            assert(s@ =~= crate::text::numeral((seconds / 3600) as nat, 10, 2));
            s.append(":");
            text::push_numeral(&mut s, (seconds % 3600) / 60, 10, 2);
            s.append(":");
            text::push_numeral(&mut s, seconds % 60, 10, 2);
            Some(s)
        },
        Words::Seconds(_) => None,
    }
}

// ---------------------------------------------------------------------------
// Strokes
// ---------------------------------------------------------------------------

pub open spec fn fill(place: Place, inset: i32, color: Color) -> Op {
    Op::Fill { place, span: Span::Whole, inset, color }
}

pub open spec fn say(place: Place, align: Align, words: Words, color: Color) -> Op {
    Op::Text { place, span: Span::Whole, align, words, color }
}

/// How far the outer frame of a window reaches beyond it.
pub const OUTER: i32 = -2;

/// How far the inner frame of a window reaches beyond it.
pub const INNER: i32 = -1;

/// The ground of a window.
pub open spec fn window_ops(place: Place) -> Seq<Op> {
    seq![
        fill(place, OUTER, Color::Border),
        fill(place, INNER, Color::Frame),
        fill(place, 0, Color::Back),
    ]
}

/// The ground of a row with its label.
pub open spec fn row_ops(place: Place, label: Label) -> Seq<Op> {
    seq![
        fill(place, 0, Color::RowBorder),
        fill(place, 1, Color::Row),
        say(place, Align::Left, Words::Label(label), Color::Text),
    ]
}

/// A switch.
pub open spec fn toggle_ops(place: Place, on: bool) -> Seq<Op> {
    if on {
        seq![
            fill(place, 0, Color::Border),
            Op::Fill { place, span: Span::FrontLong, inset: 1, color: Color::On },
            Op::Fill { place, span: Span::BackShort, inset: 1, color: Color::Knob },
            Op::Text {
                place,
                span: Span::FrontLong,
                align: Align::Centre,
                words: Words::Label(Label::On),
                color: Color::OnText,
            },
        ]
    } else {
        seq![
            fill(place, 0, Color::Border),
            Op::Fill { place, span: Span::FrontShort, inset: 1, color: Color::Knob },
            Op::Fill { place, span: Span::BackLong, inset: 1, color: Color::Off },
            Op::Text {
                place,
                span: Span::BackLong,
                align: Align::Centre,
                words: Words::Label(Label::Off),
                color: Color::OffText,
            },
        ]
    }
}

/// The fill of a button.
pub open spec fn shade(active: bool, hovered: bool) -> Color {
    if active {
        Color::TabActive
    } else if hovered {
        Color::TabHover
    } else {
        Color::TabIdle
    }
}

/// A button.
pub open spec fn button_ops(place: Place, label: Label, active: bool, hovered: bool) -> Seq<Op> {
    seq![
        fill(place, 0, Color::Border),
        fill(place, 1, shade(active, hovered)),
        say(place, Align::Centre, Words::Label(label), Color::Text),
    ]
}

/// The cell of an item.
pub open spec fn cell_ops(place: Place, border: Color, ground: Color, item: i32) -> Seq<Op> {
    seq![fill(place, 0, border), fill(place, 2, ground), Op::Icon { place, item }]
}

fn put(ops: &mut Vec<Op>, place: Place, inset: i32, color: Color)
    ensures
        final(ops)@ == old(ops)@.push(fill(place, inset, color)),
{
    ops.push(Op::Fill { place, span: Span::Whole, inset, color });
}

fn put_text(ops: &mut Vec<Op>, place: Place, align: Align, words: Words, color: Color)
    ensures
        final(ops)@ == old(ops)@ + seq![say(place, align, words, color)],
{
    ops.push(Op::Text { place, span: Span::Whole, align, words, color });
    assert(ops@ =~= old(ops)@ + seq![say(place, align, words, color)]);
}

fn put_window(ops: &mut Vec<Op>, place: Place)
    ensures
        final(ops)@ == old(ops)@ + window_ops(place),
{
    put(ops, place, OUTER, Color::Border);
    put(ops, place, INNER, Color::Frame);
    put(ops, place, 0, Color::Back);
    assert(ops@ =~= old(ops)@ + window_ops(place));
}

fn put_row(ops: &mut Vec<Op>, place: Place, label: Label)
    ensures
        final(ops)@ == old(ops)@ + row_ops(place, label),
{
    put(ops, place, 0, Color::RowBorder);
    put(ops, place, 1, Color::Row);
    put_text(ops, place, Align::Left, Words::Label(label), Color::Text);
    assert(ops@ =~= old(ops)@ + row_ops(place, label));
}

fn put_toggle(ops: &mut Vec<Op>, place: Place, on: bool)
    ensures
        final(ops)@ == old(ops)@ + toggle_ops(place, on),
{
    put(ops, place, 0, Color::Border);
    if on {
        ops.push(Op::Fill { place, span: Span::FrontLong, inset: 1, color: Color::On });
        ops.push(Op::Fill { place, span: Span::BackShort, inset: 1, color: Color::Knob });
        ops.push(
            Op::Text {
                place,
                span: Span::FrontLong,
                align: Align::Centre,
                words: Words::Label(Label::On),
                color: Color::OnText,
            },
        );
    } else {
        ops.push(Op::Fill { place, span: Span::FrontShort, inset: 1, color: Color::Knob });
        ops.push(Op::Fill { place, span: Span::BackLong, inset: 1, color: Color::Off });
        ops.push(
            Op::Text {
                place,
                span: Span::BackLong,
                align: Align::Centre,
                words: Words::Label(Label::Off),
                color: Color::OffText,
            },
        );
    }
    assert(ops@ =~= old(ops)@ + toggle_ops(place, on));
}

fn put_button(ops: &mut Vec<Op>, place: Place, label: Label, active: bool, hovered: bool)
    ensures
        final(ops)@ == old(ops)@ + button_ops(place, label, active, hovered),
{
    let color = if active {
        Color::TabActive
    } else if hovered {
        Color::TabHover
    } else {
        Color::TabIdle
    };
    put(ops, place, 0, Color::Border);
    put(ops, place, 1, color);
    put_text(ops, place, Align::Centre, Words::Label(label), Color::Text);
    assert(ops@ =~= old(ops)@ + button_ops(place, label, active, hovered));
}

fn put_cell(ops: &mut Vec<Op>, place: Place, border: Color, ground: Color, item: i32)
    ensures
        final(ops)@ == old(ops)@ + cell_ops(place, border, ground, item),
{
    put(ops, place, 0, border);
    put(ops, place, 2, ground);
    ops.push(Op::Icon { place, item });
    assert(ops@ =~= old(ops)@ + cell_ops(place, border, ground, item));
}

// ---------------------------------------------------------------------------
// Switches
// ---------------------------------------------------------------------------

/// What a click turns.
#[derive(Debug, Clone, Copy, PartialEq, Eq, Structural)]
pub enum Switch {
    AutoFish,
    QuickStack,
    AutoPotions,
    /// Whether this one of the three potions is drunk.
    Potion(usize),
    /// Whether the list is white.
    List,
    /// The mark of an item.
    Item(i32),
}

/// The shared state after a switch was turned; it has to be saved then.
pub open spec fn turned(s: SharedView, switch: Switch) -> SharedView {
    match switch {
        Switch::AutoFish => SharedView { auto_fish: !s.auto_fish, dirty: true, ..s },
        Switch::QuickStack => SharedView { quick_stack: !s.quick_stack, dirty: true, ..s },
        Switch::AutoPotions => SharedView { auto_potions: !s.auto_potions, dirty: true, ..s },
        Switch::Potion(i) => SharedView {
            potions: s.potions.update(i as int, !s.potions[i as int]),
            dirty: true,
            ..s
        },
        Switch::List => SharedView { whitelist_mode: !s.whitelist_mode, dirty: true, ..s },
        Switch::Item(item) => s.cycled(item),
    }
}

/// The shared state after a frame came to a place that turns a switch.
pub open spec fn served(
    s: Option<SharedView>,
    input: Input,
    place: Place,
    switch: Switch,
) -> Option<SharedView> {
    if input.hits(place) && s is Some {
        Some(turned(s->0, switch))
    } else {
        s
    }
}

/// Turns a switch.
pub fn turn(shared: &mut Shared, switch: Switch)
    requires
        switch matches Switch::Potion(i) ==> i < 3,
    ensures
        final(shared)@ == turned(old(shared)@, switch),
{
    match switch {
        Switch::AutoFish => {
            shared.auto_fish = !shared.auto_fish;
        },
        Switch::QuickStack => {
            shared.quick_stack = !shared.quick_stack;
        },
        Switch::AutoPotions => {
            shared.auto_potions = !shared.auto_potions;
        },
        Switch::Potion(i) => {
            let on = shared.potions[i];
            shared.potions[i] = !on;
        },
        Switch::List => {
            shared.whitelist_mode = !shared.whitelist_mode;
        },
        Switch::Item(item) => {
            shared.cycle(item);
        },
    }
    shared.dirty = true;
}

fn serve(store: &mut Store, input: &Input, place: Place, switch: Switch) -> (r: bool)
    requires
        switch matches Switch::Potion(i) ==> i < 3,
    ensures
        final(store)@ == served(old(store)@, *input, place, switch),
        r == input.over(place),
{
    let over = input.hovers(place);
    if over && input.clicked {
        if let Some(shared) = store.open() {
            turn(shared, switch);
        }
    }
    over
}

// ---------------------------------------------------------------------------
// The panel
// ---------------------------------------------------------------------------

/// What the panel shows of the shared state.
#[derive(Debug, Clone, Copy, PartialEq, Eq, Structural)]
pub struct Shown {
    pub auto_fish: bool,
    pub quick_stack: bool,
    pub auto_potions: bool,
    pub cast: bool,
    pub free: i32,
    pub potion0: bool,
    pub potion1: bool,
    pub potion2: bool,
}

/// The count of free slots where nothing is known of it.
pub const UNKNOWN: i32 = -1;

pub open spec fn shown(s: Option<SharedView>) -> Shown {
    match s {
        Some(s) => Shown {
            auto_fish: s.auto_fish,
            quick_stack: s.quick_stack,
            auto_potions: s.auto_potions,
            cast: s.status.bobber_cast,
            free: s.status.free_slots,
            potion0: s.potions[0],
            potion1: s.potions[1],
            potion2: s.potions[2],
        },
        None => Shown {
            auto_fish: false,
            quick_stack: true,
            auto_potions: false,
            cast: false,
            free: UNKNOWN,
            potion0: false,
            potion1: false,
            potion2: false,
        },
    }
}

fn show(store: &mut Store) -> (r: Shown)
    ensures
        r == shown(old(store)@),
        final(store)@ == old(store)@,
{
    match store.open() {
        Some(s) => Shown {
            auto_fish: s.auto_fish,
            quick_stack: s.quick_stack,
            auto_potions: s.auto_potions,
            cast: s.status.bobber_cast,
            free: s.status.free_slots,
            potion0: s.potions[0],
            potion1: s.potions[1],
            potion2: s.potions[2],
        },
        None => Shown {
            auto_fish: false,
            quick_stack: true,
            auto_potions: false,
            cast: false,
            free: UNKNOWN,
            potion0: false,
            potion1: false,
            potion2: false,
        },
    }
}

/// The number of free slots as a text.
pub open spec fn free_words(free: i32) -> Words {
    if free < 0 {
        Words::Unknown
    } else {
        Words::Number(free as u64)
    }
}

/// The cell of a potion: lit where the potion is drunk.
pub open spec fn potion_ops(i: usize, on: bool, item: i32) -> Seq<Op> {
    cell_ops(
        Place::Slot(i),
        if on {
            Color::SlotOnBorder
        } else {
            Color::Border
        },
        if on {
            Color::SlotOn
        } else {
            Color::Slot
        },
        item,
    )
}

/// The row that tells whether the bobber is cast.
pub open spec fn bobber_ops(cast: bool) -> Seq<Op> {
    seq![
        Op::Ring {
            place: Place::Ring,
            color: if cast {
                Color::On
            } else {
                Color::Off
            },
        },
        say(
            Place::RingText,
            Align::Corner,
            Words::Label(
                if cast {
                    Label::Cast
                } else {
                    Label::NotCast
                },
            ),
            if cast {
                Color::OnText
            } else {
                Color::Muted
            },
        ),
    ]
}

/// The rows of the panel, down to the cells of the potions.
pub open spec fn main_ops(s: Shown, potions: Seq<Potion>) -> Seq<Op> {
    Seq::<Op>::empty() + window_ops(Place::Main) + seq![
        say(Place::MainTitle, Align::Corner, Words::Label(Label::Name), Color::Title),
    ] + row_ops(Place::Row(0), Label::AutoFish) + toggle_ops(Place::Knob(0), s.auto_fish)
        + row_ops(Place::Row(1), Label::QuickStack) + toggle_ops(Place::Knob(1), s.quick_stack)
        + row_ops(Place::Row(2), Label::Bobber) + bobber_ops(s.cast) + row_ops(
        Place::Row(3),
        Label::FreeSlots,
    ) + seq![say(Place::Row(3), Align::Right, free_words(s.free), Color::Value)] + row_ops(
        Place::Row(4),
        Label::AutoPotions,
    ) + toggle_ops(Place::Knob(4), s.auto_potions) + seq![
        say(Place::PotionsText, Align::Corner, Words::Label(Label::Potions), Color::Text),
    ] + potion_ops(0, s.potion0, potions[0].item) + potion_ops(1, s.potion1, potions[1].item)
        + potion_ops(2, s.potion2, potions[2].item)
}

/// The shared state after the rows of the panel.
pub open spec fn main_served(s: Option<SharedView>, input: Input) -> Option<SharedView> {
    let s = served(s, input, Place::Knob(0), Switch::AutoFish);
    let s = served(s, input, Place::Knob(1), Switch::QuickStack);
    let s = served(s, input, Place::Knob(4), Switch::AutoPotions);
    let s = served(s, input, Place::Slot(0), Switch::Potion(0));
    let s = served(s, input, Place::Slot(1), Switch::Potion(1));
    served(s, input, Place::Slot(2), Switch::Potion(2))
}

/// Whether the cursor is over the panel.
pub open spec fn main_over(input: Input) -> bool {
    ||| input.over(Place::Main)
    ||| input.over(Place::Knob(0))
    ||| input.over(Place::Knob(1))
    ||| input.over(Place::Knob(4))
    ||| input.over(Place::Slot(0))
    ||| input.over(Place::Slot(1))
    ||| input.over(Place::Slot(2))
}

fn put_potion(ops: &mut Vec<Op>, i: usize, on: bool, item: i32)
    ensures
        final(ops)@ == old(ops)@ + potion_ops(i, on, item),
{
    if on {
        put_cell(ops, Place::Slot(i), Color::SlotOnBorder, Color::SlotOn, item);
    } else {
        put_cell(ops, Place::Slot(i), Color::Border, Color::Slot, item);
    }
}

fn put_bobber(ops: &mut Vec<Op>, cast: bool)
    ensures
        final(ops)@ == old(ops)@ + bobber_ops(cast),
{
    if cast {
        ops.push(Op::Ring { place: Place::Ring, color: Color::On });
        put_text(
            ops,
            Place::RingText,
            Align::Corner,
            Words::Label(Label::Cast),
            Color::OnText,
        );
    } else {
        ops.push(Op::Ring { place: Place::Ring, color: Color::Off });
        put_text(
            ops,
            Place::RingText,
            Align::Corner,
            Words::Label(Label::NotCast),
            Color::Muted,
        );
    }
    assert(ops@ =~= old(ops)@ + bobber_ops(cast));
}

fn main_panel(store: &mut Store, input: &Input, potions: &[Potion; 3]) -> (r: Frame)
    ensures
        r.ops@ == main_ops(shown(old(store)@), potions@),
        r.over_ui == main_over(*input),
        final(store)@ == main_served(old(store)@, *input),
{
    let mut ops: Vec<Op> = Vec::new();
    put_window(&mut ops, Place::Main);
    put_text(
        &mut ops,
        Place::MainTitle,
        Align::Corner,
        Words::Label(Label::Name),
        Color::Title,
    );
    let s = show(store);
    put_row(&mut ops, Place::Row(0), Label::AutoFish);
    let over0 = serve(store, input, Place::Knob(0), Switch::AutoFish);
    put_toggle(&mut ops, Place::Knob(0), s.auto_fish);
    put_row(&mut ops, Place::Row(1), Label::QuickStack);
    let over1 = serve(store, input, Place::Knob(1), Switch::QuickStack);
    put_toggle(&mut ops, Place::Knob(1), s.quick_stack);
    put_row(&mut ops, Place::Row(2), Label::Bobber);
    put_bobber(&mut ops, s.cast);
    put_row(&mut ops, Place::Row(3), Label::FreeSlots);
    let words = if s.free < 0 {
        Words::Unknown
    } else {
        Words::Number(s.free as u64)
    };
    put_text(&mut ops, Place::Row(3), Align::Right, words, Color::Value);
    put_row(&mut ops, Place::Row(4), Label::AutoPotions);
    let over4 = serve(store, input, Place::Knob(4), Switch::AutoPotions);
    put_toggle(&mut ops, Place::Knob(4), s.auto_potions);
    put_text(
        &mut ops,
        Place::PotionsText,
        Align::Corner,
        Words::Label(Label::Potions),
        Color::Text,
    );
    let slot0 = serve(store, input, Place::Slot(0), Switch::Potion(0));
    put_potion(&mut ops, 0, s.potion0, potions[0].item);
    let slot1 = serve(store, input, Place::Slot(1), Switch::Potion(1));
    put_potion(&mut ops, 1, s.potion1, potions[1].item);
    let slot2 = serve(store, input, Place::Slot(2), Switch::Potion(2));
    put_potion(&mut ops, 2, s.potion2, potions[2].item);
    let over = input.hovers(Place::Main);
    Frame { over_ui: over || over0 || over1 || over4 || slot0 || slot1 || slot2, ops }
}

// ---------------------------------------------------------------------------
// The windows
// ---------------------------------------------------------------------------

/// How many rows so many items take, one at the least.
pub open spec fn grid_rows(items: nat) -> nat {
    if items == 0 {
        1
    } else {
        (items + FILTER_COLS as nat - 1) as nat / FILTER_COLS as nat
    }
}

/// Where the cell of the item `i` is.
pub open spec fn cell(i: int) -> Place {
    Place::Cell { col: (i % FILTER_COLS as int) as usize, row: (i / FILTER_COLS as int) as usize }
}

/// The frame of the cell of an item.
pub open spec fn mark_color(mark: Mark) -> Color {
    match mark {
        Mark::Allow => Color::MarkAllow,
        Mark::Deny => Color::MarkDeny,
        Mark::Neutral => Color::Border,
    }
}

/// The mark of an item where the shared state can be had.
pub open spec fn mark_in(s: Option<SharedView>, item: i32) -> Mark {
    match s {
        Some(s) => s.mark(item),
        None => Mark::Neutral,
    }
}

/// What can be caught, where the shared state can be had.
pub open spec fn fishable_in(s: Option<SharedView>) -> Seq<i32> {
    match s {
        Some(s) => s.fishable,
        None => Seq::empty(),
    }
}

/// Whether the list is white, where the shared state can be had.
pub open spec fn white_in(s: Option<SharedView>) -> bool {
    match s {
        Some(s) => s.whitelist_mode,
        None => false,
    }
}

/// The shared state after the cells of the first `n` items.
pub open spec fn cells_served(
    s: Option<SharedView>,
    input: Input,
    items: Seq<i32>,
    n: nat,
) -> Option<SharedView>
    decreases n,
{
    if n == 0 {
        s
    } else {
        let i = (n - 1) as nat;
        served(cells_served(s, input, items, i), input, cell(i as int), Switch::Item(items[i as int]))
    }
}

/// The cells of the first `n` items. A cell shows the mark that the item had before it
/// was clicked.
pub open spec fn cells_ops(
    s: Option<SharedView>,
    input: Input,
    items: Seq<i32>,
    n: nat,
) -> Seq<Op>
    decreases n,
{
    if n == 0 {
        Seq::empty()
    } else {
        let i = (n - 1) as nat;
        cells_ops(s, input, items, i) + cell_ops(
            cell(i as int),
            mark_color(mark_in(cells_served(s, input, items, i), items[i as int])),
            Color::Slot,
            items[i as int],
        )
    }
}

/// Whether the cursor is over the cell of one of the first `n` items.
pub open spec fn cells_over(input: Input, n: nat) -> bool
    decreases n,
{
    n > 0 && (cells_over(input, (n - 1) as nat) || input.over(cell(n - 1)))
}

/// The switch of the list.
pub open spec fn list_ops(white: bool) -> Seq<Op> {
    seq![
        fill(Place::ListKnob, 0, Color::Border),
        fill(
            Place::ListKnob,
            1,
            if white {
                Color::On
            } else {
                Color::Off
            },
        ),
        say(
            Place::ListKnob,
            Align::Centre,
            Words::Label(
                if white {
                    Label::White
                } else {
                    Label::Black
                },
            ),
            Color::Text,
        ),
    ]
}

/// The window of the filter.
pub open spec fn filter_ops(s: Option<SharedView>, input: Input) -> Seq<Op> {
    let items = fishable_in(s);
    Seq::<Op>::empty() + window_ops(filter_place(s)) + seq![say(Place::FilterTitle, Align::Corner, Words::Label(Label::Filter), Color::Title)]
        + row_ops(Place::ListRow, Label::List) + list_ops(white_in(s)) + cells_ops(
        served(s, input, Place::ListKnob, Switch::List),
        input,
        items,
        items.len(),
    )
}

/// The shared state after the window of the filter.
pub open spec fn filter_served(s: Option<SharedView>, input: Input) -> Option<SharedView> {
    let items = fishable_in(s);
    cells_served(
        served(s, input, Place::ListKnob, Switch::List),
        input,
        items,
        items.len(),
    )
}

/// The window of the filter.
pub open spec fn filter_place(s: Option<SharedView>) -> Place {
    Place::FilterWindow { rows: grid_rows(fishable_in(s).len()) as usize }
}

/// Whether the cursor is over the window of the filter.
pub open spec fn filter_over(s: Option<SharedView>, input: Input) -> bool {
    ||| input.over(filter_place(s))
    ||| input.over(Place::ListKnob)
    ||| cells_over(input, fishable_in(s).len())
}

fn fishable(store: &mut Store) -> (r: Vec<i32>)
    ensures
        r@ == fishable_in(old(store)@),
        final(store)@ == old(store)@,
{
    match store.open() {
        Some(s) => {
            let r = s.fishable.clone();
            assert(r@ =~= s.fishable@);
            r
        },
        None => Vec::new(),
    }
}

fn white_list(store: &mut Store) -> (r: bool)
    ensures
        r == white_in(old(store)@),
        final(store)@ == old(store)@,
{
    match store.open() {
        Some(s) => s.whitelist_mode,
        None => false,
    }
}

fn mark_of(store: &mut Store, item: i32) -> (r: Mark)
    ensures
        r == mark_in(old(store)@, item),
        final(store)@ == old(store)@,
{
    match store.open() {
        Some(s) => s.mark(item),
        None => Mark::Neutral,
    }
}

fn put_list(ops: &mut Vec<Op>, white: bool)
    ensures
        final(ops)@ == old(ops)@ + list_ops(white),
{
    put(ops, Place::ListKnob, 0, Color::Border);
    if white {
        put(ops, Place::ListKnob, 1, Color::On);
        put_text(
            ops,
            Place::ListKnob,
            Align::Centre,
            Words::Label(Label::White),
            Color::Text,
        );
    } else {
        put(ops, Place::ListKnob, 1, Color::Off);
        put_text(
            ops,
            Place::ListKnob,
            Align::Centre,
            Words::Label(Label::Black),
            Color::Text,
        );
    }
    assert(ops@ =~= old(ops)@ + list_ops(white));
}

fn rows_of(n: usize) -> (r: usize)
    ensures
        r == grid_rows(n as nat),
{
    let rows: usize = if n == 0 {
        1
    } else {
        (n - 1) / FILTER_COLS + 1
    };
    assert(rows == grid_rows(n as nat)) by (nonlinear_arith)
        requires
            n == 0 ==> rows == 1,
            n > 0 ==> rows == (n - 1) / 8 + 1,
            grid_rows(n as nat) == (if n == 0 {
                1int
            } else {
                (n + 8 - 1) / 8
            }),
    ;
    rows
}

fn filter_window(store: &mut Store, input: &Input) -> (r: Frame)
    ensures
        r.ops@ == filter_ops(old(store)@, *input),
        r.over_ui == filter_over(old(store)@, *input),
        final(store)@ == filter_served(old(store)@, *input),
{
    let items = fishable(store);
    let n: usize = items.len();
    let window = Place::FilterWindow { rows: rows_of(n) };
    let mut ops: Vec<Op> = Vec::new();
    put_window(&mut ops, window);
    put_text(
        &mut ops,
        Place::FilterTitle,
        Align::Corner,
        Words::Label(Label::Filter),
        Color::Title,
    );
    let white = white_list(store);
    put_row(&mut ops, Place::ListRow, Label::List);
    let over_knob = serve(store, input, Place::ListKnob, Switch::List);
    let mut over = input.hovers(window) || over_knob;
    put_list(&mut ops, white);
    let ghost begun = store@;
    let mut cells: Vec<Op> = Vec::new();
    let mut i: usize = 0;
    while i < n
        invariant
            i <= n == items@.len(),
            cells@ == cells_ops(begun, *input, items@, i as nat),
            store@ == cells_served(begun, *input, items@, i as nat),
            over == (input.over(window) || input.over(Place::ListKnob) || cells_over(
                *input,
                i as nat,
            )),
        decreases n - i,
    {
        let item: i32 = items[i];
        let place = Place::Cell { col: i % FILTER_COLS, row: i / FILTER_COLS };
        assert(place == cell(i as int));
        let mark = mark_of(store, item);
        if serve(store, input, place, Switch::Item(item)) {
            over = true;
        }
        let border = match mark {
            Mark::Allow => Color::MarkAllow,
            Mark::Deny => Color::MarkDeny,
            Mark::Neutral => Color::Border,
        };
        put_cell(&mut cells, place, border, Color::Slot, item);
        i = i + 1;
    }
    ops.append(&mut cells);
    Frame { over_ui: over, ops }
}

/// A row of the statistics.
pub open spec fn stat_ops(i: usize, label: Label, words: Words) -> Seq<Op> {
    row_ops(Place::StatsRow(i), label) + seq![
        say(Place::StatsRow(i), Align::Right, words, Color::Value),
    ]
}

/// The rows of the statistics.
pub open spec fn stats_rows(t: Stats) -> Seq<Op> {
    Seq::<Op>::empty() + stat_ops(0, Label::Time, Words::Clock(t.seconds)) + stat_ops(
        1,
        Label::Caught,
        Words::Number(t.caught as u64),
    ) + stat_ops(2, Label::Crates, Words::Number(t.crates as u64)) + stat_ops(
        3,
        Label::Skipped,
        Words::Number(t.skipped as u64),
    ) + stat_ops(4, Label::Average, Words::Seconds(t.average_bite)) + stat_ops(
        5,
        Label::Drunk,
        Words::Number(t.potions as u64),
    )
}

/// The window of the statistics; it has no rows where the shared state cannot be had.
pub open spec fn stats_place(s: Option<SharedView>) -> Place {
    Place::StatsWindow {
        rows: if s is Some {
            6
        } else {
            0
        },
    }
}

/// What the window of the statistics shows.
pub open spec fn stats_ops(s: Option<SharedView>) -> Seq<Op> {
    let head = Seq::<Op>::empty() + window_ops(stats_place(s)) + seq![
        say(Place::StatsTitle, Align::Corner, Words::Label(Label::Stats), Color::Title),
    ];
    match s {
        Some(s) => head + stats_rows(s.stats),
        None => head,
    }
}

fn put_stat(ops: &mut Vec<Op>, i: usize, label: Label, words: Words)
    ensures
        final(ops)@ == old(ops)@ + stat_ops(i, label, words),
{
    put_row(ops, Place::StatsRow(i), label);
    put_text(ops, Place::StatsRow(i), Align::Right, words, Color::Value);
    assert(ops@ =~= old(ops)@ + stat_ops(i, label, words));
}

fn stats_window(store: &mut Store, input: &Input) -> (r: Frame)
    ensures
        r.ops@ == stats_ops(old(store)@),
        r.over_ui == input.over(stats_place(old(store)@)),
        final(store)@ == old(store)@,
{
    let stats: Option<Stats> = match store.open() {
        Some(s) => Some(s.stats),
        None => None,
    };
    let rows: usize = if stats.is_some() {
        6
    } else {
        0
    };
    let window = Place::StatsWindow { rows };
    let mut ops: Vec<Op> = Vec::new();
    put_window(&mut ops, window);
    put_text(
        &mut ops,
        Place::StatsTitle,
        Align::Corner,
        Words::Label(Label::Stats),
        Color::Title,
    );
    if let Some(t) = stats {
        let mut lines: Vec<Op> = Vec::new();
        put_stat(&mut lines, 0, Label::Time, Words::Clock(t.seconds));
        put_stat(&mut lines, 1, Label::Caught, Words::Number(t.caught as u64));
        put_stat(&mut lines, 2, Label::Crates, Words::Number(t.crates as u64));
        put_stat(&mut lines, 3, Label::Skipped, Words::Number(t.skipped as u64));
        put_stat(&mut lines, 4, Label::Average, Words::Seconds(t.average_bite));
        put_stat(&mut lines, 5, Label::Drunk, Words::Number(t.potions as u64));
        ops.append(&mut lines);
    }
    Frame { over_ui: input.hovers(window), ops }
}

// ---------------------------------------------------------------------------
// The frame
// ---------------------------------------------------------------------------

/// The window after a click on its tab: it opens, or closes where it was open.
pub open spec fn tabbed(tab: Tab, input: Input, place: Place, target: Tab) -> Tab {
    if !input.hits(place) {
        tab
    } else if tab == target {
        Tab::Closed
    } else {
        target
    }
}

/// Whether the panel is expanded after the frame.
pub open spec fn expanded_after(ui: UiState, input: Input) -> bool {
    ui.expanded != input.hits(Place::Arrow)
}

/// What the panel keeps after the frame.
pub open spec fn ui_after(ui: UiState, input: Input) -> UiState {
    if expanded_after(ui, input) {
        UiState {
            expanded: true,
            tab: tabbed(
                tabbed(ui.tab, input, Place::FilterTab, Tab::Filter),
                input,
                Place::StatsTab,
                Tab::Stats,
            ),
        }
    } else {
        UiState { expanded: false, tab: ui.tab }
    }
}

/// The arrow. The button still shows the way that the panel was before a click; the
/// triangle drawn over it, the way it is now.
pub open spec fn arrow_ops(ui: UiState, input: Input) -> Seq<Op> {
    Seq::<Op>::empty() + button_ops(
        Place::Arrow,
        if ui.expanded {
            Label::Fold
        } else {
            Label::Unfold
        },
        false,
        input.over(Place::Arrow),
    ) + seq![
        Op::Triangle {
            place: Place::Arrow,
            up: expanded_after(ui, input),
            color: Color::Text,
        },
    ]
}

/// The two tabs.
pub open spec fn tabs_ops(ui: UiState, input: Input) -> Seq<Op> {
    Seq::<Op>::empty() + button_ops(
        Place::FilterTab,
        Label::Filter,
        ui.tab == Tab::Filter,
        input.over(Place::FilterTab),
    ) + button_ops(
        Place::StatsTab,
        Label::Stats,
        tabbed(ui.tab, input, Place::FilterTab, Tab::Filter) == Tab::Stats,
        input.over(Place::StatsTab),
    )
}

/// The strokes of the frame.
pub open spec fn frame_ops(
    s: Option<SharedView>,
    ui: UiState,
    input: Input,
    potions: Seq<Potion>,
) -> Seq<Op> {
    let arrow = arrow_ops(ui, input);
    if !expanded_after(ui, input) {
        arrow
    } else {
        let panel = arrow + main_ops(shown(s), potions) + tabs_ops(ui, input);
        match ui_after(ui, input).tab {
            Tab::Filter => panel + filter_ops(main_served(s, input), input),
            Tab::Stats => panel + stats_ops(main_served(s, input)),
            Tab::Closed => panel,
        }
    }
}

/// The shared state after the frame.
pub open spec fn frame_served(
    s: Option<SharedView>,
    ui: UiState,
    input: Input,
) -> Option<SharedView> {
    if !expanded_after(ui, input) {
        s
    } else if ui_after(ui, input).tab == Tab::Filter {
        filter_served(main_served(s, input), input)
    } else {
        main_served(s, input)
    }
}

/// Whether the cursor is over the arrow, the panel or the window that is open below it.
pub open spec fn frame_over(s: Option<SharedView>, ui: UiState, input: Input) -> bool {
    ||| input.over(Place::Arrow)
    ||| expanded_after(ui, input) && {
        ||| main_over(input)
        ||| input.over(Place::FilterTab)
        ||| input.over(Place::StatsTab)
        ||| ui_after(ui, input).tab == Tab::Filter && filter_over(main_served(s, input), input)
        ||| ui_after(ui, input).tab == Tab::Stats && input.over(stats_place(main_served(s, input)))
    }
}

fn switch_tab(tab: Tab, clicked: bool, target: Tab) -> (r: Tab)
    ensures
        r == if !clicked {
            tab
        } else if tab == target {
            Tab::Closed
        } else {
            target
        },
{
    if !clicked {
        tab
    } else if tab == target {
        Tab::Closed
    } else {
        target
    }
}

/// The places that the mouse matters to, whatever is open.
pub open spec fn sensitive(s: Option<SharedView>) -> Seq<Place> {
    seq![
        Place::Arrow,
        Place::Main,
        Place::Knob(0),
        Place::Knob(1),
        Place::Knob(4),
        Place::Slot(0),
        Place::Slot(1),
        Place::Slot(2),
        Place::FilterTab,
        Place::StatsTab,
        Place::ListKnob,
        filter_place(s),
        stats_place(s),
    ] + Seq::new(fishable_in(s).len(), |i: int| cell(i))
}

/// Lists the places that the mouse matters to, whatever is open.
pub fn places(store: &mut Store) -> (r: Vec<Place>)
    ensures
        r@ == sensitive(old(store)@),
        final(store)@ == old(store)@,
{
    let items = fishable(store);
    let n: usize = items.len();
    let rows: usize = match store.open() {
        Some(_) => 6,
        None => 0,
    };
    let mut r: Vec<Place> = vec![
        Place::Arrow,
        Place::Main,
        Place::Knob(0),
        Place::Knob(1),
        Place::Knob(4),
        Place::Slot(0),
        Place::Slot(1),
        Place::Slot(2),
        Place::FilterTab,
        Place::StatsTab,
        Place::ListKnob,
        Place::FilterWindow { rows: rows_of(n) },
        Place::StatsWindow { rows },
    ];
    let ghost fixed = r@;
    let mut i: usize = 0;
    while i < n
        invariant
            i <= n,
            r@ == fixed + Seq::new(i as nat, |j: int| cell(j)),
        decreases n - i,
    {
        r.push(Place::Cell { col: i % FILTER_COLS, row: i / FILTER_COLS });
        i = i + 1;
        assert(r@ =~= fixed + Seq::new(i as nat, |j: int| cell(j)));
    }
    assert(r@ =~= sensitive(old(store)@));
    r
}

/// Builds a frame of the panel and carries out what the mouse asks for.
pub fn build(
    store: &mut Store,
    ui: &mut UiState,
    input: &Input,
    potions: &[Potion; 3],
) -> (r: Frame)
    ensures
        r.ops@ == frame_ops(old(store)@, *old(ui), *input, potions@),
        r.over_ui == frame_over(old(store)@, *old(ui), *input),
        final(store)@ == frame_served(old(store)@, *old(ui), *input),
        *final(ui) == ui_after(*old(ui), *input),
{
    let mut ops: Vec<Op> = Vec::new();
    let over_arrow = input.hovers(Place::Arrow);
    let label = if ui.expanded {
        Label::Fold
    } else {
        Label::Unfold
    };
    put_button(&mut ops, Place::Arrow, label, false, over_arrow);
    if over_arrow && input.clicked {
        ui.expanded = !ui.expanded;
    }
    let triangle = Op::Triangle { place: Place::Arrow, up: ui.expanded, color: Color::Text };
    ops.push(triangle);
    assert(ops@ =~= arrow_ops(*old(ui), *input));
    if !ui.expanded {
        return Frame { over_ui: over_arrow, ops };
    }
    let mut panel = main_panel(store, input, potions);
    ops.append(&mut panel.ops);
    let mut tabs: Vec<Op> = Vec::new();
    let over_filter = input.hovers(Place::FilterTab);
    put_button(&mut tabs, Place::FilterTab, Label::Filter, ui.tab == Tab::Filter, over_filter);
    ui.tab = switch_tab(ui.tab, over_filter && input.clicked, Tab::Filter);
    let over_stats = input.hovers(Place::StatsTab);
    put_button(&mut tabs, Place::StatsTab, Label::Stats, ui.tab == Tab::Stats, over_stats);
    ui.tab = switch_tab(ui.tab, over_stats && input.clicked, Tab::Stats);
    ops.append(&mut tabs);
    let over = over_arrow || panel.over_ui || over_filter || over_stats;
    match ui.tab {
        Tab::Filter => {
            let mut window = filter_window(store, input);
            ops.append(&mut window.ops);
            Frame { over_ui: over || window.over_ui, ops }
        },
        Tab::Stats => {
            let mut window = stats_window(store, input);
            ops.append(&mut window.ops);
            Frame { over_ui: over || window.over_ui, ops }
        },
        Tab::Closed => Frame { over_ui: over, ops },
    }
}

} // verus!
