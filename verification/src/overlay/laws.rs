//! Laws of the panel and of the overlay that carries it.

use vstd::prelude::*;

use super::state::SharedView;
use super::{
    Coming, DeviceCall, InstallReply, InstallStage, LeaveStage, OverlayView, Resources, MAX_HOOKS,
};
use super::ui::{Input, Place, Switch, Tab, UiState, FILTER_COLS};

verus! {

/// What a click on a place turns, when the panel stands like this.
pub open spec fn switch_at(s: SharedView, ui: UiState, place: Place) -> Option<Switch> {
    if !ui.expanded {
        None
    } else {
        match place {
            Place::Knob(0) => Some(Switch::AutoFish),
            Place::Knob(1) => Some(Switch::QuickStack),
            Place::Knob(4) => Some(Switch::AutoPotions),
            Place::Slot(i) if i < 3 => Some(Switch::Potion(i)),
            Place::ListKnob if ui.tab == Tab::Filter => Some(Switch::List),
            Place::Cell { col, row } if ui.tab == Tab::Filter && col < FILTER_COLS && row
                * FILTER_COLS + col < s.fishable.len() => Some(
                Switch::Item(s.fishable[row * FILTER_COLS + col]),
            ),
            _ => None,
        }
    }
}

/// Whether a place is only looked at: a window, a row, a text. Switches, buttons and
/// cells lie on such places.
pub open spec fn is_ground(place: Place) -> bool {
    match place {
        Place::Main | Place::MainTitle | Place::Row(_) | Place::Ring | Place::RingText
        | Place::PotionsText | Place::FilterWindow { .. } | Place::FilterTitle | Place::ListRow
        | Place::StatsWindow { .. } | Place::StatsTitle | Place::StatsRow(_) => true,
        _ => false,
    }
}

/// Whether the cursor is on a place, and besides that only on what lies behind it.
pub open spec fn points_at(input: Input, place: Place) -> bool {
    &&& input.over(place)
    &&& forall|other: Place| #[trigger] input.over(other) ==> other == place || is_ground(other)
}

/// Cells that are not under the cursor are not turned.
proof fn lemma_cells_untouched(
    s: Option<SharedView>,
    input: Input,
    items: Seq<i32>,
    n: nat,
)
    requires
        forall|i: int| 0 <= i < n ==> !input.hits(#[trigger] super::ui::cell(i)),
    ensures
        super::ui::cells_served(s, input, items, n) == s,
    decreases n,
{
    if n > 0 {
        lemma_cells_untouched(s, input, items, (n - 1) as nat);
        assert(!input.hits(super::ui::cell(n - 1)));
    }
}

/// Two cells are different places.
proof fn lemma_cells_differ(i: int, j: int)
    requires
        0 <= i <= usize::MAX,
        0 <= j <= usize::MAX,
        i != j,
    ensures
        super::ui::cell(i) != super::ui::cell(j),
{
    assert(i / 8 != j / 8 || i % 8 != j % 8);
}

/// Of the cells, exactly the one that is clicked is turned.
proof fn lemma_one_cell(
    s: Option<SharedView>,
    input: Input,
    items: Seq<i32>,
    at: int,
    n: nat,
)
    requires
        0 <= at < n <= items.len() <= usize::MAX,
        input.clicked,
        points_at(input, super::ui::cell(at)),
        s is Some,
    ensures
        super::ui::cells_served(s, input, items, n) == Some(
            super::ui::turned(s->0, Switch::Item(items[at])),
        ),
    decreases n,
{
    let last = n - 1;
    if at == last {
        assert forall|i: int| 0 <= i < last implies !input.hits(#[trigger] super::ui::cell(i)) by {
            lemma_cells_differ(i, at);
        }
        lemma_cells_untouched(s, input, items, last as nat);
    } else {
        lemma_cells_differ(at, last);
        lemma_one_cell(s, input, items, at, last as nat);
    }
}

/// A click on a place, with whatever window and row lies behind it, turns exactly the
/// switch that is there, if there is one, and turns nothing else.
pub proof fn law_one_click_turns_one_switch(
    s: SharedView,
    ui: UiState,
    input: Input,
    place: Place,
)
    requires
        input.clicked,
        points_at(input, place),
        !(place is Arrow) && !(place is FilterTab) && !(place is StatsTab),
        s.fishable.len() <= usize::MAX,
    ensures
        super::ui::frame_served(Some(s), ui, input) == match switch_at(s, ui, place) {
            Some(switch) => Some(super::ui::turned(s, switch)),
            None => Some(s),
        },
        super::ui::ui_after(ui, input) == ui,
{
    if ui.expanded && ui.tab == Tab::Filter {
        let items = s.fishable;
        let before = super::ui::main_served(Some(s), input);
        let begun = super::ui::served(before, input, Place::ListKnob, Switch::List);
        assert(super::ui::fishable_in(before) == items);
        if place is Cell {
            let col = place->col as int;
            let row = place->row as int;
            let at = row * 8 + col;
            if col < 8 && at < items.len() {
                assert(at / 8 == row && at % 8 == col);
                assert(place == super::ui::cell(at));
                lemma_one_cell(begun, input, items, at, items.len());
            } else {
                assert forall|i: int| 0 <= i < items.len() implies !input.hits(
                    #[trigger] super::ui::cell(i),
                ) by {
                    assert(i == (i / 8) * 8 + i % 8);
                }
                lemma_cells_untouched(begun, input, items, items.len());
            }
        } else {
            assert forall|i: int| 0 <= i < items.len() implies !input.hits(
                #[trigger] super::ui::cell(i),
            ) by {
                assert(super::ui::cell(i) is Cell);
            }
            lemma_cells_untouched(begun, input, items, items.len());
        }
    }
}

/// Without a click a frame changes nothing.
pub proof fn law_looking_changes_nothing(s: Option<SharedView>, ui: UiState, input: Input)
    requires
        !input.clicked,
    ensures
        super::ui::frame_served(s, ui, input) == s,
        super::ui::ui_after(ui, input) == ui,
{
    let items = super::ui::fishable_in(s);
    lemma_cells_untouched(s, input, items, items.len());
}

/// A folded panel answers to its arrow and to nothing else, and keeps its window for
/// when it is unfolded.
pub proof fn law_folded_panel_is_deaf(s: Option<SharedView>, ui: UiState, input: Input)
    requires
        !super::ui::expanded_after(ui, input),
    ensures
        super::ui::frame_served(s, ui, input) == s,
        super::ui::frame_over(s, ui, input) == input.over(Place::Arrow),
        super::ui::ui_after(ui, input) == (UiState { expanded: false, tab: ui.tab }),
{
}

/// A click that turns something is kept from the game.
pub proof fn law_what_is_clicked_is_claimed(s: Option<SharedView>, ui: UiState, input: Input)
    ensures
        super::ui::frame_served(s, ui, input) != s || super::ui::ui_after(ui, input) != ui
            ==> super::ui::frame_over(s, ui, input),
{
    if super::ui::expanded_after(ui, input) && super::ui::ui_after(ui, input).tab == Tab::Filter
        && !super::ui::frame_over(s, ui, input) {
        let items = super::ui::fishable_in(s);
        lemma_nothing_over(input, items.len());
        lemma_cells_untouched(s, input, items, items.len());
    }
}

/// A click on the open panel, or on the window that is open below it, is kept from the
/// game, also where it turns nothing.
pub proof fn law_open_windows_keep_the_mouse(s: Option<SharedView>, ui: UiState, input: Input)
    requires
        super::ui::expanded_after(ui, input),
    ensures
        input.over(Place::Main) ==> super::ui::frame_over(s, ui, input),
        super::ui::ui_after(ui, input).tab == Tab::Filter && input.over(super::ui::filter_place(s))
            ==> super::ui::frame_over(s, ui, input),
        super::ui::ui_after(ui, input).tab == Tab::Stats && input.over(super::ui::stats_place(s))
            ==> super::ui::frame_over(s, ui, input),
{
}

/// Away from the places that the mouse matters to, the game keeps it and the panel stays
/// as it is.
pub proof fn law_rest_of_the_screen_is_the_games(
    s: Option<SharedView>,
    ui: UiState,
    input: Input,
)
    requires
        forall|place: Place| #[trigger]
            super::ui::sensitive(s).contains(place) ==> !input.over(place),
    ensures
        !super::ui::frame_over(s, ui, input),
        super::ui::frame_served(s, ui, input) == s,
        super::ui::ui_after(ui, input) == ui,
{
    let places = super::ui::sensitive(s);
    let items = super::ui::fishable_in(s);
    assert forall|i: int| 0 <= i < places.len() implies !input.over(#[trigger] places[i]) by {
        assert(places.contains(places[i]));
    }
    assert(!input.over(places[0]));
    assert(!input.over(places[1]));
    assert(!input.over(places[2]));
    assert(!input.over(places[3]));
    assert(!input.over(places[4]));
    assert(!input.over(places[5]));
    assert(!input.over(places[6]));
    assert(!input.over(places[7]));
    assert(!input.over(places[8]));
    assert(!input.over(places[9]));
    assert(!input.over(places[10]));
    assert(!input.over(places[11]));
    assert(!input.over(places[12]));
    assert forall|i: int| 0 <= i < items.len() implies !input.over(
        #[trigger] super::ui::cell(i),
    ) by {
        assert(places[13 + i] == super::ui::cell(i));
    }
    lemma_no_cell_over(input, items.len());
    law_what_is_clicked_is_claimed(s, ui, input);
}

proof fn lemma_no_cell_over(input: Input, n: nat)
    requires
        forall|i: int| 0 <= i < n ==> !input.over(#[trigger] super::ui::cell(i)),
    ensures
        !super::ui::cells_over(input, n),
    decreases n,
{
    if n > 0 {
        lemma_no_cell_over(input, (n - 1) as nat);
        assert(!input.over(super::ui::cell(n - 1)));
    }
}

proof fn lemma_nothing_over(input: Input, n: nat)
    requires
        !super::ui::cells_over(input, n),
    ensures
        forall|i: int| 0 <= i < n ==> !input.hits(#[trigger] super::ui::cell(i)),
    decreases n,
{
    if n > 0 {
        lemma_nothing_over(input, (n - 1) as nat);
    }
}

/// A switch turned twice is back where it was; an item takes three turns.
pub proof fn law_turning_back(s: SharedView, switch: Switch)
    requires
        switch matches Switch::Potion(i) ==> i < s.potions.len(),
    ensures
        !(switch is Item) ==> super::ui::turned(super::ui::turned(s, switch), switch) == (
        SharedView { dirty: true, ..s }),
        switch matches Switch::Item(item) ==> super::ui::turned(
            super::ui::turned(super::ui::turned(s, switch), switch),
            switch,
        ).mark(item) == s.mark(item),
{
    if let Switch::Potion(i) = switch {
        let twice = super::ui::turned(super::ui::turned(s, switch), switch);
        assert(twice.potions =~= s.potions);
    }
}

/// A click on the tab of a window, with the panel behind it, opens the window, and closes
/// it where it is open; the other window gives way.
pub proof fn law_one_window_at_a_time(ui: UiState, input: Input, place: Place)
    requires
        ui.expanded,
        input.clicked,
        points_at(input, place),
        place is FilterTab || place is StatsTab,
    ensures
        ({
            let target = if place is FilterTab {
                Tab::Filter
            } else {
                Tab::Stats
            };
            super::ui::ui_after(ui, input) == (UiState {
                expanded: true,
                tab: if ui.tab == target {
                    Tab::Closed
                } else {
                    target
                },
            })
        }),
{
}

// ---------------------------------------------------------------------------
// The overlay
// ---------------------------------------------------------------------------

/// No function is led to the overlay twice, and no empty address is.
pub proof fn law_targets_are_distinct(first: Option<usize>, second: Option<usize>)
    ensures
        super::distinct(first, second).len() <= MAX_HOOKS,
        super::distinct(first, second).no_duplicates(),
        !super::distinct(first, second).contains(0),
{
}

/// The answer to what a coming asks for, once its functions are known and `original` says
/// which of them can be led to the overlay.
pub open spec fn answer(
    stage: InstallStage,
    original: spec_fn(usize) -> Option<usize>,
) -> InstallReply {
    match stage {
        InstallStage::Present { slot, target } => InstallReply::Original(original(target)),
        InstallStage::Reset { slot, target } => InstallReply::Original(original(target)),
        _ => InstallReply::Done,
    }
}

/// A coming carried on for so many steps.
pub open spec fn carried_on(
    c: Coming,
    original: spec_fn(usize) -> Option<usize>,
    steps: nat,
) -> Coming
    decreases steps,
{
    if steps == 0 || c.job.stage is Over {
        c
    } else {
        carried_on(
            c.after(answer(c.job.stage, original)),
            original,
            (steps - 1) as nat,
        )
    }
}

/// Once its functions are known, a coming succeeds exactly where some `Present` can be
/// led to the overlay; the overlay then draws, and is not there otherwise.
pub proof fn law_some_present_is_enough(c: Coming, original: spec_fn(usize) -> Option<usize>)
    requires
        c.wf(),
        c.overlay.installed,
        !c.job.hooked,
        c.job.presents.len() > 0,
        c.overlay.present.len() == MAX_HOOKS,
    ensures
        ({
            let end = carried_on(c.to_present(0), original, 5);
            let hooked = exists|i: int|
                0 <= i < c.job.presents.len() && original(#[trigger] c.job.presents[i]) is Some;
            &&& end.job.stage == InstallStage::Over(hooked)
            &&& end.overlay.installed == hooked
            &&& hooked ==> end.overlay.active
        }),
{
    reveal_with_fuel(carried_on, 6);
    let p = c.job.presents;
    assert(p.len() == 1 || p.len() == 2);
}

/// The functions off which a leaving overlay is taken, from a number on.
pub open spec fn departures(o: OverlayView, number: int) -> Seq<usize>
    decreases 4 - number,
{
    if number >= 4 {
        Seq::empty()
    } else if super::target(o, number) != 0 {
        seq![super::target(o, number)] + departures(super::untargeted(o, number), number + 1)
    } else {
        departures(o, number + 1)
    }
}

/// The overlay when it has been taken off all functions, from a number on.
pub open spec fn departed(o: OverlayView, number: int) -> OverlayView
    decreases 4 - number,
{
    if number >= 4 {
        o
    } else if super::target(o, number) != 0 {
        departed(super::untargeted(o, number), number + 1)
    } else {
        departed(o, number + 1)
    }
}

/// The steps of a leaving are those of [`departures`]: each takes the overlay off the next
/// function that still leads to it.
pub proof fn law_leaving_goes_through_the_functions(o: OverlayView, number: int)
    requires
        0 <= number <= 4,
    ensures
        match super::unhook_stage(o, number) {
            LeaveStage::Unhook { number: n, target } => {
                &&& number <= n < 4
                &&& departures(o, number) == seq![target] + departures(
                    super::unhook_state(o, number),
                    n + 1,
                )
                &&& departed(o, number) == departed(super::unhook_state(o, number), n + 1)
            },
            end => {
                &&& end is Over
                &&& departures(o, number) == Seq::<usize>::empty()
                &&& departed(o, number) == o
            },
        },
    decreases 4 - number,
{
    if number < 4 && super::target(o, number) == 0 {
        law_leaving_goes_through_the_functions(o, number + 1);
    }
}

/// The function of an address, where it is one.
pub open spec fn named(target: usize) -> Seq<usize> {
    if target != 0 {
        seq![target]
    } else {
        Seq::empty()
    }
}

/// A leaving overlay is taken off every function that leads to it, each of them once,
/// and off nothing else; then none leads to it any more.
pub proof fn law_nothing_leads_to_a_gone_overlay(o: OverlayView)
    requires
        o.present.len() == MAX_HOOKS,
        o.reset.len() == MAX_HOOKS,
    ensures
        departures(o, 0) == named(o.present[0]) + named(o.reset[0]) + named(o.present[1]) + named(
            o.reset[1],
        ),
        departed(o, 0).present == seq![0usize, 0],
        departed(o, 0).reset == seq![0usize, 0],
{
    reveal_with_fuel(departures, 5);
    reveal_with_fuel(departed, 5);
    assert(departures(o, 0) =~= named(o.present[0]) + named(o.reset[0]) + named(o.present[1])
        + named(o.reset[1]));
    assert(departed(o, 0).present =~= seq![0usize, 0]);
    assert(departed(o, 0).reset =~= seq![0usize, 0]);
}

/// An overlay that has begun to leave draws no more frame, and gives its resources back
/// with the first one that comes by.
pub proof fn law_leaving_overlay_is_quiet(o: OverlayView, now: u64, slot: int, show: bool)
    requires
        o.installed,
        o.resources.some(),
    ensures
        ({
            let leaving = super::leave_begun(o, now).0;
            let seen = super::frame_seen(leaving);
            &&& !super::frame_plan(leaving, slot, show).draw
            &&& super::frame_plan(leaving, slot, show).release == o.resources
            &&& seen.resources == Resources::none()
            &&& seen.released
            &&& !super::frame_plan(seen, slot, show).draw
            &&& super::frame_plan(seen, slot, show).release == Resources::none()
        }),
{
}

/// The game gets its device back as it was: its states are kept before anything is
/// drawn, and at the end no texture is left, the states are back and the scene is over.
pub proof fn law_device_is_given_back(areas: bool, letters: bool)
    ensures
        ({
            let calls = super::device_calls(areas, letters);
            let n = calls.len();
            &&& n >= 5
            &&& calls[0] == DeviceCall::Capture
            &&& calls[n - 3] == DeviceCall::NoTexture
            &&& calls[n - 2] == DeviceCall::Apply
            &&& calls[n - 1] == DeviceCall::EndScene
        }),
{
}

} // verus!
