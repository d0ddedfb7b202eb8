//! What is hooked and what is left: marks, lists and enemies.

use vstd::prelude::*;

use crate::config::{Config, ConfigView, FilterMode, Found};
use crate::fishing::bite::AnnouncementView;
use crate::overlay::state::{Mark, SharedView};

verus! {

/// An enemy is hooked exactly where that is switched on, whatever the list and the marks.
pub proof fn law_enemies_heed_their_switch_alone(s: SharedView, catch: i32)
    requires
        catch < 0,
    ensures
        s.pulls(catch) == s.pull_enemy_spawns,
{
}

/// An item marked green is taken and one marked red is left, whatever else is switched or
/// marked; any other is taken exactly where the list is black.
pub proof fn law_marks_decide_on_items(s: SharedView, item: i32)
    requires
        item >= 0,
    ensures
        s.filter.dom().contains(item) && s.filter[item] == Mark::Allow ==> s.pulls(item),
        s.filter.dom().contains(item) && s.filter[item] == Mark::Deny ==> !s.pulls(item),
        !s.filter.dom().contains(item) || s.filter[item] == Mark::Neutral ==> s.pulls(item)
            == !s.whitelist_mode,
{
}

/// Two states that agree on an item, on the list and on enemies decide alike.
pub proof fn law_other_items_do_not_matter(s: SharedView, t: SharedView, catch: i32)
    requires
        s.whitelist_mode == t.whitelist_mode,
        s.pull_enemy_spawns == t.pull_enemy_spawns,
        s.filter.dom().contains(catch) == t.filter.dom().contains(catch),
        s.filter.dom().contains(catch) ==> s.filter[catch] == t.filter[catch],
    ensures
        s.pulls(catch) == t.pulls(catch),
        s.mark(catch) == t.mark(catch),
{
}

/// A click on an item marks it green, then red, then not at all; it marks no other item,
/// changes no switch, and asks for the configuration to be saved.
pub proof fn law_click_moves_the_mark_on(s: SharedView, item: i32, other: i32)
    ensures
        ({
            let t = s.cycled(item);
            let marked = s.filter.dom().contains(item);
            &&& !marked || s.filter[item] == Mark::Neutral ==> t.filter.dom().contains(item)
                && t.filter[item] == Mark::Allow
            &&& marked && s.filter[item] == Mark::Allow ==> t.filter.dom().contains(item)
                && t.filter[item] == Mark::Deny
            &&& marked && s.filter[item] == Mark::Deny ==> !t.filter.dom().contains(item)
            &&& other != item ==> t.filter.dom().contains(other) == s.filter.dom().contains(other)
            &&& other != item && s.filter.dom().contains(other) ==> t.filter[other]
                == s.filter[other]
            &&& t.dirty
            &&& t == (SharedView { filter: t.filter, dirty: true, ..s })
        }),
        s.filter.dom().contains(item) ==> s.mark(item) == s.filter[item],
        !s.filter.dom().contains(item) ==> s.mark(item) == Mark::Neutral,
        Mark::Neutral.following() == Mark::Allow,
        Mark::Allow.following() == Mark::Deny,
        Mark::Deny.following() == Mark::Neutral,
{
}

/// With nothing configured, rubbish is left and everything else is taken but enemies; a
/// full inventory is stacked, no potion is drunk, and the keys are Insert, End and Delete.
pub proof fn law_defaults(s: SharedView, item: i32)
    requires
        item >= 0,
    ensures
        ({
            let c = ConfigView::initial();
            let t = c.spread(s);
            &&& t.pulls(item) == (item != 2337 && item != 2338 && item != 2339)
            &&& forall|enemy: i32| enemy < 0 ==> !#[trigger] t.pulls(enemy)
            &&& !t.whitelist_mode && t.quick_stack && !t.auto_potions
            &&& t.potions == seq![true, false, true]
            &&& c.cursor_detour && c.disable_inactive_throttle
            &&& c.jitter_min_ms == 120 && c.jitter_max_ms == 480
            &&& c.hotkey_ui == 0x2D && c.hotkey_toggle == 0x23 && c.hotkey_unload == 0x2E
            &&& c.whitelist.len() == 0 && c.filter_mode == FilterMode::Blacklist
        }),
        ({
            let t = SharedView::initial();
            &&& !t.auto_fish && t.quick_stack && !t.auto_potions && !t.pull_enemy_spawns
            &&& !t.whitelist_mode && !t.dirty
            &&& t.potions == seq![true, false, true]
            &&& t.filter == Map::<i32, Mark>::empty()
            &&& t.fishable.len() == 0
        }),
{
    let c = ConfigView::initial();
    let b = c.blacklist;
    assert(b[0] == 2337 && b[1] == 2338 && b[2] == 2339);
    assert(b.contains(item) <==> item == 2337 || item == 2338 || item == 2339) by {
        if item == 2337 {
            assert(b[0] == item);
        } else if item == 2338 {
            assert(b[1] == item);
        } else if item == 2339 {
            assert(b[2] == item);
        }
    }
}

/// Restoring a configuration sets every switch of the panel to what the configuration says
/// and leaves what is no switch alone.
pub proof fn law_restoring_sets_every_switch(c: ConfigView, s: SharedView, item: i32)
    ensures
        ({
            let t = c.spread(s);
            let denied = c.blacklist.contains(item);
            let allowed = c.whitelist.contains(item);
            &&& t.quick_stack == c.quick_stack_when_full
            &&& t.auto_potions == c.auto_potions
            &&& t.pull_enemy_spawns == c.pull_enemy_spawns
            &&& t.whitelist_mode <==> c.filter_mode is Whitelist
            &&& t.potions == c.potions
            &&& denied && !allowed ==> t.mark(item) == Mark::Deny
            &&& allowed && !denied ==> t.mark(item) == Mark::Allow
            &&& allowed && denied ==> t.mark(item) == if c.filter_mode is Whitelist {
                Mark::Allow
            } else {
                Mark::Deny
            }
            &&& !allowed && !denied ==> t.mark(item) == Mark::Neutral
            &&& t.auto_fish == s.auto_fish && t.dirty == s.dirty && t.status == s.status
            &&& t.stats == s.stats && t.fishable == s.fishable && t.names == s.names
            &&& t.facts == s.facts
        }),
{
}

/// What is kept of the panel: every switch, and each marked item on the list of its mark,
/// and nothing else changes.
pub proof fn law_keeping_takes_every_switch(
    before: ConfigView,
    s: SharedView,
    kept: ConfigView,
    item: i32,
)
    requires
        kept.keeps(before, s),
    ensures
        kept.quick_stack_when_full == s.quick_stack,
        kept.auto_potions == s.auto_potions,
        kept.pull_enemy_spawns == s.pull_enemy_spawns,
        kept.potions == s.potions,
        s.whitelist_mode <==> kept.filter_mode is Whitelist,
        kept.blacklist.contains(item) <==> s.filter.dom().contains(item) && s.filter[item]
            == Mark::Deny,
        kept.whitelist.contains(item) <==> s.filter.dom().contains(item) && s.filter[item]
            == Mark::Allow,
        forall|i: int, j: int|
            0 <= i < j < kept.blacklist.len() ==> kept.blacklist[i] < kept.blacklist[j],
        forall|i: int, j: int|
            0 <= i < j < kept.whitelist.len() ==> kept.whitelist[i] < kept.whitelist[j],
        kept.cursor_detour == before.cursor_detour,
        kept.disable_inactive_throttle == before.disable_inactive_throttle,
        kept.jitter_min_ms == before.jitter_min_ms && kept.jitter_max_ms == before.jitter_max_ms,
        kept.hotkey_ui == before.hotkey_ui && kept.hotkey_toggle == before.hotkey_toggle
            && kept.hotkey_unload == before.hotkey_unload,
{
}

/// A file that makes sense counts and is left alone; a broken one is left alone too, and
/// the defaults hold; a missing one is written with the defaults.
pub proof fn law_files_are_respected(c: Config)
    ensures
        crate::config::loaded(Found::Parsed(c)).0 == c@,
        !crate::config::loaded(Found::Parsed(c)).1,
        !crate::config::loaded(Found::Broken).1,
        crate::config::loaded(Found::Missing).1,
        crate::config::loaded(Found::Broken).0 == ConfigView::initial(),
        crate::config::loaded(Found::Missing).0 == ConfigView::initial(),
        FilterMode::Blacklist.other() is Whitelist,
        FilterMode::Whitelist.other() is Blacklist,
{
}

/// What the player is told of a bite: of every enemy, whether it was hooked; of every item
/// that was left, and by which list; of an item that was hooked only where the angler asks
/// for it.
pub proof fn law_what_is_told(s: SharedView, rolled: i32, hooked: bool, enemy: Option<Seq<char>>)
    ensures
        ({
            let told = crate::fishing::bite::told(Some(s), rolled, hooked, enemy);
            let name = crate::fishing::bite::name_of(Some(s), rolled);
            let known = s.facts.dom().contains(rolled);
            &&& rolled < 0 && enemy is Some ==> told == Some(
                AnnouncementView::Spawn { name: enemy->0, hooked },
            )
            &&& rolled < 0 && enemy is None ==> told == Some(
                AnnouncementView::Spawn {
                    name: "#"@ + crate::text::signed(-(rolled as int)),
                    hooked,
                },
            )
            &&& rolled >= 0 && !hooked ==> told == Some(
                AnnouncementView::Skipped { item: rolled, name, whitelist: s.whitelist_mode },
            )
            &&& rolled >= 0 && hooked && known && s.facts[rolled].quest ==> told == Some(
                AnnouncementView::Quest { item: rolled, name },
            )
            &&& rolled >= 0 && hooked && !(known && s.facts[rolled].quest) ==> told is None
            &&& known ==> name == s.facts[rolled].display
            &&& !known ==> name == "#"@ + crate::text::signed(rolled as int)
        }),
{
    reveal_strlit("#");
    assert("#"@ =~= seq!['#']);
}

} // verus!
