//! What is counted and found in the inventory and among the projectiles.

use vstd::prelude::*;

use crate::clr::VarView;
use crate::game::{
    BaitCount, FreeCount, ItemPart, ItemSearch, ItemView, Look, Need, Part, ProjectileView, Search,
};

verus! {

/// An item of whole numbers in the inventory.
pub open spec fn plain_item(item: ItemView, kind: i32, stack: i32, bait: i32) -> bool {
    &&& item.slot is Object
    &&& item.kind == VarView::Int(kind)
    &&& item.stack == VarView::Int(stack)
    &&& item.bait == VarView::Int(bait)
}

/// An item is bait by the whole of its stack where it has bait power; a slot is free where
/// nothing is in it; an item is of its kind where there is some of it. An empty slot is
/// free and nothing else.
pub proof fn law_what_an_item_is(item: ItemView, kind: i32, stack: i32, bait: i32, sought: i32)
    ensures
        plain_item(item, kind, stack, bait) ==> {
            &&& item.as_bait() == if stack > 0 && bait > 0 {
                stack as int
            } else {
                0
            }
            &&& item.is_free() <==> kind == 0 || stack == 0
            &&& item.is_kind(sought) <==> kind == sought && stack > 0
        },
        item.slot is Null ==> item.as_bait() == 0 && item.is_free() && !item.is_kind(sought),
        item.part(ItemPart::Slot) == item.slot,
        item.part(ItemPart::Kind) == item.kind,
        item.part(ItemPart::Stack) == item.stack,
        item.part(ItemPart::Bait) == item.bait,
{
}

/// The whole inventory of 59 slots is counted for bait and its main grid of 50 for free
/// slots: one more slot adds its own bait, or itself where it is free.
pub proof fn law_counts_add_up(items: Seq<ItemView>, n: int)
    requires
        n >= 0,
    ensures
        crate::game::bait_among(items, 0) == 0,
        crate::game::bait_among(items, n + 1) == crate::game::bait_among(items, n)
            + items[n].as_bait(),
        crate::game::free_among(items, 0) == 0,
        crate::game::free_among(items, n + 1) == crate::game::free_among(items, n) + if items[n].is_free() {
            1int
        } else {
            0
        },
        crate::game::INVENTORY_SLOTS == 59,
        crate::game::INVENTORY_MAIN_SLOTS == 50,
        crate::game::MAX_PROJECTILES == 1001,
{
}

/// The counts and the search begin with the first slot and look at every slot that is
/// theirs: behind the last they are done.
pub proof fn law_slots_are_looked_at_in_turn(bait: BaitCount, free: FreeCount, search: ItemSearch, i: i32)
    ensures
        BaitCount::initial().look == (Look::Read { index: 0, part: ItemPart::Slot }),
        BaitCount::initial().total == 0,
        FreeCount::initial().look == (Look::Read { index: 0, part: ItemPart::Slot }),
        FreeCount::initial().free == 0,
        ItemSearch::initial(i).look == (Look::Read { index: 0, part: ItemPart::Slot }),
        ItemSearch::initial(i).item == i && ItemSearch::initial(i).slot is None,
        bait.look == (Look::Read { index: i, part: ItemPart::Slot }) && 0 <= i < 58 ==> bait.told(
            VarView::Null,
        ) == (BaitCount {
            look: Look::Read { index: (i + 1) as i32, part: ItemPart::Slot },
            ..bait
        }),
        bait.look == (Look::Read { index: 58, part: ItemPart::Slot }) ==> bait.told(VarView::Null)
            == (BaitCount { look: Look::Done, ..bait }),
        free.look == (Look::Read { index: 49, part: ItemPart::Slot }) && free.free < 50
            ==> free.told(VarView::Null) == (FreeCount {
            look: Look::Done,
            free: (free.free + 1) as i32,
        }),
        search.look == (Look::Read { index: 49, part: ItemPart::Slot }) ==> search.told(
            VarView::Null,
        ) == (ItemSearch { look: Look::Done, ..search }),
{
}

/// Whether a projectile is a bobber of a player: it is there, it is active, it is a bobber,
/// and it belongs to that player.
pub proof fn law_what_a_bobber_is(
    p: ProjectileView,
    active: bool,
    bobber: bool,
    owner: i32,
    me: i32,
    index: i32,
)
    ensures
        p.slot is Object && p.active == VarView::Bool(active) && p.bobber == VarView::Bool(bobber)
            && p.owner == VarView::Int(owner) ==> (p.is_bobber_of(me) <==> active && bobber
            && owner == me),
        p.slot is Null ==> !p.is_bobber_of(me),
        p.bobber(index).index == index,
        p.ai0 matches VarView::Float(x) ==> p.bobber(index).ai0 == x,
        p.ai1 matches VarView::Float(x) ==> p.bobber(index).ai1 == x,
        p.local_ai1 matches VarView::Float(x) ==> p.bobber(index).local_ai1 == x,
        p.part(Part::Slot) == p.slot && p.part(Part::Active) == p.active && p.part(Part::Bobber)
            == p.bobber && p.part(Part::Owner) == p.owner && p.part(Part::Ai0) == p.ai0 && p.part(
            Part::Ai1,
        ) == p.ai1 && p.part(Part::LocalAi1) == p.local_ai1,
{
}

/// The bobber of the player is found wherever it is: at the place where it was found last,
/// or else at the lowest number where there is one; and only where there is none anywhere,
/// or no player, is nothing found.
pub proof fn law_bobber_is_found_wherever_it_is(
    me: i32,
    hint: Option<i32>,
    p: Seq<ProjectileView>,
)
    requires
        p.len() == 1001,
    ensures
        ({
            let end = crate::game::searched(Search::initial(me, hint), p, 7014);
            let hinted = hint is Some && 0 <= hint->0 < 1001 && p[hint->0 as int].is_bobber_of(me);
            &&& me < 0 ==> end is Nothing
            &&& me >= 0 && hinted ==> end == Need::Found(p[hint->0 as int].bobber(hint->0))
            &&& me >= 0 && !hinted ==> {
                ||| end is Nothing && forall|j: int| 0 <= j < 1001 ==> !(#[trigger] p[j]).is_bobber_of(me)
                ||| (exists|i: int| {
                    &&& 0 <= i < 1001
                    &&& (#[trigger] p[i]).is_bobber_of(me)
                    &&& end == Need::Found(p[i].bobber(i as i32))
                    &&& forall|j: int| 0 <= j < i ==> !(#[trigger] p[j]).is_bobber_of(me)
                })
            }
        }),
{
    crate::game::law_search_finds_the_bobber(me, hint, p);
    if !(hint is Some && 0 <= hint->0 < 1001 && p[hint->0 as int].is_bobber_of(me)) {
        lemma_sought(me, hint, p, 0);
    }
}

proof fn lemma_sought(me: i32, hint: Option<i32>, p: Seq<ProjectileView>, from: int)
    requires
        p.len() == 1001,
        0 <= from <= 1001,
        hint is Some && 0 <= hint->0 < 1001 ==> !p[hint->0 as int].is_bobber_of(me),
    ensures
        ({
            let end = crate::game::sought(me, hint, p, from);
            ||| end is Nothing && forall|j: int|
                from <= j < 1001 ==> !(#[trigger] p[j]).is_bobber_of(me)
            ||| (exists|i: int| {
                &&& from <= i < 1001
                &&& (#[trigger] p[i]).is_bobber_of(me)
                &&& end == Need::Found(p[i].bobber(i as i32))
                &&& forall|j: int| from <= j < i ==> !(#[trigger] p[j]).is_bobber_of(me)
            })
        }),
    decreases 1001 - from,
{
    if from < 1001 {
        if p[from].is_bobber_of(me) {
            assert(hint != Some(from as i32));
            assert(crate::game::sought(me, hint, p, from) == Need::Found(
                p[from].bobber(from as i32),
            ));
        } else {
            lemma_sought(me, hint, p, from + 1);
            assert(crate::game::sought(me, hint, p, from) == crate::game::sought(
                me,
                hint,
                p,
                from + 1,
            ));
            let end = crate::game::sought(me, hint, p, from + 1);
            if !(end is Nothing) {
                let i = choose|i: int| {
                    &&& from + 1 <= i < 1001
                    &&& (#[trigger] p[i]).is_bobber_of(me)
                    &&& end == Need::Found(p[i].bobber(i as i32))
                    &&& forall|j: int| from + 1 <= j < i ==> !(#[trigger] p[j]).is_bobber_of(me)
                };
                assert(p[i].is_bobber_of(me));
                assert(forall|j: int| from <= j < i ==> !(#[trigger] p[j]).is_bobber_of(me));
            }
        }
    }
}

} // verus!
