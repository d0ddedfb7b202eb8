//! The potions of a whole tick.

use vstd::prelude::*;

use crate::fishing::tick::{EventView, RequestView, Rules, Stage, Step, Wanted, World};

verus! {

/// What the game has to say of buffs and potions.
pub struct Cellar {
    /// Whether a buff is on, where that can be read.
    pub buff: spec_fn(i32) -> Option<bool>,
    /// The slot of an item, where there is one.
    pub slot: spec_fn(i32) -> Option<i32>,
    /// Whether drinking from a slot works.
    pub works: spec_fn(i32) -> bool,
}

impl Cellar {
    /// The answer to a request.
    pub open spec fn answer(self, request: RequestView) -> EventView {
        match request {
            RequestView::Buff(buff) => EventView::Buff((self.buff)(buff)),
            RequestView::Find(item) => EventView::Found((self.slot)(item)),
            RequestView::Drink { slot, buff } => EventView::Drunk((self.works)(slot)),
            _ => EventView::Done,
        }
    }
}

/// The requests from a step on that have to do with potions.
pub open spec fn requests(
    t: Step,
    rules: Rules,
    cellar: Cellar,
    now: u64,
    limit: nat,
) -> Seq<RequestView>
    decreases limit,
{
    if limit == 0 || !(t.stage is Buff || t.stage is Find || t.stage is Drink || t.stage is Drunk) {
        Seq::empty()
    } else {
        seq![t.request] + requests(
            t.world.stepped(rules, t.stage, cellar.answer(t.request), now),
            rules,
            cellar,
            now,
            (limit - 1) as nat,
        )
    }
}

/// Whether a potion is to be drunk from a slot: it was selected, its buff is off, and its
/// item is in that slot.
pub open spec fn is_due(rules: Rules, wanted: Wanted, cellar: Cellar, i: int, slot: i32) -> bool {
    &&& 0 <= i < 3
    &&& super::ticks::selected(wanted, i)
    &&& (cellar.buff)(rules.potions[i].buff) == Some(false)
    &&& (cellar.slot)(rules.potions[i].item) == Some(slot)
}

/// Whether the requests drink exactly the potions from a number on that are to be drunk,
/// look for the items of those alone whose buff is off, and ask for the buffs of those alone
/// that were selected.
#[verifier::opaque]
pub open spec fn serves(
    rules: Rules,
    wanted: Wanted,
    cellar: Cellar,
    from: int,
    r: Seq<RequestView>,
) -> bool {
    &&& forall|k: int|
        0 <= k < r.len() ==> (#[trigger] r[k] matches RequestView::Drink { slot, buff } ==> exists|
            i: int,
        |
            from <= i && #[trigger] is_due(rules, wanted, cellar, i, slot) && buff
                == rules.potions[i].buff)
    &&& forall|k: int|
        0 <= k < r.len() ==> (#[trigger] r[k] matches RequestView::Find(item) ==> exists|i: int|
            from <= i < 3 && #[trigger] super::ticks::selected(wanted, i) && item == rules.potions[i].item && (
            cellar.buff)(rules.potions[i].buff) == Some(false))
    &&& forall|k: int|
        0 <= k < r.len() ==> (#[trigger] r[k] matches RequestView::Buff(buff) ==> exists|i: int|
            from <= i < 3 && #[trigger] super::ticks::selected(wanted, i) && buff == rules.potions[i].buff)
    &&& forall|i: int, slot: i32|
        from <= i && #[trigger] is_due(rules, wanted, cellar, i, slot) ==> r.contains(
            RequestView::Drink { slot, buff: rules.potions[i].buff },
        )
}

proof fn lemma_prepend(
    rules: Rules,
    wanted: Wanted,
    cellar: Cellar,
    from: int,
    index: int,
    head: Seq<RequestView>,
    rest: Seq<RequestView>,
)
    requires
        0 <= from <= index < 3,
        super::ticks::selected(wanted, index),
        forall|j: int| from <= j < index ==> !super::ticks::selected(wanted, j),
        serves(rules, wanted, cellar, index + 1, rest),
        forall|k: int|
            0 <= k < head.len() ==> {
                ||| #[trigger] head[k] == RequestView::Buff(rules.potions[index].buff)
                ||| head[k] == RequestView::Find(rules.potions[index].item) && (cellar.buff)(
                    rules.potions[index].buff,
                ) == Some(false)
                ||| (head[k] matches RequestView::Drink { slot, buff } && is_due(
                    rules,
                    wanted,
                    cellar,
                    index,
                    slot,
                ) && buff == rules.potions[index].buff)
                ||| head[k] is Tell
            },
        forall|slot: i32| #[trigger]
            is_due(rules, wanted, cellar, index, slot) ==> head.contains(
                RequestView::Drink { slot, buff: rules.potions[index].buff },
            ),
    ensures
        serves(rules, wanted, cellar, from, head + rest),
{
    reveal(serves);
    let r = head + rest;
    assert forall|k: int| 0 <= k < r.len() implies (#[trigger] r[k] matches RequestView::Drink {
        slot,
        buff,
    } ==> exists|i: int|
        from <= i && #[trigger] is_due(rules, wanted, cellar, i, slot) && buff
            == rules.potions[i].buff) by {
        if k < head.len() {
            assert(r[k] == head[k]);
        } else {
            assert(r[k] == rest[k - head.len()]);
        }
    }
    assert forall|k: int| 0 <= k < r.len() implies (#[trigger] r[k] matches RequestView::Find(
        item,
    ) ==> exists|i: int|
        from <= i < 3 && #[trigger] super::ticks::selected(wanted, i) && item == rules.potions[i].item && (
        cellar.buff)(rules.potions[i].buff) == Some(false)) by {
        if k < head.len() {
            assert(r[k] == head[k]);
            assert(super::ticks::selected(wanted, index));
        } else {
            assert(r[k] == rest[k - head.len()]);
        }
    }
    assert forall|k: int| 0 <= k < r.len() implies (#[trigger] r[k] matches RequestView::Buff(
        buff,
    ) ==> exists|i: int|
        from <= i < 3 && #[trigger] super::ticks::selected(wanted, i) && buff == rules.potions[i].buff) by {
        if k < head.len() {
            assert(r[k] == head[k]);
            assert(super::ticks::selected(wanted, index));
        } else {
            assert(r[k] == rest[k - head.len()]);
        }
    }
    assert forall|i: int, slot: i32|
        from <= i && #[trigger] is_due(rules, wanted, cellar, i, slot) implies r.contains(
        RequestView::Drink { slot, buff: rules.potions[i].buff },
    ) by {
        let drink = RequestView::Drink { slot, buff: rules.potions[i].buff };
        if i == index {
            let k = choose|k: int| 0 <= k < head.len() && head[k] == drink;
            assert(r[k] == drink);
        } else {
            assert(super::ticks::selected(wanted, i));
            assert(i > index);
            assert(rest.contains(drink));
            let k = choose|k: int| 0 <= k < rest.len() && rest[k] == drink;
            assert(r[head.len() + k] == drink);
        }
    }
}

proof fn lemma_serves(
    w: World,
    rules: Rules,
    wanted: Wanted,
    cellar: Cellar,
    from: int,
    t: Step,
    now: u64,
    limit: nat,
)
    requires
        0 <= from <= 3,
        super::ticks::goes_on_from(w, rules, wanted, from, t),
        limit >= 4 * (3 - from),
    ensures
        serves(rules, wanted, cellar, from, requests(t, rules, cellar, now, limit)),
    decreases 3 - from,
{
    if t.stage is Bobber {
        reveal(serves);
        assert forall|i: int, slot: i32| from <= i implies !#[trigger] is_due(
            rules,
            wanted,
            cellar,
            i,
            slot,
        ) by {
            if 0 <= i < 3 {
                assert(!super::ticks::selected(wanted, i));
            }
        }
    } else {
        let index = t.stage->Buff_index;
        let p = rules.potions[index as int];
        let on = (cellar.buff)(p.buff);
        let found = (cellar.slot)(p.item);
        super::ticks::law_each_potion_is_its_own(
            w,
            rules,
            wanted,
            index,
            now,
            on,
            found,
            true,
        );
        let t1 = w.stepped(rules, t.stage, cellar.answer(t.request), now);
        let r1 = requests(t1, rules, cellar, now, (limit - 1) as nat);
        if on != Some(false) {
            lemma_serves(w, rules, wanted, cellar, index + 1, t1, now, (limit - 1) as nat);
            lemma_prepend(
                rules,
                wanted,
                cellar,
                from,
                index as int,
                seq![t.request],
                r1,
            );
        } else {
            let t2 = w.stepped(rules, t1.stage, cellar.answer(t1.request), now);
            let r2 = requests(t2, rules, cellar, now, (limit - 2) as nat);
            let head2 = seq![t.request, t1.request];
            assert(seq![t.request] + (seq![t1.request] + r2) =~= head2 + r2);
            if found is None {
                lemma_serves(w, rules, wanted, cellar, index + 1, t2, now, (limit - 2) as nat);
                lemma_prepend(rules, wanted, cellar, from, index as int, head2, r2);
            } else {
                lemma_drinks(w, rules, wanted, cellar, from, index, t, now, limit);
            }
        }
    }
}

#[verifier::rlimit(50)]
proof fn lemma_drinks(
    w: World,
    rules: Rules,
    wanted: Wanted,
    cellar: Cellar,
    from: int,
    index: usize,
    t: Step,
    now: u64,
    limit: nat,
)
    requires
        0 <= from <= index < 3,
        super::ticks::goes_on_from(w, rules, wanted, from, t),
        t.stage == (Stage::Buff { index, wanted }),
        limit >= 4 * (3 - from),
        (cellar.buff)(rules.potions[index as int].buff) == Some(false),
        (cellar.slot)(rules.potions[index as int].item) is Some,
    ensures
        serves(rules, wanted, cellar, from, requests(t, rules, cellar, now, limit)),
    decreases 3 - from, 0int,
{
    let p = rules.potions[index as int];
    let slot = (cellar.slot)(p.item)->0;
    let ok = (cellar.works)(slot);
    super::ticks::law_each_potion_is_its_own(
        w,
        rules,
        wanted,
        index,
        now,
        Some(false),
        Some(slot),
        ok,
    );
    let t1 = w.stepped(rules, t.stage, cellar.answer(t.request), now);
    let t2 = w.stepped(rules, t1.stage, cellar.answer(t1.request), now);
    let t3 = w.stepped(rules, t2.stage, cellar.answer(t2.request), now);
    let r3 = requests(t3, rules, cellar, now, (limit - 3) as nat);
    let head3 = seq![t.request, t1.request, t2.request];
    assert(t2.request == (RequestView::Drink { slot, buff: p.buff }));
    assert(is_due(rules, wanted, cellar, index as int, slot));
    assert(head3[2] == t2.request);
    assert(seq![t.request] + (seq![t1.request] + (seq![t2.request] + r3)) =~= head3 + r3);
    let r2 = requests(t2, rules, cellar, now, (limit - 2) as nat);
    let r1 = requests(t1, rules, cellar, now, (limit - 1) as nat);
    assert(r2 == seq![t2.request] + r3);
    assert(r1 == seq![t1.request] + r2);
    assert(requests(t, rules, cellar, now, limit) == seq![t.request] + r1);
    if !ok {
        lemma_serves(w, rules, wanted, cellar, index + 1, t3, now, (limit - 3) as nat);
        lemma_prepend(rules, wanted, cellar, from, index as int, head3, r3);
    } else {
        let w3 = t3.world;
        super::ticks::law_each_potion_is_its_own(
            w3,
            rules,
            wanted,
            index,
            now,
            None,
            None,
            false,
        );
        let t4 = w3.stepped(rules, t3.stage, cellar.answer(t3.request), now);
        let r4 = requests(t4, rules, cellar, now, (limit - 4) as nat);
        let head4 = seq![t.request, t1.request, t2.request, t3.request];
        assert(r3 =~= seq![t3.request] + r4);
        assert(head3 + r3 =~= head4 + r4);
        assert(head4[2] == t2.request);
        lemma_serves(w3, rules, wanted, cellar, index + 1, t4, now, (limit - 4) as nat);
        lemma_prepend(rules, wanted, cellar, from, index as int, head4, r4);
    }
}

/// Over a whole tick exactly those potions are drunk that were selected, whose buff is off
/// and that are in the inventory: each from the slot of its own item and with its own buff.
/// No other item is looked for, and no other buff is asked for.
pub proof fn law_selected_potions_are_drunk(
    w: World,
    rules: Rules,
    wanted: Wanted,
    cellar: Cellar,
    now: u64,
)
    ensures
        serves(
            rules,
            wanted,
            cellar,
            0,
            requests(
                w.stepped(rules, Stage::Player { wanted }, EventView::Player(true), now),
                rules,
                cellar,
                now,
                12,
            ),
        ),
{
    super::ticks::law_each_potion_is_its_own(w, rules, wanted, 0, now, None, None, false);
    let t = w.stepped(rules, Stage::Player { wanted }, EventView::Player(true), now);
    lemma_serves(w, rules, wanted, cellar, 0, t, now, 12);
}

} // verus!
