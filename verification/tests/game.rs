use piscatio::clr::Var;
use piscatio::game::{
    bait_total, find_bobber, find_item, free_slots, inactive_throttle, local_player, mouse, my_player, version,
    Bobber, ItemPart, Look, Need, Part,
};
use piscatio::single::Single;

fn single(x: f32) -> Single {
    Single { bits: x.to_bits() }
}

fn bobber(ai0: f32, ai1: f32, local_ai1: f32) -> Bobber {
    Bobber { index: 3, ai0: single(ai0), ai1: single(ai1), local_ai1: single(local_ai1) }
}

#[test]
fn a_bite_needs_a_window_and_a_catch() {
    assert!(bobber(0.0, -30.0, 2334.0).has_bite());
    assert!(bobber(0.0, -1.0, -370.0).has_bite());
    assert!(!bobber(0.0, 0.0, 2334.0).has_bite());
    assert!(!bobber(0.0, 10.0, 2334.0).has_bite());
    assert!(!bobber(0.0, -30.0, 0.0).has_bite());
    assert_eq!(bobber(0.0, -30.0, 2334.0).rolled(), 2334);
    assert_eq!(bobber(0.0, -30.0, -370.0).rolled(), -370);
    assert!(bobber(1.0, 0.0, 0.0).is_reeling());
    assert!(!bobber(0.5, 0.0, 0.0).is_reeling());
}

/// A world in which the projectiles of the given numbers are bobbers of the given owners.
fn answer(index: i32, part: Part, bobbers: &[(i32, i32)]) -> Var {
    let owner = bobbers.iter().find(|b| b.0 == index).map(|b| b.1);
    match part {
        Part::Slot => {
            if index % 7 == 6 && owner.is_none() {
                Var::null()
            } else {
                Var::Object
            }
        }
        Part::Active => Var::boolean(index % 2 == 0 || owner.is_some()),
        Part::Bobber => Var::boolean(owner.is_some()),
        Part::Owner => Var::integer(owner.unwrap_or(255)),
        Part::Ai0 => Var::float(single(0.0)),
        Part::Ai1 => Var::float(single(-(index as f32))),
        Part::LocalAi1 => Var::integer(2000 + index),
    }
}

fn search(me: i32, hint: Option<i32>, bobbers: &[(i32, i32)]) -> (Need, usize) {
    let mut search = find_bobber(me, hint);
    let mut asked = 0;
    while let Need::Read { index, part } = search.need {
        search.tell(&answer(index, part, bobbers));
        asked += 1;
    }
    (search.need, asked)
}

#[test]
fn own_bobber_is_found() {
    let (need, _) = search(5, None, &[(10, 4), (700, 5), (900, 5)]);
    match need {
        Need::Found(b) => {
            assert_eq!(b.index, 700);
            assert_eq!(b.ai1, single(-700.0));
            assert_eq!(b.local_ai1, single(2700.0));
        }
        _ => panic!("no bobber"),
    }
}

#[test]
fn hint_is_tried_first() {
    let (need, asked) = search(5, Some(900), &[(700, 5), (900, 5)]);
    assert!(matches!(need, Need::Found(b) if b.index == 900));
    assert_eq!(asked, 7);
    let (need, _) = search(5, Some(12), &[(700, 5)]);
    assert!(matches!(need, Need::Found(b) if b.index == 700));
    let (need, _) = search(5, Some(5000), &[(0, 5)]);
    assert!(matches!(need, Need::Found(b) if b.index == 0));
    let (need, _) = search(5, Some(-3), &[(1000, 5)]);
    assert!(matches!(need, Need::Found(b) if b.index == 1000));
}

#[test]
fn no_bobber_and_no_player() {
    let (need, asked) = search(5, None, &[(10, 4)]);
    assert_eq!(need, Need::Nothing);
    assert!(asked >= 1001);
    let (need, asked) = search(-1, Some(3), &[(3, -1)]);
    assert_eq!(need, Need::Nothing);
    assert_eq!(asked, 0);
}

/// An inventory of kind, stack and bait power by slot; an empty slot is null.
fn item(items: &[(i32, i32, i32, i32)], index: i32, part: ItemPart) -> Var {
    match items.iter().find(|i| i.0 == index) {
        None => Var::null(),
        Some(i) => match part {
            ItemPart::Slot => Var::Object,
            ItemPart::Kind => Var::integer(i.1),
            ItemPart::Stack => Var::integer(i.2),
            ItemPart::Bait => Var::integer(i.3),
        },
    }
}

#[test]
fn bait_is_summed() {
    let items = [(0, 2674, 12, 15), (7, 9, 100, 0), (48, 2676, 30, 50), (49, 2676, 0, 50)];
    let mut count = bait_total();
    while let Look::Read { index, part } = count.look {
        let value = item(&items, index, part);
        assert!(count.has_room(&value));
        count.tell(&value);
    }
    assert_eq!(count.total, 42);
}

#[test]
fn bait_among_the_ammunition_counts() {
    let items = [(54, 2676, 17, 50), (58, 2674, 1, 15)];
    let mut count = bait_total();
    let mut last = -1;
    while let Look::Read { index, part } = count.look {
        last = index;
        count.tell(&item(&items, index, part));
    }
    assert_eq!(last, 58);
    assert_eq!(count.total, 18);
}

#[test]
fn counted_bait_leaves_room_for_more() {
    let items = [(0, 2676, 1 << 30, 50), (1, 9, i32::MAX, 0), (2, 2676, (1 << 30) - 1, 50)];
    let mut count = bait_total();
    while let Look::Read { index, part } = count.look {
        let value = item(&items, index, part);
        assert!(count.has_room(&value));
        count.tell(&value);
    }
    assert_eq!(count.total, i32::MAX);
}

#[test]
fn bait_that_cannot_be_counted_is_noticed() {
    let mut count = bait_total();
    for _ in 0..2 {
        count.tell(&Var::Object);
        count.tell(&Var::integer(i32::MAX));
        if count.has_room(&Var::integer(1)) {
            count.tell(&Var::integer(1));
        }
    }
    assert_eq!(count.total, i32::MAX);
    assert!(!count.has_room(&Var::integer(1)));
    assert!(count.has_room(&Var::integer(0)));
}

#[test]
fn free_slots_are_counted() {
    let items = [(0, 2674, 12, 15), (7, 0, 100, 0), (48, 2676, 0, 50), (49, 2676, 1, 50)];
    let mut count = free_slots();
    while let Look::Read { index, part } = count.look {
        count.tell(&item(&items, index, part));
    }
    assert_eq!(count.free, 48);
}

#[test]
fn first_slot_of_an_item_is_found() {
    let items = [(0, 2354, 0, 0), (7, 2354, 3, 0), (48, 2354, 9, 0), (9, 2355, 1, 0)];
    let look = |item: i32| {
        let mut search = find_item(item);
        while let Look::Read { index, part } = search.look {
            search.tell(&self::item(&items, index, part));
        }
        search.slot
    };
    assert_eq!(look(2354), Some(7));
    assert_eq!(look(2355), Some(9));
    assert_eq!(look(2356), None);
}

#[test]
fn single_readings_have_their_fallbacks() {
    assert_eq!(my_player(&Var::integer(3)), 3);
    assert_eq!(my_player(&Var::null()), -1);
    assert_eq!(local_player(&Var::integer(0)), Some(0));
    assert_eq!(local_player(&Var::integer(-1)), None);
    assert_eq!(local_player(&Var::text("x")), None);
    assert!(inactive_throttle(&Var::null()));
    assert!(!inactive_throttle(&Var::boolean(false)));
    assert_eq!(mouse(&Var::integer(640), &Var::float(single(359.9))), (640, 359));
    assert_eq!(mouse(&Var::null(), &Var::integer(2)), (-1, 2));
    assert_eq!(version(Some(&Var::text("v1.4.5.6"))), Some("v1.4.5.6".to_string()));
    assert_eq!(version(Some(&Var::integer(1))), None);
    assert_eq!(version(None), None);
}
