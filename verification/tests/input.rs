use piscatio::clr::Var;
use piscatio::input;
use piscatio::input::deeds::{
    flush_chat, play_sound, set_use_item, wants_scaled, EditStage, Hovered, PlayerHunt, SoundStage,
    TipStage,
};
use piscatio::input::pace::{pace, pace_idle, tick_of, Pacer, TickClock, TICK_PERIOD};
use piscatio::input::visit::{Action, Event, GameThread};
use piscatio::input::{Command, Mailbox};
use piscatio::single::Single;

const START: u64 = 1_000_000_000;

/// A visit of the game thread on which everything succeeds; what it did.
fn visit(mail: &mut Mailbox, game: &mut GameThread, this: usize, now: u64) -> Vec<String> {
    let mut done = Vec::new();
    let mut action = input::on_item_check(mail, game, Event::Enter { this, now });
    loop {
        let event = match &action {
            Action::Pace(_) => Event::Paced,
            Action::Handles => Event::Handles(true),
            Action::Return => return done,
            _ => Event::Reply(true),
        };
        if !matches!(action, Action::Pace(_) | Action::Handles) {
            done.push(format!("{action:?}"));
        }
        action = input::on_item_check(mail, game, event);
    }
}

#[test]
fn a_click_takes_two_ticks() {
    let mut mail = Mailbox::new();
    let mut game = GameThread::new();
    input::request_click(&mut mail, Some((640, 360)));
    assert!(input::busy(&mail));
    assert_eq!(visit(&mut mail, &mut game, 77, START), vec!["Aim(640, 360)", "Press"]);
    assert_eq!(mail.command, Command::Release);
    assert_eq!(visit(&mut mail, &mut game, 77, START + 1), vec!["LetGo"]);
    assert!(!input::busy(&mail));
    assert_eq!(mail.clicks, 1);
    assert_eq!(mail.fired, 2);
    assert!(visit(&mut mail, &mut game, 77, START + 2).is_empty());
}

#[test]
fn a_click_without_an_aim_leaves_the_cursor() {
    let mut mail = Mailbox::new();
    let mut game = GameThread::new();
    input::request_click(&mut mail, None);
    assert_eq!((mail.aim_x, mail.aim_y), (-1, -1));
    assert_eq!(visit(&mut mail, &mut game, 77, START), vec!["Press"]);
}

#[test]
fn other_players_come_between_press_and_release() {
    let mut mail = Mailbox::new();
    let mut game = GameThread::new();
    input::request_click(&mut mail, Some((-5, 360)));
    assert_eq!(visit(&mut mail, &mut game, 77, START), vec!["Press"]);
    for other in [78, 79, 80] {
        assert!(visit(&mut mail, &mut game, other, START + 1).is_empty());
        assert!(input::busy(&mail));
        assert_eq!(mail.clicks, 0);
    }
    assert_eq!(visit(&mut mail, &mut game, 77, START + 2), vec!["LetGo"]);
    assert!(!input::busy(&mail));
    assert_eq!(mail.clicks, 1);
}

#[test]
fn one_tick_is_served_once() {
    let mut mail = Mailbox::new();
    let mut game = GameThread::new();
    visit(&mut mail, &mut game, 77, START);
    input::request_click(&mut mail, None);
    assert_eq!(visit(&mut mail, &mut game, 77, START), vec!["Press"]);
    assert!(visit(&mut mail, &mut game, 88, START).is_empty());
    assert!(visit(&mut mail, &mut game, 99, START).is_empty());
    assert_eq!(visit(&mut mail, &mut game, 77, START), vec!["LetGo"]);
}

#[test]
fn idle_visits_leave_the_game_alone() {
    let mut mail = Mailbox::new();
    let mut game = GameThread::new();
    for i in 0..100 {
        let action = input::on_item_check(&mut mail, &mut game, Event::Enter { this: 7, now: START + i });
        assert!(matches!(action, Action::Pace(_)));
        let action = input::on_item_check(&mut mail, &mut game, Event::Paced);
        assert!(matches!(action, Action::Return));
    }
    assert_eq!(mail.fired, 100);
}

#[test]
fn without_a_way_in_the_requests_are_dropped() {
    let mut mail = Mailbox::new();
    let mut game = GameThread::new();
    input::request_click(&mut mail, Some((1, 2)));
    input::request_quick_stack(&mut mail);
    input::queue_chat(&mut mail, "a".to_string());
    input::request_sound(&mut mail);
    input::on_item_check(&mut mail, &mut game, Event::Enter { this: 7, now: START });
    let action = input::on_item_check(&mut mail, &mut game, Event::Paced);
    assert!(matches!(action, Action::Handles));
    let action = input::on_item_check(&mut mail, &mut game, Event::Handles(false));
    assert!(matches!(action, Action::Return));
    assert!(!input::busy(&mail));
    assert!(!input::quick_stack_pending(&mail));
    assert!(mail.chat.is_empty() && !mail.chat_pending);
    assert!(mail.sound);
    assert_eq!(mail.failures, 1);
}

#[test]
fn a_cancelled_press_is_let_go() {
    let mut mail = Mailbox::new();
    let mut game = GameThread::new();
    input::request_click(&mut mail, None);
    visit(&mut mail, &mut game, 7, START);
    input::cancel(&mut mail);
    assert!(!input::busy(&mail));
    assert!(mail.release);
    assert_eq!(mail.failures, 1);
    assert_eq!(visit(&mut mail, &mut game, 7, START), vec!["Release"]);
    assert!(!mail.release);
    input::request_click(&mut mail, None);
    input::cancel(&mut mail);
    assert!(!mail.release);
}

#[test]
fn everything_is_done_in_its_order() {
    let mut mail = Mailbox::new();
    let mut game = GameThread::new();
    input::request_click(&mut mail, Some((3, 4)));
    input::request_quick_stack(&mut mail);
    input::queue_chat(&mut mail, "a".to_string());
    input::queue_chat(&mut mail, "b".to_string());
    input::request_sound(&mut mail);
    assert_eq!(
        visit(&mut mail, &mut game, 7, START),
        vec!["Stack", "Chat([\"a\", \"b\"])", "Sound", "Aim(3, 4)", "Press"]
    );
    assert_eq!(mail.stacks, 1);
    assert!(mail.chat.is_empty() && !mail.chat_pending && !mail.sound);
}

#[test]
fn a_refused_press_is_a_failure() {
    let mut mail = Mailbox::new();
    let mut game = GameThread::new();
    input::request_click(&mut mail, None);
    input::on_item_check(&mut mail, &mut game, Event::Enter { this: 7, now: START });
    input::on_item_check(&mut mail, &mut game, Event::Paced);
    let action = input::on_item_check(&mut mail, &mut game, Event::Handles(true));
    assert!(matches!(action, Action::Press));
    let action = input::on_item_check(&mut mail, &mut game, Event::Reply(false));
    assert!(matches!(action, Action::Return));
    assert!(!input::busy(&mail));
    assert_eq!(mail.failures, 1);
}

#[test]
fn chat_keeps_the_newest_lines() {
    let mut mail = Mailbox::new();
    for i in 0..40 {
        input::queue_chat(&mut mail, format!("{i}"));
    }
    assert_eq!(mail.chat.len(), 32);
    assert_eq!(mail.chat[0], "8");
    assert_eq!(mail.chat[31], "39");
    input::cancel_quick_stack(&mut mail);
    assert!(!input::quick_stack_pending(&mail));
}

#[test]
fn ticks_follow_their_owner() {
    let mut clock = TickClock { tick: 0, owner: 0, misses: 0 };
    assert_eq!(tick_of(&mut clock, 10), 1);
    assert_eq!(tick_of(&mut clock, 20), 1);
    assert_eq!(tick_of(&mut clock, 30), 1);
    assert_eq!(tick_of(&mut clock, 10), 2);
    for _ in 0..64 {
        assert_eq!(tick_of(&mut clock, 20), 2);
    }
    assert_eq!(tick_of(&mut clock, 20), 3);
    assert_eq!(clock.owner, 20);
    assert_eq!(tick_of(&mut clock, 10), 3);
    let mut clock = TickClock { tick: u32::MAX, owner: 10, misses: 3 };
    assert_eq!(tick_of(&mut clock, 10), 0);
}

#[test]
fn last_tick_of_the_clock_is_not_held() {
    let mut mail = Mailbox::new();
    let mut game = GameThread::new();
    input::set_window_active(&mut mail, false);
    assert!(input::can_enter(&mail, &game, 77, u64::MAX));
    visit(&mut mail, &mut game, 77, u64::MAX);
    assert!(!input::can_enter(&mail, &game, 77, u64::MAX));
    assert!(input::can_enter(&mail, &game, 78, u64::MAX));
    assert!(!input::can_enter(&mail, &game, 78, u64::MAX - 1));
    input::set_window_active(&mut mail, true);
    assert!(input::can_enter(&mail, &game, 77, START));
    let late = u64::MAX - TICK_PERIOD;
    let mut pacer = Pacer { mark: Some((1, late)), raised: true };
    assert!(pacer.has_time(2, late) && !pacer.has_time(2, late - 1));
    assert_eq!(pace(&mut pacer, 2, late).sleep, TICK_PERIOD);
    assert!(pacer.has_time(2, u64::MAX) && !pacer.has_time(3, u64::MAX));
}

#[test]
fn background_keeps_the_pace() {
    let mut pacer = Pacer { mark: None, raised: false };
    let first = pace(&mut pacer, 1, START);
    assert!(first.raise && first.sleep == 0);
    let same = pace(&mut pacer, 1, START + 5);
    assert!(!same.raise && same.sleep == 0);
    let next = pace(&mut pacer, 2, START + 667_000);
    assert_eq!(next.sleep, 16_000_000);
    assert_eq!(pacer.mark, Some((2, START + TICK_PERIOD)));
    let late = pace(&mut pacer, 3, START + 10 * TICK_PERIOD);
    assert_eq!(late.sleep, 0);
    assert_eq!(pacer.mark, Some((3, START + 10 * TICK_PERIOD)));
    let idle = pace_idle(&mut pacer);
    assert!(idle.lower && pacer.mark.is_none() && !pacer.raised);
    assert!(!pace_idle(&mut pacer).lower);
}

#[test]
fn shutdown_lowers_the_timer_once() {
    let mut mail = Mailbox::new();
    let mut pacer = Pacer { mark: None, raised: true };
    input::set_window_active(&mut mail, false);
    assert!(!input::window_active(&mail));
    assert!(input::shutdown(&mut mail, &mut pacer));
    assert!(input::window_active(&mail));
    assert!(!input::shutdown(&mut mail, &mut pacer));
}

#[test]
fn cursor_prefers_the_raw_coordinates() {
    let raw = Var::integer(700);
    let scaled = Var::integer(350);
    let down = Var::boolean(true);
    assert_eq!(
        input::cursor(Some(&raw), Some(&scaled), None, Some(&scaled), Some(&down)),
        Some((700, 350, true))
    );
    assert_eq!(
        input::cursor(Some(&Var::null()), Some(&scaled), Some(&raw), None, Some(&Var::null())),
        Some((350, 700, false))
    );
    assert_eq!(input::cursor(None, None, Some(&raw), None, Some(&down)), None);
    assert_eq!(input::cursor(Some(&raw), None, None, None, Some(&down)), None);
    assert_eq!(input::cursor(Some(&raw), None, Some(&raw), None, None), None);
    assert!(wants_scaled(None));
    assert!(wants_scaled(Some(&Var::text("7"))));
    assert!(!wants_scaled(Some(&raw)));
}

#[test]
fn wheel_counts_notches() {
    assert_eq!(input::wheel(Some(&Var::integer(120))), 1);
    assert_eq!(input::wheel(Some(&Var::integer(359))), 2);
    assert_eq!(input::wheel(Some(&Var::integer(-119))), 0);
    assert_eq!(input::wheel(Some(&Var::integer(-240))), -2);
    assert_eq!(input::wheel(Some(&Var::null())), 0);
    assert_eq!(input::wheel(None), 0);
    let scale = Single { bits: 1.25f32.to_bits() };
    assert_eq!(input::ui_scale(Some(&Var::float(scale))), Some(scale));
    assert_eq!(input::ui_scale(Some(&Var::null())), None);
    assert_eq!(input::ui_scale(None), None);
}

#[test]
fn player_is_found_step_by_step() {
    let hunt = PlayerHunt::Number.tell(Some(&Var::integer(2)));
    assert_eq!(hunt, PlayerHunt::List { index: 2 });
    let hunt = hunt.tell(Some(&Var::Object));
    assert_eq!(hunt, PlayerHunt::Element { index: 2 });
    assert_eq!(hunt.tell(Some(&Var::null())), PlayerHunt::Nobody);
    assert_eq!(hunt.tell(None), PlayerHunt::Nobody);
    let here = hunt.tell(Some(&Var::Object));
    assert_eq!(here, PlayerHunt::Here);
    assert_eq!(PlayerHunt::Number.tell(Some(&Var::integer(-1))), PlayerHunt::Nobody);
    assert_eq!(PlayerHunt::Number.tell(None), PlayerHunt::Nobody);
    assert_eq!(input::claim_mouse_interface(here).and_then(|v| v.as_bool()), Some(true));
    assert!(input::claim_mouse_interface(PlayerHunt::Nobody).is_none());
    assert_eq!(set_use_item(here, false).and_then(|v| v.as_bool()), Some(false));
    assert!(set_use_item(PlayerHunt::Nobody, true).is_none());
}

#[test]
fn chat_lines_are_white() {
    let lines = vec!["раз".to_string(), "два".to_string()];
    let calls = flush_chat(Some(&Var::Object), &lines);
    assert_eq!(calls.len(), 2);
    assert_eq!(calls[1][0].as_string(), Some("два".to_string()));
    assert!(calls[1][1..].iter().all(|v| matches!(v, Var::Byte(255))));
    assert_eq!(calls[1].len(), 4);
    assert!(flush_chat(Some(&Var::null()), &lines).is_empty());
    assert!(flush_chat(None, &lines).is_empty());
}

#[test]
fn sound_is_played_from_no_place() {
    let stage = play_sound(true).tell(Some(&Var::Object)).tell(Some(&Var::Object));
    assert!(matches!(stage, SoundStage::Number));
    let stage = stage.tell(Some(&Var::integer(37)));
    let stage = stage.tell(None);
    match stage {
        SoundStage::Play(args) => {
            let numbers: Vec<Option<i32>> = args[..4].iter().map(|v| v.as_int()).collect();
            assert_eq!(numbers, vec![Some(37), Some(-1), Some(-1), Some(1)]);
            assert_eq!(args[4].as_float(), Some(Single { bits: 1.0f32.to_bits() }));
            assert_eq!(args[5].as_float(), Some(Single { bits: 0.0f32.to_bits() }));
            assert_eq!(args.len(), 6);
        }
        _ => panic!("not played"),
    }
    assert!(matches!(play_sound(false), SoundStage::Over));
    let stage = play_sound(true).tell(Some(&Var::null())).tell(Some(&Var::Object));
    assert!(matches!(stage, SoundStage::Over));
    let stage = play_sound(true).tell(Some(&Var::Object)).tell(Some(&Var::Object));
    assert!(matches!(stage.tell(Some(&Var::null())), SoundStage::Over));
}

#[test]
fn text_tooltip_has_the_usual_tail() {
    let args = input::show_text_tooltip(Some(&Var::Object), "подсказка");
    match args {
        Some(args) => {
            assert_eq!(args.len(), 8);
            assert_eq!(args[0].as_string(), Some("подсказка".to_string()));
            assert_eq!(args[1].as_int(), Some(0));
            assert!(matches!(args[2], Var::Byte(0)));
            assert!(args[3..7].iter().all(|v| v.as_int() == Some(-1)));
            assert_eq!(args[7].as_int(), Some(0));
        }
        None => panic!("not shown"),
    }
    assert!(input::show_text_tooltip(Some(&Var::null()), "x").is_none());
    assert!(input::show_text_tooltip(None, "x").is_none());
}

#[test]
fn item_tooltip_copies_once() {
    let mut kept: Option<Hovered> = None;
    let stage = input::show_item_tooltip(kept, 2334);
    assert_eq!(stage, TipStage::Base { id: 2334 });
    let stage = stage.tell(&mut kept, Some(&Var::Object));
    let stage = stage.tell(&mut kept, Some(&Var::Object));
    assert_eq!(stage, TipStage::Setup { id: 2334, object: true });
    let stage = stage.tell(&mut kept, Some(&Var::null()));
    let stage = stage.tell(&mut kept, Some(&Var::integer(3)));
    assert_eq!(stage, TipStage::Display { rare: 3 });
    assert_eq!(kept, Some(Hovered { id: 2334, rare: 3 }));
    assert_eq!(stage.tell(&mut kept, None), TipStage::Over);
    assert_eq!(stage.tell(&mut kept, Some(&Var::null())), TipStage::Place);
    assert_eq!(input::show_item_tooltip(kept, 2334), TipStage::Display { rare: 3 });
    let stage = input::show_item_tooltip(kept, 9);
    assert_eq!(stage, TipStage::Base { id: 9 });
    assert_eq!(stage.tell(&mut kept, None), TipStage::Over);
    assert_eq!(kept, None);
}

#[test]
fn copy_that_is_no_object_is_not_kept() {
    let mut kept: Option<Hovered> = None;
    let stage = TipStage::Copy { id: 1 }.tell(&mut kept, Some(&Var::integer(1)));
    let stage = stage.tell(&mut kept, Some(&Var::null()));
    assert_eq!(stage.tell(&mut kept, Some(&Var::integer(1))), TipStage::Over);
    assert_eq!(kept, None);
}

#[test]
fn search_line_is_edited_by_the_game() {
    let stage = input::edit_text(EditStage::Claim, "ка", Some(&Var::null()));
    assert!(matches!(stage, EditStage::Instance));
    let stage = input::edit_text(stage, "ка", Some(&Var::Object));
    assert!(matches!(stage, EditStage::Collect));
    let stage = input::edit_text(stage, "ка", None);
    match &stage {
        EditStage::Ask(args) => {
            assert_eq!(args[0].as_string(), Some("ка".to_string()));
            assert_eq!(args[1].as_bool(), Some(false));
            assert_eq!(args.len(), 2);
        }
        _ => panic!("not asked"),
    }
    let stage = input::edit_text(stage, "ка", Some(&Var::text("кар")));
    assert!(matches!(stage, EditStage::Done(Some(s)) if s == "кар"));
    let stage = input::edit_text(EditStage::Instance, "x", Some(&Var::null()));
    assert!(matches!(stage, EditStage::Ask(_)));
    let stage = input::edit_text(stage, "x", Some(&Var::integer(1)));
    assert!(matches!(stage, EditStage::Done(None)));
    assert!(matches!(input::edit_text(EditStage::Claim, "x", None), EditStage::Done(None)));
    assert!(matches!(input::edit_text(EditStage::Instance, "x", None), EditStage::Done(None)));
}
