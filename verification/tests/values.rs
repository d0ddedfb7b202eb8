use piscatio::clr;
use piscatio::clr::hunt::{assembly_hunt, domain_hunt, AssemblyHunt, DomainHunt, DomainReply};
use piscatio::clr::lookup::{handles_plan, resolver, worker_plan, Kind, Part, Progress};
use piscatio::clr::Var;
use piscatio::single::Single;
use piscatio::text;

fn single(x: f32) -> Single {
    Single { bits: x.to_bits() }
}

#[test]
fn singles_compare_like_floats() {
    for x in [
        0.0f32, -0.0, 0.5, -0.5, 0.99999994, 1.0, -1.0, 1.5, 2e9, -2e9, 1e-40, -1e-40,
        f32::INFINITY, f32::NEG_INFINITY, f32::NAN, f32::MAX, f32::MIN,
    ] {
        assert_eq!(single(x).below_zero(), x < 0.0, "{x}");
        assert_eq!(single(x).nonzero(), x != 0.0, "{x}");
        assert_eq!(single(x).at_least_one(), x >= 1.0, "{x}");
    }
}

#[test]
fn singles_lose_their_fraction_like_floats() {
    for x in [
        0.0f32, -0.0, 0.9, -0.9, 1.0, -1.0, 2.5, -2.5, 2475.0, -370.0, 8388607.5, 16777216.0,
        2147483520.0, 2147483648.0, -2147483648.0, 3e9, -3e9, 1e38, -1e38, f32::INFINITY,
        f32::NEG_INFINITY, f32::NAN, 1e-45,
    ] {
        assert_eq!(single(x).truncated(), x as i32, "{x}");
    }
}

#[test]
fn numbers_become_the_nearest_single() {
    for n in [
        0i32, 1, -1, 2, 3, 100, -370, 16777215, 16777216, 16777217, 16777218, 16777219, 33554433,
        33554435, -16777217, i32::MAX, i32::MIN, i32::MIN + 1, 2147483583, 2147483584, 2147483585,
    ] {
        assert_eq!(Single::from_int(n).bits, (n as f32).to_bits(), "{n}");
    }
}

#[test]
fn small_whole_numbers_survive() {
    for n in [-16777216i32, -2475, -1, 0, 1, 5, 2334, 16777216] {
        assert_eq!(Single::from_int(n).truncated(), n);
    }
}

#[test]
fn values_are_read_by_kind() {
    assert_eq!(Var::integer(7).as_int(), Some(7));
    assert_eq!(Var::float(single(-2.75)).as_int(), Some(-2));
    assert_eq!(Var::boolean(true).as_int(), Some(1));
    assert_eq!(Var::boolean(false).as_int(), Some(0));
    assert_eq!(Var::text("7").as_int(), None);
    assert_eq!(Var::null().as_int(), None);
    assert_eq!(Var::byte(7).as_int(), None);
    assert_eq!(Var::float(single(1.5)).as_float(), Some(single(1.5)));
    assert_eq!(Var::integer(3).as_float(), Some(single(3.0)));
    assert_eq!(Var::boolean(true).as_float(), None);
    assert_eq!(Var::boolean(true).as_bool(), Some(true));
    assert_eq!(Var::integer(0).as_bool(), Some(false));
    assert_eq!(Var::integer(-4).as_bool(), Some(true));
    assert_eq!(Var::float(single(1.0)).as_bool(), None);
    assert_eq!(Var::text("Carp").as_string(), Some("Carp".to_string()));
    assert_eq!(Var::integer(1).as_string(), None);
    assert!(Var::null().is_null());
    assert!(!Var::Object.is_null());
    assert_eq!(Var::Other.int_or(-1), -1);
    assert_eq!(Var::Other.bool_or(true), true);
    assert_eq!(Var::Other.float_or_zero(), single(0.0));
}

#[test]
fn calls_name_their_method_and_arguments() {
    let call = clr::set_static(Var::integer(5));
    assert_eq!(call.name, "SetValue");
    assert_eq!(call.args.len(), 2);
    assert!(call.args[0].is_null());
    assert_eq!(call.args[1].as_int(), Some(5));
    let call = clr::set(Var::boolean(true));
    assert!(matches!(call.args[0], Var::Object));
    assert_eq!(call.args[1].as_bool(), Some(true));
    let call = clr::array_get(42);
    assert_eq!(call.name, "GetValue");
    assert_eq!(call.args[0].as_int(), Some(42));
    assert!(clr::get_static().args[0].is_null());
    assert!(matches!(clr::get().args[0], Var::Object));
    assert_eq!(clr::get_type("Terraria.Main").name, "GetType");
    assert_eq!(clr::resolve("mouseX").name, "GetField");
    assert_eq!(clr::load("Terraria").args[0].as_string(), Some("Terraria".to_string()));
    assert_eq!(clr::array_len(&Var::integer(1001)), Some(1001));
    assert_eq!(clr::array_len(&Var::null()), None);
}

#[test]
fn arguments_go_backwards() {
    let order = clr::call_order(vec![Var::integer(1), Var::integer(2), Var::integer(3)]);
    let numbers: Vec<Option<i32>> = order.iter().map(|v| v.as_int()).collect();
    assert_eq!(numbers, vec![Some(3), Some(2), Some(1)]);
    assert!(clr::call_order(Vec::new()).is_empty());
}

#[test]
fn version_strings_end_before_their_zero() {
    assert_eq!(clr::version_length(0), 0);
    assert_eq!(clr::version_length(1), 0);
    assert_eq!(clr::version_length(11), 10);
    assert_eq!(clr::version_length(64), 63);
    assert_eq!(clr::version_length(65), 63);
    assert_eq!(clr::version_length(u32::MAX), 63);
}

#[test]
fn first_domain_wins() {
    let hunt = domain_hunt();
    let hunt = hunt.tell(DomainReply::Counted(3));
    assert_eq!(hunt, DomainHunt::Ask { runtime: 0, of: 3 });
    let hunt = hunt.tell(DomainReply::Done(false));
    assert_eq!(hunt, DomainHunt::Ask { runtime: 1, of: 3 });
    assert_eq!(hunt.tell(DomainReply::Done(true)), DomainHunt::Found(1));
    let hunt = hunt.tell(DomainReply::Done(false)).tell(DomainReply::Done(false));
    assert_eq!(hunt, DomainHunt::NoDomain);
}

#[test]
fn runtime_of_the_game_is_the_fallback() {
    let hunt = domain_hunt().tell(DomainReply::Counted(0));
    assert_eq!(hunt, DomainHunt::Fallback);
    assert_eq!(hunt.tell(DomainReply::Done(false)), DomainHunt::NoRuntime);
    assert_eq!(hunt.tell(DomainReply::Done(true)), DomainHunt::Ask { runtime: 0, of: 1 });
}

#[test]
fn assembly_is_found_by_its_simple_name() {
    let hunt = assembly_hunt(0, 3);
    let hunt = hunt.tell("Terraria", Some("mscorlib, Version=4.0.0.0"));
    assert_eq!(hunt, AssemblyHunt::Read { index: 1, last: 3 });
    let hunt = hunt.tell("Terraria", None);
    let hunt = hunt.tell("Terraria", Some("TerrariaServer, Version=1"));
    assert_eq!(hunt, AssemblyHunt::Read { index: 3, last: 3 });
    assert_eq!(hunt.tell("Terraria", Some(" TERRARIA , Version=1.4")), AssemblyHunt::Found(3));
    assert_eq!(hunt.tell("Terraria", Some("Steamworks")), AssemblyHunt::Missing);
    assert_eq!(assembly_hunt(1, 0), AssemblyHunt::Missing);
}

#[test]
fn worker_needs_all_but_the_version() {
    let (mut resolver, mut progress) = resolver(worker_plan());
    let mut asked = 0;
    while let Progress::Find(i) = progress {
        let lookup = resolver.plan[i];
        asked += 1;
        progress = resolver.tell(lookup.name != "versionNumber");
    }
    assert_eq!(progress, Progress::Complete);
    assert_eq!(asked, 29);
    assert!(!resolver.has(Part::Version));
    assert!(resolver.has(Part::Required));
}

#[test]
fn first_required_failure_ends_the_plan() {
    let (mut resolver, mut progress) = resolver(worker_plan());
    while let Progress::Find(i) = progress {
        let lookup = resolver.plan[i];
        progress = resolver.tell(lookup.name != "ItemCheck");
    }
    assert_eq!(progress, Progress::Failed(10));
    assert_eq!(resolver.plan[10].name, "ItemCheck");
    assert_eq!(resolver.plan[10].kind, Kind::Method);
}

#[test]
fn optional_parts_are_there_as_a_whole() {
    let (mut resolver, mut progress) = resolver(handles_plan());
    let mut asked: Vec<&str> = Vec::new();
    while let Progress::Find(i) = progress {
        let lookup = resolver.plan[i];
        asked.push(lookup.name);
        let there = !matches!(
            lookup.name,
            "Terraria.GameInput.PlayerInput" | "PlaySound" | "HoverItem"
        );
        progress = resolver.tell(there);
    }
    assert_eq!(progress, Progress::Complete);
    assert!(!resolver.has(Part::Devices));
    assert!(!resolver.has(Part::Wheel));
    assert!(!resolver.has(Part::Text));
    assert!(!resolver.has(Part::Sound));
    assert!(!resolver.has(Part::Tooltip));
    assert!(!resolver.has(Part::MouseText));
    assert!(resolver.has(Part::QuickStack));
    assert!(resolver.has(Part::ChatText));
    assert!(resolver.has(Part::UiScale));
    assert!(!asked.contains(&"ScrollWheelDelta"));
    assert!(!asked.contains(&"_originalMouseX"));
    assert!(!asked.contains(&"WritingText"));
    assert!(!asked.contains(&"GetInputText"));
    assert!(!asked.contains(&"BestReforge"));
    assert!(!asked.contains(&"MouseTextNoOverride"));
    assert!(asked.contains(&"NewText"));
}

#[test]
fn plain_tooltip_may_be_missing_alone() {
    let (mut resolver, mut progress) = resolver(handles_plan());
    while let Progress::Find(i) = progress {
        let lookup = resolver.plan[i];
        progress = resolver.tell(lookup.name != "MouseTextNoOverride");
    }
    assert_eq!(progress, Progress::Complete);
    assert!(resolver.has(Part::Tooltip));
    assert!(!resolver.has(Part::MouseText));
    assert!(resolver.has(Part::Text));
}

#[test]
fn numerals_are_padded() {
    let mut s = String::new();
    text::push_numeral(&mut s, 7, 10, 2);
    text::push_numeral(&mut s, 0xC000_0005, 16, 8);
    text::push_numeral(&mut s, 0, 10, 1);
    text::push_numeral(&mut s, 123, 10, 2);
    assert_eq!(s, "07C00000050123");
    let mut s = String::new();
    text::push_signed(&mut s, -42);
    text::push_signed(&mut s, 0);
    text::push_signed(&mut s, i64::MIN);
    assert_eq!(s, "-420-9223372036854775808");
    assert_eq!(text::decimal_text(u64::MAX), "18446744073709551615");
}

#[test]
fn paths_and_names_are_cut() {
    assert_eq!(text::file_name("C:\\Windows\\d3d9.dll"), "d3d9.dll");
    assert_eq!(text::file_name("d3d9.dll"), "d3d9.dll");
    assert_eq!(text::file_name("C:\\"), "");
    assert!(text::leads_with("Terraria, Version=1", "terraria"));
    assert!(text::leads_with("  Terraria\t", "Terraria"));
    assert!(!text::leads_with("Terraria.Extra", "Terraria"));
    assert!(!text::leads_with("", "Terraria"));
    assert!(text::is_empty(""));
    assert!(!text::is_empty("я"));
    assert_eq!(text::chars_of("aЯ…"), vec!['a', 'Я', '…']);
}
