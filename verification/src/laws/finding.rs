//! How the game is found, and what is looked up in it.

use vstd::prelude::*;

use crate::clr::hunt::{AssemblyHunt, DomainHunt, DomainReply};
use crate::clr::lookup::{Kind, LookupView, Part, Progress};

verus! {

/// The runtimes are asked one after the other, each once, until one gives its domain. Where
/// none was seen the runtime of the game is asked for by its version, as the only one.
pub proof fn law_runtimes_are_asked_in_turn(runtime: usize, of: usize, gave: bool)
    requires
        runtime < of,
    ensures
        DomainHunt::Count.after(DomainReply::Counted(of)) == (DomainHunt::Ask { runtime: 0, of }),
        DomainHunt::Count.after(DomainReply::Counted(0)) is Fallback,
        DomainHunt::Fallback.after(DomainReply::Done(true)) == (DomainHunt::Ask {
            runtime: 0,
            of: 1,
        }),
        DomainHunt::Fallback.after(DomainReply::Done(false)) is NoRuntime,
        (DomainHunt::Ask { runtime, of }).after(DomainReply::Done(true)) == DomainHunt::Found(
            runtime,
        ),
        runtime + 1 < of ==> (DomainHunt::Ask { runtime, of }).after(DomainReply::Done(false)) == (
        DomainHunt::Ask { runtime: (runtime + 1) as usize, of }),
        runtime + 1 == of ==> (DomainHunt::Ask { runtime, of }).after(
            DomainReply::Done(false),
        ) is NoDomain,
{
}

/// The assemblies are looked at one after the other, each once; the first of the name is
/// the one, and behind the last it is missing.
pub proof fn law_assemblies_are_looked_at_in_turn(
    index: i32,
    last: i32,
    simple: Seq<char>,
    full: Option<Seq<char>>,
)
    ensures
        index <= last ==> AssemblyHunt::from(index as int, last as int) == (AssemblyHunt::Read {
            index,
            last,
        }),
        index > last ==> AssemblyHunt::from(index as int, last as int) is Missing,
        ({
            let next = (AssemblyHunt::Read { index, last }).after(simple, full);
            let named = full is Some && crate::text::leads(full->0, simple);
            &&& named ==> next == AssemblyHunt::Found(index)
            &&& !named && index < last ==> next == (AssemblyHunt::Read {
                index: (index + 1) as i32,
                last,
            })
            &&& !named && index >= last ==> next is Missing
        }),
{
}

/// What holds of each lookup of a plan that came to its end: it was found exactly where the
/// game has it, its owner was found, everything before it in its part was, and for the
/// tooltip that is a plain text everything that tooltips need before it was.
pub open spec fn found_as_it_ought(
    plan: Seq<LookupView>,
    found: Seq<bool>,
    there: spec_fn(int) -> bool,
    i: int,
) -> bool {
    found[i] <==> {
        &&& there(i)
        &&& plan[i].owner is Some ==> found[plan[i].owner->0]
        &&& forall|j: int| 0 <= j < i && (#[trigger] plan[j]).part == plan[i].part ==> found[j]
        &&& plan[i].part is MouseText ==> forall|j: int|
            0 <= j < i && (#[trigger] plan[j]).part is Tooltip ==> found[j]
    }
}

proof fn lemma_prefix(
    plan: Seq<LookupView>,
    found: Seq<bool>,
    there: spec_fn(int) -> bool,
)
    requires
        found.len() <= plan.len(),
    ensures
        ({
            let end = crate::clr::lookup::carried(plan, found, there);
            &&& found.len() <= end.len() <= plan.len()
            &&& forall|i: int| 0 <= i < found.len() ==> #[trigger] end[i] == found[i]
        }),
    decreases plan.len() - found.len(),
{
    if found.len() < plan.len() && crate::clr::lookup::whole(plan, found, Part::Required) {
        let next = found.push(
            crate::clr::lookup::worth(plan, found) && there(found.len() as int),
        );
        lemma_prefix(plan, next, there);
        let end = crate::clr::lookup::carried(plan, found, there);
        assert forall|i: int| 0 <= i < found.len() implies #[trigger] end[i] == found[i] by {
            assert(end[i] == next[i]);
        }
    }
}

/// However far a plan came, each of its lookups was found exactly where it ought to be: a
/// part is there as a whole or not beyond its first failure, and no part that failed keeps
/// another from being looked up.
pub proof fn law_lookups_are_found_as_they_ought(
    plan: Seq<LookupView>,
    found: Seq<bool>,
    there: spec_fn(int) -> bool,
    i: int,
)
    requires
        crate::clr::lookup::ordered(plan),
        found.len() <= i < crate::clr::lookup::carried(plan, found, there).len(),
        found.len() <= plan.len(),
    ensures
        found_as_it_ought(plan, crate::clr::lookup::carried(plan, found, there), there, i),
    decreases plan.len() - found.len(),
{
    let at = found.len() as int;
    if at < plan.len() && crate::clr::lookup::whole(plan, found, Part::Required) {
        let next = found.push(crate::clr::lookup::worth(plan, found) && there(at));
        let end = crate::clr::lookup::carried(plan, found, there);
        lemma_prefix(plan, next, there);
        if i == at {
            assert(end[at] == next[at]);
            assert forall|j: int| 0 <= j < at implies #[trigger] end[j] == found[j] by {
                assert(end[j] == next[j]);
            }
            assert(plan[at].owner is Some ==> 0 <= plan[at].owner->0 < at);
            assert(crate::clr::lookup::whole(plan, found, plan[at].part) <==> (forall|j: int|
                0 <= j < at && (#[trigger] plan[j]).part == plan[at].part ==> end[j]));
            assert(crate::clr::lookup::whole(plan, found, Part::Tooltip) <==> (forall|j: int|
                0 <= j < at && (#[trigger] plan[j]).part is Tooltip ==> end[j]));
        } else {
            law_lookups_are_found_as_they_ought(plan, next, there, i);
        }
    }
}

/// How a plan stands: it failed where something required did not turn up, at the last
/// lookup that was made; otherwise the next lookup is to be made, or it is complete.
pub proof fn law_standing_of_a_plan(plan: Seq<LookupView>, found: Seq<bool>)
    requires
        found.len() <= plan.len() <= usize::MAX,
    ensures
        ({
            let failed = exists|j: int|
                0 <= j < found.len() && (#[trigger] plan[j]).part is Required && !found[j];
            let s = crate::clr::lookup::standing(plan, found);
            &&& failed ==> s == Progress::Failed((found.len() - 1) as usize)
            &&& !failed && found.len() < plan.len() ==> s == Progress::Find(found.len() as usize)
            &&& !failed && found.len() == plan.len() ==> s is Complete
        }),
{
}

/// Whether the lookup `i` is of that kind and name, in what an earlier lookup of the other
/// name found.
pub open spec fn is_part_of(
    plan: Seq<LookupView>,
    i: int,
    kind: Kind,
    name: Seq<char>,
    owner: Seq<char>,
) -> bool {
    &&& plan[i].kind == kind
    &&& plan[i].name == name
    &&& plan[i].owner is Some
    &&& 0 <= plan[i].owner->0 < i
    &&& plan[plan[i].owner->0].name == owner
    &&& plan[plan[i].owner->0].kind is Assembly <==> kind is Type
}

/// What the worker looks up, and where: all of it is required but the version.
pub proof fn law_worker_looks_up()
    ensures
        ({
            let p = crate::clr::lookup::worker_outline();
            &&& p.len() == 29
            &&& p[0].kind is Assembly && p[0].name == "Terraria"@ && p[0].owner is None
            &&& is_part_of(p, 1, Kind::Type, "Terraria.Main"@, "Terraria"@)
            &&& is_part_of(p, 2, Kind::Type, "Terraria.Projectile"@, "Terraria"@)
            &&& is_part_of(p, 3, Kind::Type, "Terraria.Player"@, "Terraria"@)
            &&& is_part_of(p, 4, Kind::Type, "Terraria.Item"@, "Terraria"@)
            &&& p[5].kind is Assembly && p[5].name == "mscorlib"@ && p[5].owner is None
            &&& is_part_of(p, 6, Kind::Type, "System.Reflection.MethodBase"@, "mscorlib"@)
            &&& is_part_of(p, 7, Kind::Type, "System.RuntimeMethodHandle"@, "mscorlib"@)
            &&& is_part_of(p, 8, Kind::Field, "mouseX"@, "Terraria.Main"@)
            &&& is_part_of(p, 9, Kind::Field, "mouseY"@, "Terraria.Main"@)
            &&& is_part_of(p, 10, Kind::Method, "ItemCheck"@, "Terraria.Player"@)
            &&& is_part_of(p, 11, Kind::Method, "get_MethodHandle"@, "System.Reflection.MethodBase"@)
            &&& is_part_of(p, 12, Kind::Method, "GetFunctionPointer"@, "System.RuntimeMethodHandle"@)
            &&& is_part_of(p, 13, Kind::Field, "myPlayer"@, "Terraria.Main"@)
            &&& is_part_of(p, 14, Kind::Field, "player"@, "Terraria.Main"@)
            &&& is_part_of(p, 15, Kind::Field, "projectile"@, "Terraria.Main"@)
            &&& is_part_of(p, 16, Kind::Field, "ThrottleWhenInactive"@, "Terraria.Main"@)
            &&& is_part_of(p, 17, Kind::Field, "versionNumber"@, "Terraria.Main"@)
            &&& is_part_of(p, 18, Kind::Field, "active"@, "Terraria.Projectile"@)
            &&& is_part_of(p, 19, Kind::Field, "bobber"@, "Terraria.Projectile"@)
            &&& is_part_of(p, 20, Kind::Field, "owner"@, "Terraria.Projectile"@)
            &&& is_part_of(p, 21, Kind::Field, "ai"@, "Terraria.Projectile"@)
            &&& is_part_of(p, 22, Kind::Field, "localAI"@, "Terraria.Projectile"@)
            &&& is_part_of(p, 23, Kind::Field, "inventory"@, "Terraria.Player"@)
            &&& is_part_of(p, 24, Kind::Field, "controlUseItem"@, "Terraria.Player"@)
            &&& is_part_of(p, 25, Kind::Method, "QuickStackAllChests"@, "Terraria.Player"@)
            &&& is_part_of(p, 26, Kind::Field, "type"@, "Terraria.Item"@)
            &&& is_part_of(p, 27, Kind::Field, "stack"@, "Terraria.Item"@)
            &&& is_part_of(p, 28, Kind::Field, "bait"@, "Terraria.Item"@)
            &&& forall|i: int| 0 <= i < 29 ==> ((#[trigger] p[i]).part is Required <==> i != 17)
            &&& p[17].part is Version
        }),
{
}

/// What the thread of the game looks up, and where; only some of it is required.
pub proof fn law_game_thread_looks_up()
    ensures
        ({
            let p = crate::clr::lookup::handles_outline();
            &&& p.len() == 40
            &&& p[0].kind is Assembly && p[0].name == "Terraria"@ && p[0].owner is None
            &&& is_part_of(p, 1, Kind::Type, "Terraria.Main"@, "Terraria"@)
            &&& is_part_of(p, 2, Kind::Type, "Terraria.Player"@, "Terraria"@)
            &&& is_part_of(p, 3, Kind::Type, "Terraria.GameInput.PlayerInput"@, "Terraria"@)
            &&& is_part_of(p, 4, Kind::Field, "myPlayer"@, "Terraria.Main"@)
            &&& is_part_of(p, 5, Kind::Field, "player"@, "Terraria.Main"@)
            &&& is_part_of(p, 6, Kind::Field, "mouseX"@, "Terraria.Main"@)
            &&& is_part_of(p, 7, Kind::Field, "mouseY"@, "Terraria.Main"@)
            &&& is_part_of(p, 8, Kind::HiddenField, "_originalMouseX"@, "Terraria.GameInput.PlayerInput"@)
            &&& is_part_of(p, 9, Kind::HiddenField, "_originalMouseY"@, "Terraria.GameInput.PlayerInput"@)
            &&& is_part_of(p, 10, Kind::Field, "mouseLeft"@, "Terraria.Main"@)
            &&& is_part_of(p, 11, Kind::HiddenField, "_uiScaleUsed"@, "Terraria.Main"@)
            &&& is_part_of(p, 12, Kind::Field, "ScrollWheelDelta"@, "Terraria.GameInput.PlayerInput"@)
            &&& is_part_of(p, 13, Kind::Field, "controlUseItem"@, "Terraria.Player"@)
            &&& is_part_of(p, 14, Kind::Field, "mouseInterface"@, "Terraria.Player"@)
            &&& is_part_of(p, 15, Kind::Method, "QuickStackAllChests"@, "Terraria.Player"@)
            &&& is_part_of(p, 16, Kind::Field, "chatMonitor"@, "Terraria.Main"@)
            &&& is_part_of(p, 17, Kind::Type, "Terraria.GameContent.UI.Chat.IChatMonitor"@, "Terraria"@)
            &&& is_part_of(p, 18, Kind::Method, "NewText"@, "Terraria.GameContent.UI.Chat.IChatMonitor"@)
            &&& is_part_of(p, 19, Kind::Type, "Terraria.Audio.SoundEngine"@, "Terraria"@)
            &&& is_part_of(p, 20, Kind::Type, "Terraria.Audio.LegacySoundPlayer"@, "Terraria"@)
            &&& is_part_of(p, 21, Kind::Type, "Terraria.Audio.LegacySoundStyle"@, "Terraria"@)
            &&& is_part_of(p, 22, Kind::Type, "Terraria.ID.SoundID"@, "Terraria"@)
            &&& is_part_of(p, 23, Kind::Field, "LegacySoundPlayer"@, "Terraria.Audio.SoundEngine"@)
            &&& is_part_of(p, 24, Kind::Method, "PlaySound"@, "Terraria.Audio.LegacySoundPlayer"@)
            &&& is_part_of(p, 25, Kind::Field, "BestReforge"@, "Terraria.ID.SoundID"@)
            &&& is_part_of(p, 26, Kind::Field, "SoundId"@, "Terraria.Audio.LegacySoundStyle"@)
            &&& is_part_of(p, 27, Kind::Method, "get_Style"@, "Terraria.Audio.LegacySoundStyle"@)
            &&& is_part_of(p, 28, Kind::Type, "Terraria.Item"@, "Terraria"@)
            &&& is_part_of(p, 29, Kind::Field, "HoverItem"@, "Terraria.Main"@)
            &&& is_part_of(p, 30, Kind::Method, "DisplayAndGetFakeItem"@, "Terraria.Main"@)
            &&& is_part_of(p, 31, Kind::Method, "Clone"@, "Terraria.Item"@)
            &&& is_part_of(p, 32, Kind::Method, "netDefaults"@, "Terraria.Item"@)
            &&& is_part_of(p, 33, Kind::Field, "rare"@, "Terraria.Item"@)
            &&& is_part_of(p, 34, Kind::Field, "instance"@, "Terraria.Main"@)
            &&& is_part_of(p, 35, Kind::Method, "MouseTextNoOverride"@, "Terraria.Main"@)
            &&& is_part_of(p, 36, Kind::Field, "WritingText"@, "Terraria.GameInput.PlayerInput"@)
            &&& is_part_of(p, 37, Kind::Field, "instance"@, "Terraria.Main"@)
            &&& is_part_of(p, 38, Kind::Method, "HandleIME"@, "Terraria.Main"@)
            &&& is_part_of(p, 39, Kind::Method, "GetInputText"@, "Terraria.Main"@)
            &&& forall|i: int| 0 <= i < 40 ==> ((#[trigger] p[i]).part is Required <==> i != 3 && i != 8 && i != 9 && i != 11 && i != 12 && i != 15 && i != 16 && i != 17 && i != 18 && i != 19 && i != 20 && i != 21 && i != 22 && i != 23 && i != 24 && i != 25 && i != 26 && i != 27 && i != 28 && i != 29 && i != 30 && i != 31 && i != 32 && i != 33 && i != 34 && i != 35 && i != 36 && i != 37 && i != 38 && i != 39)
            &&& p[3].part is Devices
            &&& p[8].part is RawMouseX
            &&& p[9].part is RawMouseY
            &&& p[11].part is UiScale
            &&& p[12].part is Wheel
            &&& p[15].part is QuickStack
            &&& p[16].part is ChatMonitor
            &&& p[17].part is ChatText
            &&& p[18].part is ChatText
            &&& p[19].part is Sound
            &&& p[20].part is Sound
            &&& p[21].part is Sound
            &&& p[22].part is Sound
            &&& p[23].part is Sound
            &&& p[24].part is Sound
            &&& p[25].part is Sound
            &&& p[26].part is Sound
            &&& p[27].part is Sound
            &&& p[28].part is Tooltip
            &&& p[29].part is Tooltip
            &&& p[30].part is Tooltip
            &&& p[31].part is Tooltip
            &&& p[32].part is Tooltip
            &&& p[33].part is Tooltip
            &&& p[34].part is Tooltip
            &&& p[35].part is MouseText
            &&& p[36].part is Text
            &&& p[37].part is Text
            &&& p[38].part is Text
            &&& p[39].part is Text
        }),
{
}

} // verus!
