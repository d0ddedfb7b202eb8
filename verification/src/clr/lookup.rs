//! What the library looks up in the game before it can work with it.
//!
//! A plan names the lookups in the order in which they are made. Some are required:
//! the first of these that fails ends the plan. The others stand in parts, and a part
//! is there as a whole or not at all: after the first failure in a part, nothing more
//! is looked up for it.

use vstd::prelude::*;

verus! {

/// What kind of thing is looked up.
#[derive(Debug, Clone, Copy, PartialEq, Eq, Structural)]
pub enum Kind {
    /// An assembly of the domain.
    Assembly,
    /// A type of an assembly.
    Type,
    /// A public field of a type.
    Field,
    /// A static field of a type that is not public.
    HiddenField,
    /// A method of a type.
    Method,
}

/// A part of a plan.
#[derive(Debug, Clone, Copy, PartialEq, Eq, Structural)]
pub enum Part {
    /// Without this there is nothing.
    Required,
    /// What the version of the game is.
    Version,
    /// The type that tells of the input devices.
    Devices,
    RawMouseX,
    RawMouseY,
    UiScale,
    Wheel,
    QuickStack,
    ChatMonitor,
    ChatText,
    Sound,
    Tooltip,
    /// The tooltip that is a plain text, a part of the tooltips.
    MouseText,
    Text,
}

impl Part {
    /// The part without which this one is not looked up either.
    pub open spec fn enclosing(self) -> Option<Part> {
        match self {
            Part::MouseText => Some(Part::Tooltip),
            _ => None,
        }
    }

    fn inside(self) -> (r: Option<Part>)
        ensures
            r == self.enclosing(),
    {
        match self {
            Part::MouseText => Some(Part::Tooltip),
            _ => None,
        }
    }
}

/// One lookup.
#[derive(Debug, Clone, Copy)]
pub struct Lookup {
    pub kind: Kind,
    /// The number of the lookup that found the owner of this; none for an assembly.
    pub owner: Option<usize>,
    pub name: &'static str,
    pub part: Part,
}

/// The model of [`Lookup`].
pub struct LookupView {
    pub kind: Kind,
    pub owner: Option<int>,
    pub name: Seq<char>,
    pub part: Part,
}

impl LookupView {
    /// A lookup in what an earlier one found.
    pub open spec fn of(kind: Kind, owner: int, name: Seq<char>, part: Part) -> LookupView {
        LookupView { kind, owner: Some(owner), name, part }
    }

    /// The lookup of an assembly, which is always required.
    pub open spec fn assembly(name: Seq<char>) -> LookupView {
        LookupView { kind: Kind::Assembly, owner: None, name, part: Part::Required }
    }
}

impl View for Lookup {
    type V = LookupView;

    open spec fn view(&self) -> LookupView {
        LookupView {
            kind: self.kind,
            owner: match self.owner {
                Some(i) => Some(i as int),
                None => None,
            },
            name: self.name@,
            part: self.part,
        }
    }
}

impl Lookup {
    /// A lookup in what an earlier one found.
    pub fn of(kind: Kind, owner: usize, name: &'static str, part: Part) -> (r: Lookup)
        ensures
            r@ == LookupView::of(kind, owner as int, name@, part),
    {
        Lookup { kind, owner: Some(owner), name, part }
    }

    /// The lookup of an assembly, which is always required.
    pub fn assembly(name: &'static str) -> (r: Lookup)
        ensures
            r@ == LookupView::assembly(name@),
    {
        Lookup { kind: Kind::Assembly, owner: None, name, part: Part::Required }
    }
}

/// The model of a plan.
pub open spec fn outline(plan: Seq<Lookup>) -> Seq<LookupView> {
    plan.map_values(|l: Lookup| l@)
}

/// Whether every owner is looked up before what it owns.
pub open spec fn ordered(plan: Seq<LookupView>) -> bool {
    forall|i: int|
        0 <= i < plan.len() && (#[trigger] plan[i]).owner is Some ==> 0 <= plan[i].owner->0 < i
}

/// Whether what is required is owned by what is required.
pub open spec fn grounded(plan: Seq<LookupView>) -> bool {
    forall|i: int|
        0 <= i < plan.len() && (#[trigger] plan[i]).part == Part::Required && plan[i].owner is Some
            ==> 0 <= plan[i].owner->0 < i && plan[plan[i].owner->0].part == Part::Required
}

/// Whether nothing that belongs to a part has failed so far.
pub open spec fn whole(plan: Seq<LookupView>, found: Seq<bool>, part: Part) -> bool {
    forall|j: int|
        0 <= j < found.len() && j < plan.len() && (#[trigger] plan[j]).part == part ==> found[j]
}

/// Whether the next lookup is worth making: its owner was found, and its part is whole
/// so far.
pub open spec fn worth(plan: Seq<LookupView>, found: Seq<bool>) -> bool {
    let next = plan[found.len() as int];
    &&& next.owner is Some ==> found[next.owner->0]
    &&& whole(plan, found, next.part)
    &&& next.part.enclosing() is Some ==> whole(plan, found, next.part.enclosing()->0)
}

/// How a plan stands.
#[derive(Debug, Clone, Copy, PartialEq, Eq, Structural)]
pub enum Progress {
    /// This lookup is to be made.
    Find(usize),
    /// All is done.
    Complete,
    /// This lookup failed, and it was required.
    Failed(usize),
}

/// The answers so far, with the lookups passed over that are not worth making.
pub open spec fn passed(plan: Seq<LookupView>, found: Seq<bool>) -> Seq<bool>
    decreases plan.len() - found.len(),
{
    if found.len() >= plan.len() || worth(plan, found) || !whole(plan, found, Part::Required) {
        found
    } else {
        passed(plan, found.push(false))
    }
}

/// How the plan stands after these answers.
pub open spec fn standing(plan: Seq<LookupView>, found: Seq<bool>) -> Progress {
    if !whole(plan, found, Part::Required) {
        Progress::Failed((found.len() - 1) as usize)
    } else if found.len() < plan.len() {
        Progress::Find(found.len() as usize)
    } else {
        Progress::Complete
    }
}

/// A plan under way.
#[derive(Debug)]
pub struct Resolver {
    pub plan: Vec<Lookup>,
    /// What was found so far, in the order of the plan.
    pub found: Vec<bool>,
}

impl Resolver {
    pub open spec fn outline(self) -> Seq<LookupView> {
        outline(self.plan@)
    }

    /// Whether the plan can be carried out, and the answers are a part of it.
    pub open spec fn wf(self) -> bool {
        ordered(self.outline()) && self.found@.len() <= self.plan@.len()
    }

    /// Whether nothing that belongs to a part has failed so far. A part is there once
    /// the plan is complete and the part is whole.
    pub fn has(&self, part: Part) -> (r: bool)
        ensures
            r == whole(self.outline(), self.found@, part),
    {
        let mut i: usize = 0;
        while i < self.found.len() && i < self.plan.len()
            invariant
                i <= self.plan@.len(),
                i <= self.found@.len(),
                forall|j: int|
                    0 <= j < i && (#[trigger] self.outline()[j]).part == part ==> self.found@[j],
            decreases self.found@.len() - i,
        {
            assert(self.outline()[i as int] == self.plan@[i as int]@);
            if self.plan[i].part == part && !self.found[i] {
                return false;
            }
            i = i + 1;
        }
        true
    }

    fn worthwhile(&self) -> (r: bool)
        requires
            self.wf(),
            self.found@.len() < self.plan@.len(),
        ensures
            r == worth(self.outline(), self.found@),
    {
        let next = self.plan[self.found.len()];
        assert(self.outline()[self.found@.len() as int] == next@);
        if let Some(owner) = next.owner {
            if !self.found[owner] {
                return false;
            }
        }
        if !self.has(next.part) {
            return false;
        }
        match next.part.inside() {
            Some(part) => self.has(part),
            None => true,
        }
    }

    fn skip(&mut self) -> (r: Progress)
        requires
            old(self).wf(),
            whole(old(self).outline(), old(self).found@, Part::Required) || old(self).found@.len()
                > 0,
        ensures
            final(self).wf(),
            final(self).plan == old(self).plan,
            final(self).found@ == passed(old(self).outline(), old(self).found@),
            r == standing(final(self).outline(), final(self).found@),
    {
        loop
            invariant
                self.wf(),
                self.plan == old(self).plan,
                passed(self.outline(), self.found@) == passed(
                    old(self).outline(),
                    old(self).found@,
                ),
                whole(self.outline(), self.found@, Part::Required) || self.found@.len() > 0,
            decreases self.plan@.len() - self.found@.len(),
        {
            if !self.has(Part::Required) {
                return Progress::Failed(self.found.len() - 1);
            }
            if self.found.len() >= self.plan.len() {
                return Progress::Complete;
            }
            if self.worthwhile() {
                return Progress::Find(self.found.len());
            }
            self.found.push(false);
        }
    }

    /// Says how the plan stands once the answer to the lookup that was to be made is
    /// in.
    pub fn tell(&mut self, found: bool) -> (r: Progress)
        requires
            old(self).wf(),
            old(self).found@.len() < old(self).plan@.len(),
        ensures
            final(self).wf(),
            final(self).plan == old(self).plan,
            final(self).found@ == passed(old(self).outline(), old(self).found@.push(found)),
            r == standing(final(self).outline(), final(self).found@),
    {
        self.found.push(found);
        self.skip()
    }
}

/// Begins a plan.
pub fn resolver(plan: Vec<Lookup>) -> (r: (Resolver, Progress))
    requires
        ordered(outline(plan@)),
    ensures
        r.0.wf(),
        r.0.plan == plan,
        r.0.found@ == passed(outline(plan@), Seq::empty()),
        r.1 == standing(outline(plan@), r.0.found@),
{
    let mut resolver = Resolver { plan, found: Vec::new() };
    let progress = resolver.skip();
    (resolver, progress)
}

/// The answers at the end of a plan that meets `there`: what the game has.
pub open spec fn carried(
    plan: Seq<LookupView>,
    found: Seq<bool>,
    there: spec_fn(int) -> bool,
) -> Seq<bool>
    decreases plan.len() - found.len(),
{
    if found.len() >= plan.len() || !whole(plan, found, Part::Required) {
        found
    } else {
        carried(
            plan,
            found.push(worth(plan, found) && there(found.len() as int)),
            there,
        )
    }
}

/// Passing over what is not worth looking up changes nothing of where a plan leads,
/// and neither does asking the game for what is next: a [`Resolver`] that is told what
/// the game has ends where [`carried`] does.
pub proof fn law_resolver_carries_out_the_plan(
    plan: Seq<LookupView>,
    found: Seq<bool>,
    there: spec_fn(int) -> bool,
)
    requires
        plan.len() <= usize::MAX,
    ensures
        carried(plan, passed(plan, found), there) == carried(plan, found, there),
        match standing(plan, passed(plan, found)) {
            Progress::Find(i) => carried(plan, found, there) == carried(
                plan,
                passed(plan, found).push(there(i as int)),
                there,
            ),
            _ => carried(plan, found, there) == passed(plan, found),
        },
    decreases plan.len() - found.len(),
{
    if found.len() < plan.len() && whole(plan, found, Part::Required) && !worth(plan, found) {
        law_resolver_carries_out_the_plan(plan, found.push(false), there);
    }
}

/// A plan completes exactly where the game has all that is required.
pub proof fn law_required_decides(
    plan: Seq<LookupView>,
    found: Seq<bool>,
    there: spec_fn(int) -> bool,
)
    requires
        ordered(plan),
        grounded(plan),
        plan.len() <= usize::MAX,
        found.len() <= plan.len(),
        whole(plan, found, Part::Required),
        forall|i: int|
            0 <= i < found.len() && (#[trigger] plan[i]).part == Part::Required ==> there(i),
    ensures
        (standing(plan, carried(plan, found, there)) == Progress::Complete) == (forall|i: int|
            0 <= i < plan.len() && (#[trigger] plan[i]).part == Part::Required ==> there(i)),
    decreases plan.len() - found.len(),
{
    if found.len() < plan.len() {
        let at = found.len() as int;
        let next = found.push(worth(plan, found) && there(at));
        if plan[at].part == Part::Required {
            assert(worth(plan, found));
            if !there(at) {
                assert(!next[at]);
                assert(!whole(plan, next, Part::Required));
                assert(carried(plan, next, there) == next);
            } else {
                assert forall|j: int|
                    0 <= j < next.len() && j < plan.len() && (#[trigger] plan[j]).part
                        == Part::Required implies next[j] by {
                    if j < at {
                        assert(found[j]);
                    }
                }
                law_required_decides(plan, next, there);
            }
        } else {
            assert forall|j: int|
                0 <= j < next.len() && j < plan.len() && (#[trigger] plan[j]).part
                    == Part::Required implies next[j] by {
                assert(j < at);
                assert(found[j]);
            }
            law_required_decides(plan, next, there);
        }
    }
}

/// What was found is there, and of a part that is whole at the end everything is.
pub proof fn law_found_is_there(
    plan: Seq<LookupView>,
    found: Seq<bool>,
    there: spec_fn(int) -> bool,
    part: Part,
)
    requires
        forall|i: int| 0 <= i < found.len() && #[trigger] found[i] ==> there(i),
    ensures
        forall|i: int|
            0 <= i < carried(plan, found, there).len() && #[trigger] carried(
                plan,
                found,
                there,
            )[i] ==> there(i),
        carried(plan, found, there).len() == plan.len() && whole(
            plan,
            carried(plan, found, there),
            part,
        ) ==> forall|i: int| 0 <= i < plan.len() && (#[trigger] plan[i]).part == part ==> there(i),
    decreases plan.len() - found.len(),
{
    if found.len() < plan.len() && whole(plan, found, Part::Required) {
        let next = found.push(worth(plan, found) && there(found.len() as int));
        law_found_is_there(plan, next, there, part);
    }
}

/// What the worker looks up: everything but the version is required.
pub open spec fn worker_outline() -> Seq<LookupView> {
    seq![
        LookupView::assembly("Terraria"@),
        LookupView::of(Kind::Type, 0, "Terraria.Main"@, Part::Required),
        LookupView::of(Kind::Type, 0, "Terraria.Projectile"@, Part::Required),
        LookupView::of(Kind::Type, 0, "Terraria.Player"@, Part::Required),
        LookupView::of(Kind::Type, 0, "Terraria.Item"@, Part::Required),
        LookupView::assembly("mscorlib"@),
        LookupView::of(Kind::Type, 5, "System.Reflection.MethodBase"@, Part::Required),
        LookupView::of(Kind::Type, 5, "System.RuntimeMethodHandle"@, Part::Required),
        LookupView::of(Kind::Field, 1, "mouseX"@, Part::Required),
        LookupView::of(Kind::Field, 1, "mouseY"@, Part::Required),
        LookupView::of(Kind::Method, 3, "ItemCheck"@, Part::Required),
        LookupView::of(Kind::Method, 6, "get_MethodHandle"@, Part::Required),
        LookupView::of(Kind::Method, 7, "GetFunctionPointer"@, Part::Required),
        LookupView::of(Kind::Field, 1, "myPlayer"@, Part::Required),
        LookupView::of(Kind::Field, 1, "player"@, Part::Required),
        LookupView::of(Kind::Field, 1, "projectile"@, Part::Required),
        LookupView::of(Kind::Field, 1, "ThrottleWhenInactive"@, Part::Required),
        LookupView::of(Kind::Field, 1, "versionNumber"@, Part::Version),
        LookupView::of(Kind::Field, 2, "active"@, Part::Required),
        LookupView::of(Kind::Field, 2, "bobber"@, Part::Required),
        LookupView::of(Kind::Field, 2, "owner"@, Part::Required),
        LookupView::of(Kind::Field, 2, "ai"@, Part::Required),
        LookupView::of(Kind::Field, 2, "localAI"@, Part::Required),
        LookupView::of(Kind::Field, 3, "inventory"@, Part::Required),
        LookupView::of(Kind::Field, 3, "controlUseItem"@, Part::Required),
        LookupView::of(Kind::Method, 3, "QuickStackAllChests"@, Part::Required),
        LookupView::of(Kind::Field, 4, "type"@, Part::Required),
        LookupView::of(Kind::Field, 4, "stack"@, Part::Required),
        LookupView::of(Kind::Field, 4, "bait"@, Part::Required),
    ]
}

/// The plan [`worker_outline`].
pub fn worker_plan() -> (r: Vec<Lookup>)
    ensures
        outline(r@) == worker_outline(),
        ordered(outline(r@)),
        grounded(outline(r@)),
{
    let r = vec![
        Lookup::assembly("Terraria"),
        Lookup::of(Kind::Type, 0, "Terraria.Main", Part::Required),
        Lookup::of(Kind::Type, 0, "Terraria.Projectile", Part::Required),
        Lookup::of(Kind::Type, 0, "Terraria.Player", Part::Required),
        Lookup::of(Kind::Type, 0, "Terraria.Item", Part::Required),
        Lookup::assembly("mscorlib"),
        Lookup::of(Kind::Type, 5, "System.Reflection.MethodBase", Part::Required),
        Lookup::of(Kind::Type, 5, "System.RuntimeMethodHandle", Part::Required),
        Lookup::of(Kind::Field, 1, "mouseX", Part::Required),
        Lookup::of(Kind::Field, 1, "mouseY", Part::Required),
        Lookup::of(Kind::Method, 3, "ItemCheck", Part::Required),
        Lookup::of(Kind::Method, 6, "get_MethodHandle", Part::Required),
        Lookup::of(Kind::Method, 7, "GetFunctionPointer", Part::Required),
        Lookup::of(Kind::Field, 1, "myPlayer", Part::Required),
        Lookup::of(Kind::Field, 1, "player", Part::Required),
        Lookup::of(Kind::Field, 1, "projectile", Part::Required),
        Lookup::of(Kind::Field, 1, "ThrottleWhenInactive", Part::Required),
        Lookup::of(Kind::Field, 1, "versionNumber", Part::Version),
        Lookup::of(Kind::Field, 2, "active", Part::Required),
        Lookup::of(Kind::Field, 2, "bobber", Part::Required),
        Lookup::of(Kind::Field, 2, "owner", Part::Required),
        Lookup::of(Kind::Field, 2, "ai", Part::Required),
        Lookup::of(Kind::Field, 2, "localAI", Part::Required),
        Lookup::of(Kind::Field, 3, "inventory", Part::Required),
        Lookup::of(Kind::Field, 3, "controlUseItem", Part::Required),
        Lookup::of(Kind::Method, 3, "QuickStackAllChests", Part::Required),
        Lookup::of(Kind::Field, 4, "type", Part::Required),
        Lookup::of(Kind::Field, 4, "stack", Part::Required),
        Lookup::of(Kind::Field, 4, "bait", Part::Required),
    ];
    assert(outline(r@) =~= worker_outline());
    r
}

/// What the thread of the game looks up for itself.
pub open spec fn handles_outline() -> Seq<LookupView> {
    seq![
        LookupView::assembly("Terraria"@),
        LookupView::of(Kind::Type, 0, "Terraria.Main"@, Part::Required),
        LookupView::of(Kind::Type, 0, "Terraria.Player"@, Part::Required),
        LookupView::of(Kind::Type, 0, "Terraria.GameInput.PlayerInput"@, Part::Devices),
        LookupView::of(Kind::Field, 1, "myPlayer"@, Part::Required),
        LookupView::of(Kind::Field, 1, "player"@, Part::Required),
        LookupView::of(Kind::Field, 1, "mouseX"@, Part::Required),
        LookupView::of(Kind::Field, 1, "mouseY"@, Part::Required),
        LookupView::of(Kind::HiddenField, 3, "_originalMouseX"@, Part::RawMouseX),
        LookupView::of(Kind::HiddenField, 3, "_originalMouseY"@, Part::RawMouseY),
        LookupView::of(Kind::Field, 1, "mouseLeft"@, Part::Required),
        LookupView::of(Kind::HiddenField, 1, "_uiScaleUsed"@, Part::UiScale),
        LookupView::of(Kind::Field, 3, "ScrollWheelDelta"@, Part::Wheel),
        LookupView::of(Kind::Field, 2, "controlUseItem"@, Part::Required),
        LookupView::of(Kind::Field, 2, "mouseInterface"@, Part::Required),
        LookupView::of(Kind::Method, 2, "QuickStackAllChests"@, Part::QuickStack),
        LookupView::of(Kind::Field, 1, "chatMonitor"@, Part::ChatMonitor),
        LookupView::of(Kind::Type, 0, "Terraria.GameContent.UI.Chat.IChatMonitor"@, Part::ChatText),
        LookupView::of(Kind::Method, 17, "NewText"@, Part::ChatText),
        LookupView::of(Kind::Type, 0, "Terraria.Audio.SoundEngine"@, Part::Sound),
        LookupView::of(Kind::Type, 0, "Terraria.Audio.LegacySoundPlayer"@, Part::Sound),
        LookupView::of(Kind::Type, 0, "Terraria.Audio.LegacySoundStyle"@, Part::Sound),
        LookupView::of(Kind::Type, 0, "Terraria.ID.SoundID"@, Part::Sound),
        LookupView::of(Kind::Field, 19, "LegacySoundPlayer"@, Part::Sound),
        LookupView::of(Kind::Method, 20, "PlaySound"@, Part::Sound),
        LookupView::of(Kind::Field, 22, "BestReforge"@, Part::Sound),
        LookupView::of(Kind::Field, 21, "SoundId"@, Part::Sound),
        LookupView::of(Kind::Method, 21, "get_Style"@, Part::Sound),
        LookupView::of(Kind::Type, 0, "Terraria.Item"@, Part::Tooltip),
        LookupView::of(Kind::Field, 1, "HoverItem"@, Part::Tooltip),
        LookupView::of(Kind::Method, 1, "DisplayAndGetFakeItem"@, Part::Tooltip),
        LookupView::of(Kind::Method, 28, "Clone"@, Part::Tooltip),
        LookupView::of(Kind::Method, 28, "netDefaults"@, Part::Tooltip),
        LookupView::of(Kind::Field, 28, "rare"@, Part::Tooltip),
        LookupView::of(Kind::Field, 1, "instance"@, Part::Tooltip),
        LookupView::of(Kind::Method, 1, "MouseTextNoOverride"@, Part::MouseText),
        LookupView::of(Kind::Field, 3, "WritingText"@, Part::Text),
        LookupView::of(Kind::Field, 1, "instance"@, Part::Text),
        LookupView::of(Kind::Method, 1, "HandleIME"@, Part::Text),
        LookupView::of(Kind::Method, 1, "GetInputText"@, Part::Text),
    ]
}

/// The plan [`handles_outline`].
pub fn handles_plan() -> (r: Vec<Lookup>)
    ensures
        outline(r@) == handles_outline(),
        ordered(outline(r@)),
        grounded(outline(r@)),
{
    let r = vec![
        Lookup::assembly("Terraria"),
        Lookup::of(Kind::Type, 0, "Terraria.Main", Part::Required),
        Lookup::of(Kind::Type, 0, "Terraria.Player", Part::Required),
        Lookup::of(Kind::Type, 0, "Terraria.GameInput.PlayerInput", Part::Devices),
        Lookup::of(Kind::Field, 1, "myPlayer", Part::Required),
        Lookup::of(Kind::Field, 1, "player", Part::Required),
        Lookup::of(Kind::Field, 1, "mouseX", Part::Required),
        Lookup::of(Kind::Field, 1, "mouseY", Part::Required),
        Lookup::of(Kind::HiddenField, 3, "_originalMouseX", Part::RawMouseX),
        Lookup::of(Kind::HiddenField, 3, "_originalMouseY", Part::RawMouseY),
        Lookup::of(Kind::Field, 1, "mouseLeft", Part::Required),
        Lookup::of(Kind::HiddenField, 1, "_uiScaleUsed", Part::UiScale),
        Lookup::of(Kind::Field, 3, "ScrollWheelDelta", Part::Wheel),
        Lookup::of(Kind::Field, 2, "controlUseItem", Part::Required),
        Lookup::of(Kind::Field, 2, "mouseInterface", Part::Required),
        Lookup::of(Kind::Method, 2, "QuickStackAllChests", Part::QuickStack),
        Lookup::of(Kind::Field, 1, "chatMonitor", Part::ChatMonitor),
        Lookup::of(Kind::Type, 0, "Terraria.GameContent.UI.Chat.IChatMonitor", Part::ChatText),
        Lookup::of(Kind::Method, 17, "NewText", Part::ChatText),
        Lookup::of(Kind::Type, 0, "Terraria.Audio.SoundEngine", Part::Sound),
        Lookup::of(Kind::Type, 0, "Terraria.Audio.LegacySoundPlayer", Part::Sound),
        Lookup::of(Kind::Type, 0, "Terraria.Audio.LegacySoundStyle", Part::Sound),
        Lookup::of(Kind::Type, 0, "Terraria.ID.SoundID", Part::Sound),
        Lookup::of(Kind::Field, 19, "LegacySoundPlayer", Part::Sound),
        Lookup::of(Kind::Method, 20, "PlaySound", Part::Sound),
        Lookup::of(Kind::Field, 22, "BestReforge", Part::Sound),
        Lookup::of(Kind::Field, 21, "SoundId", Part::Sound),
        Lookup::of(Kind::Method, 21, "get_Style", Part::Sound),
        Lookup::of(Kind::Type, 0, "Terraria.Item", Part::Tooltip),
        Lookup::of(Kind::Field, 1, "HoverItem", Part::Tooltip),
        Lookup::of(Kind::Method, 1, "DisplayAndGetFakeItem", Part::Tooltip),
        Lookup::of(Kind::Method, 28, "Clone", Part::Tooltip),
        Lookup::of(Kind::Method, 28, "netDefaults", Part::Tooltip),
        Lookup::of(Kind::Field, 28, "rare", Part::Tooltip),
        Lookup::of(Kind::Field, 1, "instance", Part::Tooltip),
        Lookup::of(Kind::Method, 1, "MouseTextNoOverride", Part::MouseText),
        Lookup::of(Kind::Field, 3, "WritingText", Part::Text),
        Lookup::of(Kind::Field, 1, "instance", Part::Text),
        Lookup::of(Kind::Method, 1, "HandleIME", Part::Text),
        Lookup::of(Kind::Method, 1, "GetInputText", Part::Text),
    ];
    assert(outline(r@) =~= handles_outline());
    r
}

} // verus!
