//! What the thread of the game does with the game, call by call.
//!
//! A reading that could not be made, because the game lacks the field or the call
//! failed, is `None`.

use vstd::prelude::*;

use crate::clr::{Var, VarView};
use crate::single::Single;

verus! {

/// One notch of the wheel in the units of the game.
pub const NOTCH: i32 = 120;

/// The bits of the single that is one.
pub const FULL_VOLUME: u32 = 0x3F80_0000;

/// The bits of the single that is zero.
pub const NO_SHIFT: u32 = 0;

// ---------------------------------------------------------------------------
// Readings
// ---------------------------------------------------------------------------

/// The number in a reading.
pub open spec fn number_in(v: Option<VarView>) -> Option<i32> {
    match v {
        Some(v) => v.number(),
        None => None,
    }
}

fn number(v: Option<&Var>) -> (r: Option<i32>)
    ensures
        r == number_in(crate::clr::reading(v)),
{
    match v {
        Some(v) => v.as_int(),
        None => None,
    }
}

/// A coordinate of the cursor: the raw one, or else the one that the game scales.
pub open spec fn coordinate(raw: Option<VarView>, scaled: Option<VarView>) -> Option<i32> {
    match number_in(raw) {
        Some(x) => Some(x),
        None => number_in(scaled),
    }
}

/// Whether the scaled coordinate has to be read because the raw one is of no use.
pub fn wants_scaled(raw: Option<&Var>) -> (r: bool)
    ensures
        r == (number_in(crate::clr::reading(raw)) is None),
{
    number(raw).is_none()
}

fn coordinate_of(raw: Option<&Var>, scaled: Option<&Var>) -> (r: Option<i32>)
    ensures
        r == coordinate(crate::clr::reading(raw), crate::clr::reading(scaled)),
{
    match number(raw) {
        Some(x) => Some(x),
        None => number(scaled),
    }
}

/// The cursor and whether its button is down, out of these readings.
pub open spec fn pointed(
    raw_x: Option<VarView>,
    x: Option<VarView>,
    raw_y: Option<VarView>,
    y: Option<VarView>,
    left: Option<VarView>,
) -> Option<(i32, i32, bool)> {
    match (coordinate(raw_x, x), coordinate(raw_y, y), left) {
        (Some(cx), Some(cy), Some(button)) => Some((cx, cy, button.truth_or(false))),
        _ => None,
    }
}

/// The cursor and the left button as the game sees them, in pixels of the screen. The
/// scaled coordinates change their meaning within a frame, so the raw ones come first.
pub fn cursor(
    raw_x: Option<&Var>,
    x: Option<&Var>,
    raw_y: Option<&Var>,
    y: Option<&Var>,
    left: Option<&Var>,
) -> (r: Option<(i32, i32, bool)>)
    ensures
        r == match (
            coordinate(crate::clr::reading(raw_x), crate::clr::reading(x)),
            coordinate(crate::clr::reading(raw_y), crate::clr::reading(y)),
            crate::clr::reading(left),
        ) {
            (Some(cx), Some(cy), Some(button)) => Some((cx, cy, button.truth_or(false))),
            _ => None,
        },
        r == pointed(
            crate::clr::reading(raw_x),
            crate::clr::reading(x),
            crate::clr::reading(raw_y),
            crate::clr::reading(y),
            crate::clr::reading(left),
        ),
{
    let cx: i32 = match coordinate_of(raw_x, x) {
        Some(v) => v,
        None => {
            return None;
        },
    };
    let cy: i32 = match coordinate_of(raw_y, y) {
        Some(v) => v,
        None => {
            return None;
        },
    };
    match left {
        Some(button) => Some((cx, cy, button.bool_or(false))),
        None => None,
    }
}

/// A single out of a reading.
pub open spec fn scaled(v: Option<VarView>) -> Option<Single> {
    match v {
        Some(v) => v.float(),
        None => None,
    }
}

/// The scale of the interface that the player chose.
pub fn ui_scale(value: Option<&Var>) -> (r: Option<Single>)
    ensures
        r == match crate::clr::reading(value) {
            Some(v) => v.float(),
            None => None,
        },
        r == scaled(crate::clr::reading(value)),
{
    match value {
        Some(v) => v.as_float(),
        None => None,
    }
}

/// Whole notches in a movement of the wheel, towards zero.
pub open spec fn notches(raw: int) -> int {
    if raw >= 0 {
        raw / NOTCH as int
    } else {
        -((-raw) / NOTCH as int)
    }
}

/// Whole notches out of a reading of the wheel.
pub open spec fn wheeled(v: Option<VarView>) -> int {
    match number_in(v) {
        Some(raw) => notches(raw as int),
        None => 0,
    }
}

/// How many notches the wheel moved in this frame.
pub fn wheel(value: Option<&Var>) -> (r: i32)
    ensures
        r == match number_in(crate::clr::reading(value)) {
            Some(raw) => notches(raw as int),
            None => 0,
        },
        r == wheeled(crate::clr::reading(value)),
{
    match number(value) {
        Some(raw) => raw / NOTCH,
        None => 0,
    }
}

// ---------------------------------------------------------------------------
// The local player
// ---------------------------------------------------------------------------

/// The way to the local player.
#[derive(Debug, Clone, Copy, PartialEq, Eq, Structural)]
pub enum PlayerHunt {
    /// Read the number of the local player.
    Number,
    /// Read the list of players.
    List { index: i32 },
    /// Read this element of it.
    Element { index: i32 },
    /// The element is the player.
    Here,
    /// There is no player.
    Nobody,
}

impl PlayerHunt {
    pub open spec fn after(self, reply: Option<VarView>) -> PlayerHunt {
        match (self, reply) {
            (PlayerHunt::Number, Some(v)) => if v.number() is Some && v.number()->0 >= 0 {
                PlayerHunt::List { index: v.number()->0 }
            } else {
                PlayerHunt::Nobody
            },
            (PlayerHunt::List { index }, Some(_)) => PlayerHunt::Element { index },
            (PlayerHunt::Element { index }, Some(v)) => if v is Null {
                PlayerHunt::Nobody
            } else {
                PlayerHunt::Here
            },
            (PlayerHunt::Here, _) => PlayerHunt::Here,
            _ => PlayerHunt::Nobody,
        }
    }

    /// Goes on with what was read.
    pub fn tell(self, reply: Option<&Var>) -> (r: PlayerHunt)
        ensures
            r == self.after(crate::clr::reading(reply)),
    {
        match (self, reply) {
            (PlayerHunt::Number, Some(v)) => match v.as_int() {
                Some(index) if index >= 0 => PlayerHunt::List { index },
                _ => PlayerHunt::Nobody,
            },
            (PlayerHunt::List { index }, Some(_)) => PlayerHunt::Element { index },
            (PlayerHunt::Element { .. }, Some(v)) => if v.is_null() {
                PlayerHunt::Nobody
            } else {
                PlayerHunt::Here
            },
            (PlayerHunt::Here, _) => PlayerHunt::Here,
            _ => PlayerHunt::Nobody,
        }
    }
}

/// The player is found exactly where its number, the list and its element can be read,
/// the number is none below zero, and the element is there.
pub proof fn law_player_is_found(
    me: Option<VarView>,
    list: Option<VarView>,
    element: Option<VarView>,
)
    ensures
        (PlayerHunt::Number.after(me).after(list).after(element) == PlayerHunt::Here) == {
            &&& number_in(me) is Some
            &&& number_in(me)->0 >= 0
            &&& list is Some
            &&& element is Some
            &&& !(element->0 is Null)
        },
{
}

/// What is written into a field of the player; nothing where there is none.
pub open spec fn put(hunt: PlayerHunt, value: bool) -> Option<VarView> {
    if hunt is Here {
        Some(VarView::Bool(value))
    } else {
        None
    }
}

/// What to write into the field that keeps a click on the panel out of the world. It
/// is only ever set: the field is shared, and to clear it would undo what others set.
/// Nothing is written where there is no player.
pub fn claim_mouse_interface(hunt: PlayerHunt) -> (r: Option<Var>)
    ensures
        match r {
            Some(v) => hunt == PlayerHunt::Here && v@ == VarView::Bool(true),
            None => hunt != PlayerHunt::Here,
        },
        match r {
            Some(v) => put(hunt, true) == Some(v@),
            None => put(hunt, true) is None,
        },
{
    match hunt {
        PlayerHunt::Here => Some(Var::boolean(true)),
        _ => None,
    }
}

/// What to write into the field of the button that uses an item. Nothing is written
/// where there is no player.
pub fn set_use_item(hunt: PlayerHunt, pressed: bool) -> (r: Option<Var>)
    ensures
        match r {
            Some(v) => hunt == PlayerHunt::Here && v@ == VarView::Bool(pressed),
            None => hunt != PlayerHunt::Here,
        },
        match r {
            Some(v) => put(hunt, pressed) == Some(v@),
            None => put(hunt, pressed) is None,
        },
{
    match hunt {
        PlayerHunt::Here => Some(Var::boolean(pressed)),
        _ => None,
    }
}

// ---------------------------------------------------------------------------
// Chat and sound
// ---------------------------------------------------------------------------

/// The arguments that write a line into the chat, in white: a line carries its own
/// colours.
pub open spec fn chat_words(line: Seq<char>) -> Seq<VarView> {
    seq![
        VarView::Text(line),
        VarView::Byte(255),
        VarView::Byte(255),
        VarView::Byte(255),
    ]
}

/// The calls that write the waiting lines.
pub open spec fn chat_calls(monitor: Option<VarView>, lines: Seq<Seq<char>>) -> Seq<Seq<VarView>> {
    if something(monitor) {
        Seq::new(lines.len(), |i: int| chat_words(lines[i]))
    } else {
        Seq::empty()
    }
}

/// The calls that write the waiting lines, one for each, in their order. There are
/// none where the chat could not be read or is not there.
pub fn flush_chat(monitor: Option<&Var>, lines: &Vec<String>) -> (r: Vec<Vec<Var>>)
    ensures
        match crate::clr::reading(monitor) {
            Some(v) if !(v is Null) => {
                &&& r@.len() == lines@.len()
                &&& forall|i: int|
                    0 <= i < lines@.len() ==> crate::clr::views(#[trigger] r@[i]@) == chat_words(
                        lines@[i]@,
                    )
            },
            _ => r@.len() == 0,
        },
        r@.map_values(|words: Vec<Var>| crate::clr::views(words@)) == chat_calls(
            crate::clr::reading(monitor),
            lines@.map_values(|line: String| line@),
        ),
{
    let mut calls: Vec<Vec<Var>> = Vec::new();
    match monitor {
        Some(v) => {
            if v.is_null() {
                return calls;
            }
        },
        None => {
            return calls;
        },
    }
    let mut i: usize = 0;
    while i < lines.len()
        invariant
            i <= lines@.len(),
            calls@.len() == i,
            forall|j: int|
                0 <= j < i ==> crate::clr::views(#[trigger] calls@[j]@) == chat_words(lines@[j]@),
        decreases lines@.len() - i,
    {
        let words = vec![
            Var::text(lines[i].as_str()),
            Var::byte(255),
            Var::byte(255),
            Var::byte(255),
        ];
        assert(crate::clr::views(words@) =~= chat_words(lines@[i as int]@));
        calls.push(words);
        i = i + 1;
    }
    assert(calls@.map_values(|words: Vec<Var>| crate::clr::views(words@)) =~= chat_calls(
        crate::clr::reading(monitor),
        lines@.map_values(|line: String| line@),
    ));
    calls
}

/// How far the sound has got.
#[derive(Debug)]
pub enum SoundStage {
    /// Read the style of the sound.
    Style,
    /// Read the player of sounds.
    Player { style: bool },
    /// Read the number of the sound out of its style.
    Number,
    /// Ask the style for its variant.
    Variant { id: i32 },
    /// Play it with these arguments.
    Play(Vec<Var>),
    /// Nothing more to do.
    Over,
}

/// The model of [`SoundStage`].
pub enum SoundView {
    Style,
    Player { style: bool },
    Number,
    Variant { id: i32 },
    Play(Seq<VarView>),
    Over,
}

impl View for SoundStage {
    type V = SoundView;

    open spec fn view(&self) -> SoundView {
        match *self {
            SoundStage::Style => SoundView::Style,
            SoundStage::Player { style } => SoundView::Player { style },
            SoundStage::Number => SoundView::Number,
            SoundStage::Variant { id } => SoundView::Variant { id },
            SoundStage::Play(args) => SoundView::Play(crate::clr::views(args@)),
            SoundStage::Over => SoundView::Over,
        }
    }
}

/// Whether a reading is something.
pub open spec fn something(v: Option<VarView>) -> bool {
    v is Some && !(v->0 is Null)
}

fn is_something(v: Option<&Var>) -> (r: bool)
    ensures
        r == something(crate::clr::reading(v)),
{
    match v {
        Some(v) => !v.is_null(),
        None => false,
    }
}

/// The arguments of a sound that comes from no place in the world.
pub open spec fn sound_words(id: i32, variant: i32) -> Seq<VarView> {
    seq![
        VarView::Int(id),
        VarView::Int(super::NO_AIM),
        VarView::Int(super::NO_AIM),
        VarView::Int(variant),
        VarView::Float(Single { bits: FULL_VOLUME }),
        VarView::Float(Single { bits: NO_SHIFT }),
    ]
}

impl SoundView {
    pub open spec fn after(self, reply: Option<VarView>) -> SoundView {
        match self {
            SoundView::Style => SoundView::Player { style: something(reply) },
            SoundView::Player { style } => if style && something(reply) {
                SoundView::Number
            } else {
                SoundView::Over
            },
            SoundView::Number => match number_in(reply) {
                Some(id) => SoundView::Variant { id },
                None => SoundView::Over,
            },
            SoundView::Variant { id } => SoundView::Play(
                sound_words(
                    id,
                    match number_in(reply) {
                        Some(variant) => variant,
                        None => 1,
                    },
                ),
            ),
            _ => SoundView::Over,
        }
    }
}

impl SoundStage {
    /// Goes on with what was read.
    pub fn tell(self, reply: Option<&Var>) -> (r: SoundStage)
        ensures
            r@ == self@.after(crate::clr::reading(reply)),
    {
        match self {
            SoundStage::Style => SoundStage::Player { style: is_something(reply) },
            SoundStage::Player { style } => if style && is_something(reply) {
                SoundStage::Number
            } else {
                SoundStage::Over
            },
            SoundStage::Number => match number(reply) {
                Some(id) => SoundStage::Variant { id },
                None => SoundStage::Over,
            },
            SoundStage::Variant { id } => {
                let variant: i32 = match number(reply) {
                    Some(v) => v,
                    None => 1,
                };
                let args = vec![
                    Var::integer(id),
                    Var::integer(super::NO_AIM),
                    Var::integer(super::NO_AIM),
                    Var::integer(variant),
                    Var::float(Single { bits: FULL_VOLUME }),
                    Var::float(Single { bits: NO_SHIFT }),
                ];
                assert(crate::clr::views(args@) =~= sound_words(id, variant));
                SoundStage::Play(args)
            },
            _ => SoundStage::Over,
        }
    }
}

/// How the sound of a quest fish begins.
pub open spec fn sound_begun(able: bool) -> SoundView {
    if able {
        SoundView::Style
    } else {
        SoundView::Over
    }
}

/// Begins the sound of a quest fish. Without the means to play it there is none.
pub fn play_sound(able: bool) -> (r: SoundStage)
    ensures
        r@ == if able {
            SoundView::Style
        } else {
            SoundView::Over
        },
        r@ == sound_begun(able),
{
    if able {
        SoundStage::Style
    } else {
        SoundStage::Over
    }
}

// ---------------------------------------------------------------------------
// Tooltips
// ---------------------------------------------------------------------------

/// The arguments of the tooltip that is a plain text: behind the text stands what the
/// game itself puts there when it is told nothing else.
pub open spec fn tooltip_words(text: Seq<char>) -> Seq<VarView> {
    seq![
        VarView::Text(text),
        VarView::Int(0),
        VarView::Byte(0),
        VarView::Int(super::NO_AIM),
        VarView::Int(super::NO_AIM),
        VarView::Int(super::NO_AIM),
        VarView::Int(super::NO_AIM),
        VarView::Int(0),
    ]
}

/// Shows a plain text as a tooltip. The game is called where its instance is there.
pub fn show_text_tooltip(instance: Option<&Var>, text: &str) -> (r: Option<Vec<Var>>)
    ensures
        match r {
            Some(args) => something(crate::clr::reading(instance)) && crate::clr::views(args@)
                == tooltip_words(text@),
            None => !something(crate::clr::reading(instance)),
        },
{
    if !is_something(instance) {
        return None;
    }
    let args = vec![
        Var::text(text),
        Var::integer(0),
        Var::byte(0),
        Var::integer(super::NO_AIM),
        Var::integer(super::NO_AIM),
        Var::integer(super::NO_AIM),
        Var::integer(super::NO_AIM),
        Var::integer(0),
    ];
    assert(crate::clr::views(args@) =~= tooltip_words(text@));
    Some(args)
}

/// The item that the tooltip tells of: a copy of our own, set up for one kind.
#[derive(Debug, Clone, Copy, PartialEq, Eq, Structural)]
pub struct Hovered {
    pub id: i32,
    pub rare: i32,
}

/// How far the tooltip of an item has got.
#[derive(Debug, Clone, Copy, PartialEq, Eq, Structural)]
pub enum TipStage {
    /// Read the item that the tooltip tells of now.
    Base { id: i32 },
    /// Copy it.
    Copy { id: i32 },
    /// Set the copy up for the kind.
    Setup { id: i32, object: bool },
    /// Read how rare the copy is.
    Rare { id: i32, object: bool },
    /// Begin the tooltip, in the colour of this rarity.
    Display { rare: i32 },
    /// Put the copy in the place of the item that the tooltip tells of.
    Place,
    /// Nothing more to do.
    Over,
}

impl TipStage {
    /// The item that is kept, and what to do next.
    pub open spec fn after(
        self,
        kept: Option<Hovered>,
        reply: Option<VarView>,
    ) -> (Option<Hovered>, TipStage) {
        match (self, reply) {
            (TipStage::Base { id }, Some(_)) => (None, TipStage::Copy { id }),
            (TipStage::Copy { id }, Some(v)) => (None, TipStage::Setup { id, object: v is Object }),
            (TipStage::Setup { id, object }, Some(_)) => (None, TipStage::Rare { id, object }),
            (TipStage::Rare { id, object }, Some(v)) => if object {
                let rare = v.int_or(0);
                (Some(Hovered { id, rare }), TipStage::Display { rare })
            } else {
                (None, TipStage::Over)
            },
            (TipStage::Base { .. }, None) => (None, TipStage::Over),
            (TipStage::Copy { .. }, None) => (None, TipStage::Over),
            (TipStage::Setup { .. }, None) => (None, TipStage::Over),
            (TipStage::Rare { .. }, None) => (None, TipStage::Over),
            (TipStage::Display { .. }, Some(_)) => (kept, TipStage::Place),
            _ => (kept, TipStage::Over),
        }
    }

    /// Goes on with what came back.
    pub fn tell(self, kept: &mut Option<Hovered>, reply: Option<&Var>) -> (r: TipStage)
        ensures
            (*final(kept), r) == self.after(*old(kept), crate::clr::reading(reply)),
    {
        match (self, reply) {
            (TipStage::Base { id }, Some(_)) => {
                *kept = None;
                TipStage::Copy { id }
            },
            (TipStage::Copy { id }, Some(v)) => {
                *kept = None;
                let object = match v {
                    Var::Object => true,
                    _ => false,
                };
                TipStage::Setup { id, object }
            },
            (TipStage::Setup { id, object }, Some(_)) => {
                *kept = None;
                TipStage::Rare { id, object }
            },
            (TipStage::Rare { id, object }, Some(v)) => if object {
                let rare: i32 = v.int_or(0);
                *kept = Some(Hovered { id, rare });
                TipStage::Display { rare }
            } else {
                *kept = None;
                TipStage::Over
            },
            (TipStage::Base { .. }, None) | (TipStage::Copy { .. }, None) | (
                TipStage::Setup { .. },
                None,
            ) | (TipStage::Rare { .. }, None) => {
                *kept = None;
                TipStage::Over
            },
            (TipStage::Display { .. }, Some(_)) => TipStage::Place,
            _ => TipStage::Over,
        }
    }
}

/// How the tooltip of an item begins.
pub open spec fn tip_begun(kept: Option<Hovered>, id: i32) -> TipStage {
    match kept {
        Some(h) if h.id == id => TipStage::Display { rare: h.rare },
        _ => TipStage::Base { id },
    }
}

/// Begins the tooltip of an item. A copy is made where the one that is kept is of
/// another kind.
pub fn show_item_tooltip(kept: Option<Hovered>, id: i32) -> (r: TipStage)
    ensures
        r == match kept {
            Some(h) if h.id == id => TipStage::Display { rare: h.rare },
            _ => TipStage::Base { id },
        },
        r == tip_begun(kept, id),
{
    match kept {
        Some(h) if h.id == id => TipStage::Display { rare: h.rare },
        _ => TipStage::Base { id },
    }
}

/// A tooltip that could be shown is kept: the next one of the same item makes no copy.
pub proof fn law_copy_is_made_once(
    id: i32,
    base: VarView,
    setup: VarView,
    rare: VarView,
)
    ensures
        ({
            let s1 = (TipStage::Base { id }).after(None, Some(base));
            let s2 = s1.1.after(s1.0, Some(VarView::Object));
            let s3 = s2.1.after(s2.0, Some(setup));
            let s4 = s3.1.after(s3.0, Some(rare));
            s4 == (
                Some(Hovered { id, rare: rare.int_or(0) }),
                TipStage::Display { rare: rare.int_or(0) },
            )
        }),
{
}

// ---------------------------------------------------------------------------
// The search line
// ---------------------------------------------------------------------------

/// How far the editing of the search line has got.
#[derive(Debug)]
pub enum EditStage {
    /// Tell the game that the keys write a text.
    Claim,
    /// Read the instance of the game.
    Instance,
    /// Let the instance collect the characters.
    Collect,
    /// Ask for the text, with these arguments.
    Ask(Vec<Var>),
    /// This is the text now; none where the game gave none.
    Done(Option<String>),
}

/// The model of [`EditStage`].
pub enum EditView {
    Claim,
    Instance,
    Collect,
    Ask(Seq<VarView>),
    Done(Option<Seq<char>>),
}

impl View for EditStage {
    type V = EditView;

    open spec fn view(&self) -> EditView {
        match *self {
            EditStage::Claim => EditView::Claim,
            EditStage::Instance => EditView::Instance,
            EditStage::Collect => EditView::Collect,
            EditStage::Ask(args) => EditView::Ask(crate::clr::views(args@)),
            EditStage::Done(Some(s)) => EditView::Done(Some(s@)),
            EditStage::Done(None) => EditView::Done(None),
        }
    }
}

/// The arguments that hand the game a text to edit.
pub open spec fn edit_words(current: Seq<char>) -> Seq<VarView> {
    seq![VarView::Text(current), VarView::Bool(false)]
}

impl EditView {
    pub open spec fn after(self, current: Seq<char>, reply: Option<VarView>) -> EditView {
        match (self, reply) {
            (EditView::Claim, Some(_)) => EditView::Instance,
            (EditView::Instance, Some(v)) => if v is Null {
                EditView::Ask(edit_words(current))
            } else {
                EditView::Collect
            },
            (EditView::Collect, _) => EditView::Ask(edit_words(current)),
            (EditView::Ask(_), Some(v)) => EditView::Done(v.string()),
            (EditView::Done(text), _) => EditView::Done(text),
            _ => EditView::Done(None),
        }
    }
}

fn asking(current: &str) -> (r: EditStage)
    ensures
        r@ == EditView::Ask(edit_words(current@)),
{
    let args = vec![Var::text(current), Var::boolean(false)];
    assert(crate::clr::views(args@) =~= edit_words(current@));
    EditStage::Ask(args)
}

/// Hands the search line to the game, which takes care of the keys. `stage` is where
/// the editing stands and `reply` what came back; a collection of characters that
/// failed is no reason to stop.
pub fn edit_text(stage: EditStage, current: &str, reply: Option<&Var>) -> (r: EditStage)
    ensures
        r@ == stage@.after(current@, crate::clr::reading(reply)),
{
    match (stage, reply) {
        (EditStage::Claim, Some(_)) => EditStage::Instance,
        (EditStage::Instance, Some(v)) => if v.is_null() {
            asking(current)
        } else {
            EditStage::Collect
        },
        (EditStage::Collect, _) => asking(current),
        (EditStage::Ask(_), Some(v)) => EditStage::Done(v.as_string()),
        (EditStage::Done(text), _) => EditStage::Done(text),
        _ => EditStage::Done(None),
    }
}

} // verus!
