//! What is read from the game on its own thread, and what is done to it there.

use vstd::prelude::*;

use crate::clr::VarView;
use crate::input::deeds::{EditView, Hovered, PlayerHunt, SoundView, TipStage};
use crate::single::Single;

verus! {

/// A coordinate is the raw one wherever that is a number, and the scaled one only where it
/// is not.
pub proof fn law_raw_coordinates_come_first(raw: Option<VarView>, scaled: Option<VarView>)
    ensures
        ({
            let c = crate::input::deeds::coordinate(raw, scaled);
            &&& raw matches Some(VarView::Int(x)) ==> c == Some(x)
            &&& raw is None || raw->0 is Null || raw->0 is Object || raw->0 is Other || raw->0
                is Text || raw->0 is Byte ==> {
                &&& scaled matches Some(VarView::Int(x)) ==> c == Some(x)
                &&& scaled is None ==> c is None
            }
        }),
{
}

/// The wheel moves by whole notches of 120, and turned the other way it moves as far the
/// other way.
pub proof fn law_wheel_moves_by_notches(raw: i32)
    ensures
        ({
            let n = crate::input::deeds::notches(raw as int);
            &&& raw >= 0 ==> 0 <= raw - 120 * n < 120
            &&& raw <= 0 ==> -120 < raw - 120 * n <= 0
            &&& n == -crate::input::deeds::notches(-(raw as int))
        }),
{
}

/// The way to the local player: its number, the list, the element of that number. Where
/// anything on the way is missing, or the number is below zero, there is none.
pub proof fn law_player_is_the_element_of_its_number(
    me: i32,
    list: VarView,
    element: Option<VarView>,
)
    ensures
        me >= 0 ==> PlayerHunt::Number.after(Some(VarView::Int(me))) == (PlayerHunt::List {
            index: me,
        }),
        me < 0 ==> PlayerHunt::Number.after(Some(VarView::Int(me))) is Nobody,
        PlayerHunt::Number.after(Some(VarView::Null)) is Nobody,
        PlayerHunt::Number.after(None) is Nobody,
        (PlayerHunt::List { index: me }).after(Some(list)) == (PlayerHunt::Element { index: me }),
        (PlayerHunt::List { index: me }).after(None) is Nobody,
        (PlayerHunt::Element { index: me }).after(element) is Here <==> element is Some && !(
        element->0 is Null),
        (PlayerHunt::Element { index: me }).after(element) is Nobody <==> element is None
            || element->0 is Null,
{
}

/// A line goes into the chat as it is, in white.
pub proof fn law_lines_are_white(line: Seq<char>)
    ensures
        ({
            let w = crate::input::deeds::chat_words(line);
            &&& w.len() == 4
            &&& w[0] == VarView::Text(line)
            &&& w[1] == VarView::Byte(255) && w[2] == VarView::Byte(255) && w[3] == VarView::Byte(
                255,
            )
        }),
{
}

/// The sound is played with the number and the variant of its style, at full volume and
/// from no place in the world; without a variant the first one is played. It needs the
/// style, the player of sounds and the number.
pub proof fn law_sound_of_its_style(
    style: Option<VarView>,
    player: Option<VarView>,
    id: i32,
    variant: Option<i32>,
)
    ensures
        ({
            let here = |v: Option<VarView>| v is Some && !(v->0 is Null);
            let s1 = SoundView::Style.after(style);
            let s2 = s1.after(player);
            let s3 = s2.after(Some(VarView::Int(id)));
            let s4 = s3.after(
                match variant {
                    Some(n) => Some(VarView::Int(n)),
                    None => None,
                },
            );
            &&& here(style) && here(player) ==> {
                &&& s2 is Number
                &&& s2.after(None) is Over && s2.after(Some(VarView::Null)) is Over
                &&& s3 == (SoundView::Variant { id })
                &&& (s4 matches SoundView::Play(w) && {
                    &&& w.len() == 6
                    &&& w[0] == VarView::Int(id)
                    &&& (w[1] matches VarView::Int(x) && x == -1)
                    &&& (w[2] matches VarView::Int(y) && y == -1)
                    &&& (w[3] matches VarView::Int(v) && v == match variant {
                        Some(n) => n as int,
                        None => 1,
                    })
                    &&& w[4] == VarView::Float(Single { bits: 0x3F80_0000 })
                    &&& w[5] == VarView::Float(Single { bits: 0 })
                })
            }
            &&& !(here(style) && here(player)) ==> s2 is Over && s3 is Over && s4 is Over
        }),
{
}

/// A text is shown as a tooltip with what the game itself puts behind it.
pub proof fn law_tooltip_is_the_text(text: Seq<char>)
    ensures
        ({
            let w = crate::input::deeds::tooltip_words(text);
            &&& w.len() == 8
            &&& w[0] == VarView::Text(text)
            &&& (w[1] matches VarView::Int(x) && x == 0)
            &&& (w[2] matches VarView::Byte(x) && x == 0)
            &&& forall|i: int| 3 <= i < 7 ==> (#[trigger] w[i] matches VarView::Int(x) && x == -1)
            &&& (w[7] matches VarView::Int(x) && x == 0)
        }),
{
}

/// The tooltip of an item tells of a copy of that very item, in the colour of its rarity:
/// the copy is made, set up for the item, read, kept, displayed and put in its place. What
/// fails on the way is forgotten, and the tooltip is not shown.
pub proof fn law_tooltip_is_of_its_item(
    id: i32,
    rare: i32,
    kept: Option<Hovered>,
    any: VarView,
)
    ensures
        (TipStage::Base { id }).after(kept, Some(any)) == (None::<Hovered>, TipStage::Copy { id }),
        (TipStage::Copy { id }).after(kept, Some(VarView::Object)) == (
            None::<Hovered>,
            TipStage::Setup { id, object: true },
        ),
        !(any is Object) ==> (TipStage::Copy { id }).after(kept, Some(any)) == (
            None::<Hovered>,
            TipStage::Setup { id, object: false },
        ),
        (TipStage::Setup { id, object: true }).after(kept, Some(any)) == (
            None::<Hovered>,
            TipStage::Rare { id, object: true },
        ),
        (TipStage::Rare { id, object: true }).after(kept, Some(VarView::Int(rare))) == (
            Some(Hovered { id, rare }),
            TipStage::Display { rare },
        ),
        (TipStage::Rare { id, object: false }).after(kept, Some(any)) == (
            None::<Hovered>,
            TipStage::Over,
        ),
        (TipStage::Base { id }).after(kept, None) == (None::<Hovered>, TipStage::Over),
        (TipStage::Copy { id }).after(kept, None) == (None::<Hovered>, TipStage::Over),
        (TipStage::Setup { id, object: true }).after(kept, None) == (
            None::<Hovered>,
            TipStage::Over,
        ),
        (TipStage::Rare { id, object: true }).after(kept, None) == (
            None::<Hovered>,
            TipStage::Over,
        ),
        (TipStage::Display { rare }).after(kept, Some(any)) == (kept, TipStage::Place),
        (TipStage::Display { rare }).after(kept, None) == (kept, TipStage::Over),
        TipStage::Place.after(kept, Some(any)) == (kept, TipStage::Over),
{
}

/// The game is handed the text as it stands and its answer is the text from then on; the
/// keys are claimed first, and characters are collected where the game can.
pub proof fn law_search_line_is_edited_by_the_game(
    current: Seq<char>,
    typed: Seq<char>,
    any: VarView,
    reply: Option<VarView>,
)
    ensures
        EditView::Claim.after(current, Some(any)) is Instance,
        EditView::Claim.after(current, None) == EditView::Done(None),
        !(any is Null) ==> EditView::Instance.after(current, Some(any)) is Collect,
        EditView::Instance.after(current, None) == EditView::Done(None),
        ({
            let direct = EditView::Instance.after(current, Some(VarView::Null));
            let collected = EditView::Collect.after(current, reply);
            &&& direct == collected
            &&& (direct matches EditView::Ask(w) && w.len() == 2 && w[0] == VarView::Text(current)
                && w[1] == VarView::Bool(false))
            &&& direct.after(current, Some(VarView::Text(typed))) == EditView::Done(Some(typed))
            &&& direct.after(current, None) == EditView::Done(None)
            &&& direct.after(current, Some(VarView::Null)) == EditView::Done(None)
        }),
        EditView::Done(Some(typed)).after(current, reply) == EditView::Done(Some(typed)),
{
}

} // verus!
