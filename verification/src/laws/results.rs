//! What the small steps give, one by one.

use vstd::prelude::*;

use crate::clr::VarView;
use crate::crash::Trap;
use crate::detour::{Detour, DetourStage};
use crate::fishing::Fishing;
use crate::input::deeds::{Hovered, PlayerHunt, SoundView, TipStage};
use crate::input::pace::Pacer;
use crate::input::MailView;
use crate::logging::Sink;
use crate::overlay::{Need, OverlayView, PanelText, Resources};
use crate::worker::KeyEdge;

verus! {

/// The local player is the element of its number, none where that is below zero or no
/// number; the game sleeps in the background unless it says otherwise; a coordinate of the
/// cursor that is no number is -1.
pub proof fn law_single_readings(n: i32, t: bool, x: i32, y: i32)
    ensures
        ({
            let r = crate::game::readings(
                VarView::Int(n),
                VarView::Bool(t),
                VarView::Int(x),
                VarView::Int(y),
            );
            &&& r.player == n
            &&& n >= 0 ==> r.local == Some(n)
            &&& n < 0 ==> r.local is None
            &&& r.throttled == t
            &&& r.cursor == (x, y)
        }),
        ({
            let r = crate::game::readings(
                VarView::Null,
                VarView::Null,
                VarView::Null,
                VarView::Null,
            );
            &&& r.player == -1 && r.local is None && r.throttled
            &&& r.cursor.0 == -1 && r.cursor.1 == -1
        }),
{
}

/// The cursor is where both coordinates say, with the button as it was read; without a
/// coordinate or the button there is none.
pub proof fn law_cursor_is_where_it_was_read(
    x: i32,
    y: i32,
    down: bool,
    other: Option<VarView>,
)
    ensures
        crate::input::deeds::pointed(
            Some(VarView::Int(x)),
            other,
            Some(VarView::Int(y)),
            other,
            Some(VarView::Bool(down)),
        ) == Some((x, y, down)),
        crate::input::deeds::pointed(
            None,
            Some(VarView::Int(x)),
            None,
            Some(VarView::Int(y)),
            Some(VarView::Bool(down)),
        ) == Some((x, y, down)),
        crate::input::deeds::pointed(
            Some(VarView::Int(x)),
            other,
            Some(VarView::Int(y)),
            other,
            None,
        ) is None,
        crate::input::deeds::pointed(None, None, Some(VarView::Int(y)), other, other) is None,
        crate::input::deeds::pointed(Some(VarView::Int(x)), other, None, None, other) is None,
{
}

/// The scale is the single that was read; the wheel is in whole notches of 120, and stands
/// still where it could not be read.
pub proof fn law_scale_and_wheel(v: crate::single::Single, notches: i32, rest: i32)
    requires
        -1_000_000 <= notches <= 1_000_000,
        0 <= rest < 120,
    ensures
        crate::input::deeds::scaled(Some(VarView::Float(v))) == Some(v),
        crate::input::deeds::scaled(None) is None,
        crate::input::deeds::scaled(Some(VarView::Null)) is None,
        crate::input::deeds::wheeled(None) == 0,
        crate::input::deeds::wheeled(Some(VarView::Null)) == 0,
        notches >= 0 ==> crate::input::deeds::wheeled(
            Some(VarView::Int((120 * notches + rest) as i32)),
        ) == notches,
        notches <= 0 ==> crate::input::deeds::wheeled(
            Some(VarView::Int((120 * notches - rest) as i32)),
        ) == notches,
{
}

/// A field of the player is written where there is one, with exactly that value.
pub proof fn law_player_is_written(hunt: PlayerHunt, value: bool)
    ensures
        hunt is Here ==> crate::input::deeds::put(hunt, value) == Some(VarView::Bool(value)),
        !(hunt is Here) ==> crate::input::deeds::put(hunt, value) is None,
{
}

/// Every waiting line is written once, in its order, where there is a chat; otherwise none
/// is.
pub proof fn law_chat_lines_are_all_written(
    monitor: Option<VarView>,
    lines: Seq<Seq<char>>,
    i: int,
)
    ensures
        ({
            let calls = crate::input::deeds::chat_calls(monitor, lines);
            let there = monitor is Some && !(monitor->0 is Null);
            &&& there ==> calls.len() == lines.len()
            &&& there && 0 <= i < lines.len() ==> calls[i].len() == 4 && calls[i][0]
                == VarView::Text(lines[i])
            &&& !there ==> calls.len() == 0
        }),
{
}

/// A sound needs the means to play it; a tooltip uses the copy that is kept for the same
/// item, and makes one for another.
pub proof fn law_sounds_and_tooltips_begin(h: Hovered, id: i32)
    ensures
        crate::input::deeds::sound_begun(true) is Style,
        crate::input::deeds::sound_begun(false) is Over,
        crate::input::deeds::tip_begun(None, id) == (TipStage::Base { id }),
        h.id == id ==> crate::input::deeds::tip_begun(Some(h), id) == (TipStage::Display {
            rare: h.rare,
        }),
        h.id != id ==> crate::input::deeds::tip_begun(Some(h), id) == (TipStage::Base { id }),
{
}

/// Requests that are noted, and nothing else: a stacking asked for or called off, the sound,
/// and whether the window is in front.
pub proof fn law_small_requests_are_noted(mail: MailView, yes: bool)
    ensures
        ({
            let m = mail.stacking(yes);
            m.quick_stack == yes && m == (MailView { quick_stack: m.quick_stack, ..mail })
        }),
        ({
            let m = mail.sounding();
            m.sound && m == (MailView { sound: m.sound, ..mail })
        }),
        ({
            let m = mail.fronted(yes);
            m.inactive != yes && m == (MailView { inactive: m.inactive, ..mail })
        }),
{
}

/// In the foreground nothing is held and the timer goes back to what it was, if it was
/// changed; so it does at the end.
pub proof fn law_timer_goes_back(p: Pacer)
    ensures
        ({
            let (q, pace) = p.idled();
            &&& q.mark is None && !q.raised
            &&& !pace.raise && pace.sleep == 0 && pace.lower == p.raised
        }),
        ({
            let (q, lower) = p.ended();
            lower == p.raised && !q.raised && q.mark == p.mark
        }),
{
}

/// The trap is set once, keeps what the system gave, gives that back, and writes down the
/// first four crashes.
pub proof fn law_trap(t: Trap, handle: usize, code: u32)
    ensures
        t.unset() <==> t.handle == 0,
        handle != 0 ==> t.set(handle).handle == handle,
        handle == 0 ==> t.set(handle).handle == t.handle,
        t.set(handle).logged == t.logged,
        t.given_up().0.handle == 0 && t.given_up().0.logged == t.logged,
        t.handle != 0 ==> t.given_up().1 == Some(t.handle),
        t.handle == 0 ==> t.given_up().1 is None,
        ({
            let (u, written) = t.struck(code);
            let kills = code == 0xC000_0005 || code == 0xC000_00FD || code == 0xC000_001D;
            &&& written <==> kills && t.logged < 4
            &&& u.handle == t.handle
            &&& kills && t.logged < u32::MAX ==> u.logged == t.logged + 1
            &&& !kills ==> u.logged == t.logged
        }),
{
}

/// A module is named by its file; an address outside of all is called so.
pub proof fn law_modules_are_named(path: Seq<char>)
    ensures
        crate::crash::module_name(true, Some(path)) == crate::text::last_part(path),
        crate::crash::module_name(true, None) == "неизвестный модуль"@,
        crate::crash::module_name(false, Some(path)) == "вне модулей (JIT или куча)"@,
        crate::crash::module_name(false, None) == "вне модулей (JIT или куча)"@,
        crate::overlay::module_name(true, Some(path)) == crate::text::last_part(path),
        crate::overlay::module_name(true, None) == "неизвестный модуль"@,
        crate::overlay::module_name(false, Some(path)) == "вне модулей (куча)"@,
        crate::overlay::module_name(false, None) == "вне модулей (куча)"@,
{
}

/// The panel has a row for each line and one at the least; title, labels and values each
/// have their colour.
pub proof fn law_rows_and_colours(n: nat, i: usize)
    ensures
        n > 0 ==> crate::overlay::rows_for(n) == n,
        crate::overlay::rows_for(0) == 1,
        crate::overlay::colored(PanelText::Title) == 0xFFFF_D75E,
        crate::overlay::colored(PanelText::Label(i)) == 0xFF9F_A3D8,
        crate::overlay::colored(PanelText::Value(i)) == 0xFFE4_E4F2,
{
}

/// A whole pair of resources is used as it is. Half a pair is given back, and a new one is
/// made where there is a font. Only a whole pair is kept. Before a reset everything is given
/// back, and the function of that device is called.
pub proof fn law_resources_come_in_pairs(
    o: OverlayView,
    font: bool,
    texture: usize,
    block: usize,
    slot: int,
)
    ensures
        ({
            let (q, need) = crate::overlay::looked_after(o, font);
            let whole = o.resources.texture != 0 && o.resources.block != 0;
            &&& whole ==> q == o && need is Ready
            &&& !whole ==> q == (OverlayView {
                resources: Resources { texture: 0, block: 0 },
                ..o
            })
            &&& !whole && font ==> need == Need::Make(o.resources)
            &&& !whole && !font ==> need == Need::Drop(o.resources)
        }),
        ({
            let (q, kept) = crate::overlay::with_pair(o, Some(texture), Some(block));
            &&& kept <==> texture != 0 && block != 0
            &&& kept ==> q == (OverlayView { resources: Resources { texture, block }, ..o })
            &&& !kept ==> q == o
        }),
        crate::overlay::with_pair(o, None, Some(block)) == (o, false),
        crate::overlay::with_pair(o, Some(texture), None) == (o, false),
        ({
            let (q, back, original) = crate::overlay::reset_plan(o, slot);
            &&& q == (OverlayView { resources: Resources { texture: 0, block: 0 }, ..o })
            &&& back == o.resources
            &&& original == o.reset_original[slot]
        }),
{
}

/// A detour that is set is not set again; one that is given up is taken off the method that
/// it was set on.
pub proof fn law_detour_begins_and_ends(d: Detour, address: usize)
    ensures
        d.begun(address).0 == (Detour { installed: true, ..d }),
        d.installed ==> d.begun(address).1 == DetourStage::Over(true),
        !d.installed ==> d.begun(address).1 == (DetourStage::Create { address }),
        d.installed && d.target != 0 ==> d.taken_off() == Some(d.target),
        !d.installed || d.target == 0 ==> d.taken_off() is None,
{
}

/// A key counts in the moment in which it goes down; what is seen of it is remembered.
pub proof fn law_keys_count_when_they_go_down(k: KeyEdge)
    ensures
        k.goes_down(true) <==> !k.was_down,
        !k.goes_down(false),
        k.seen(true).was_down && !k.seen(false).was_down,
        k.seen(true).vk == k.vk && k.seen(false).vk == k.vk,
        !k.seen(true).goes_down(true),
        k.seen(false).goes_down(true),
{
}

/// A crate counts one, anything else none, and nothing else changes.
pub proof fn law_crates_are_counted(f: Fishing)
    requires
        f.crates < u32::MAX,
    ensures
        f.landing(true).crates == f.crates + 1,
        f.landing(true) == (Fishing { crates: f.landing(true).crates, ..f }),
        f.landing(false) == f,
{
}

/// A line goes into the ring, and into the file where there is one; into neither once the
/// log is poisoned.
pub proof fn law_lines_go_where_they_belong(sink: Sink, line: Seq<char>)
    ensures
        ({
            let (lines, written) = crate::logging::noted(sink, line);
            &&& sink.poisoned ==> lines == sink.lines() && written is None
            &&& !sink.poisoned ==> lines.len() > 0 && lines.last() == line
            &&& !sink.poisoned && sink.file ==> written == Some(line)
            &&& !sink.file ==> written is None
        }),
{
}

/// Of a version all characters but the closing zero are read, of 64 at most.
pub proof fn law_versions_are_read(len: u32)
    ensures
        1 <= len <= 64 ==> crate::clr::worth_reading(len) == len - 1,
        len == 0 ==> crate::clr::worth_reading(len) == 0,
        len > 64 ==> crate::clr::worth_reading(len) == 63,
{
}

/// A template without values stays as it is.
pub proof fn law_template_without_values_stays(template: Seq<char>)
    ensures
        crate::lang::filled(template, Seq::empty()) == template,
{
}

/// What is found in the atlas of pictures was laid out: it is the place of the last picture
/// of its number.
pub proof fn law_only_pictures_are_found(
    images: Seq<(i32, crate::overlay::icons::Image)>,
    n: int,
    id: i32,
)
    requires
        0 <= n <= images.len(),
        crate::overlay::icons::places(images, n).dom().contains(id),
    ensures
        exists|i: int|
            0 <= i < n && (#[trigger] images[i]).0 == id && crate::overlay::icons::places(
                images,
                n,
            )[id] == crate::overlay::icons::rect_of(images, i),
    decreases n,
{
    if n > 0 {
        if images[n - 1].0 != id {
            law_only_pictures_are_found(images, n - 1, id);
        }
    }
}

/// The number of Russian in the game, the pauses of the worker and of a leaving overlay, the
/// height of the letters, and the colours of the ground.
pub proof fn law_fixed_numbers()
    ensures
        crate::lang::RUSSIAN_ID == 6,
        crate::worker::POLL_INTERVAL == 30_000_000,
        crate::overlay::RELEASE_POLL == 5_000_000,
        crate::overlay::font::FONT_HEIGHT == 16,
        crate::overlay::font::LETTERS == 163,
        crate::overlay::COLOR_BORDER == 0xFF1B_1B38,
        crate::overlay::COLOR_FRAME == 0xFF5A_5CB8,
        crate::overlay::COLOR_BACK == 0xE62E_3070,
{
}

} // verus!
