//! That nothing ordinary is refused: what the conditions of the functions let through.

use vstd::prelude::*;

use crate::config::ConfigView;
use crate::fishing::bite::Bite;
use crate::fishing::idle::Idle;
use crate::fishing::tick::{EventView, Stage, World};
use crate::fishing::Fishing;
use crate::input::pace::Pacer;
use crate::input::visit::GameThread;
use crate::input::MailView;
use crate::overlay::font::Metrics;
use crate::overlay::icons::Image;

verus! {

/// A pause fits where the clock, the pause and the greater end of the spread leave room.
pub proof fn law_ordinary_pauses_fit(c: ConfigView, base: u64, now: u64)
    requires
        now <= 0x7FFF_FFFF_FFFF_FFFF,
        base <= 1_000_000,
        c.jitter_min_ms <= 1_000_000_000,
        c.jitter_max_ms <= 1_000_000_000,
    ensures
        crate::fishing::pause_fits(c, base, now),
{
}

/// No counter is full.
pub open spec fn has_room(f: Fishing) -> bool {
    f.bite_count < u32::MAX && f.casts < u32::MAX && f.pulls < u32::MAX && f.skips < u32::MAX
        && f.crates < u32::MAX
}

/// A turn of the automaton is never refused while no counter is full, its pauses fit, and
/// the catch is not the lowest number there is.
pub proof fn law_ordinary_turns_are_admitted(
    w: World,
    c: ConfigView,
    detour: bool,
    stage: Stage,
    event: EventView,
    now: u64,
)
    requires
        has_room(w.fishing),
        w.store is Some ==> w.store->0.stats.potions < u32::MAX,
        crate::fishing::pause_fits(c, 350, now),
        crate::fishing::pause_fits(c, 700, now),
        now <= 0x7FFF_FFFF_FFFF_FFFF,
        event matches EventView::Bobber(Some(Some(b))) ==> b.catch() > i32::MIN,
        stage matches Stage::Mouse { bobber } ==> bobber.catch() > i32::MIN,
    ensures
        w.fits(c, detour, stage, event, now),
{
}

/// What keeps a turn from being counted: exactly a counter that it would count up and that
/// is full.
pub proof fn law_full_counters_alone_refuse(f: Fishing, what: Bite, rolled: i32)
    ensures
        f.bite_fits(what, rolled) <==> {
            &&& !(rolled != f.last_bite && f.cast_at is Some && f.bite_count == u32::MAX)
            &&& !(what is Skipped && f.skips == u32::MAX)
            &&& !(what is Hooked && f.pulls == u32::MAX)
        },
{
}

/// A stacking and a cast need room for the end of their pause, a cast room for its count;
/// nothing else needs anything.
pub proof fn law_idle_moments_are_admitted(f: Fishing, what: Idle, c: ConfigView, now: u64)
    ensures
        !(what is Stacking) && !(what is Cast) ==> f.idle_fits(what, c, now),
        what is Stacking ==> (f.idle_fits(what, c, now) <==> now <= u64::MAX - 700_000_000),
        what is Cast ==> (f.idle_fits(what, c, now) <==> f.casts < u32::MAX
            && crate::fishing::pause_fits(c, 700, now)),
{
}

/// A visit of the game thread is never refused while the clock only goes forward and has
/// room for a tick.
pub proof fn law_ordinary_visits_are_admitted(
    mail: MailView,
    game: GameThread,
    this: usize,
    now: u64,
)
    requires
        game.pacer.mark is Some ==> (game.pacer.mark->0).1 <= now,
        now <= 0x7FFF_FFFF_FFFF_FFFF,
    ensures
        crate::input::visit::visit_fits(mail, game, this, now),
        crate::worker::time_fits(now),
{
}

/// A font of any sensible size can be drawn into an atlas.
pub proof fn law_ordinary_fonts_can_be_drawn(m: Metrics)
    requires
        m.average_width <= 1000,
        m.max_width <= 1000,
        -1000 <= m.height <= 1000,
        -1000 <= m.external_leading <= 1000,
    ensures
        m.measurable(),
{
    let (w, h) = (m.cell_width(), m.cell_height());
    assert((crate::overlay::font::COLS * w) * (crate::overlay::font::ROWS * h) == (16 * w) * (11
        * h)) by (nonlinear_arith)
        requires
            crate::overlay::font::COLS == 16,
            crate::overlay::font::ROWS == 11,
    ;
    assert((16 * w) * (11 * h) <= 353_056_704) by (nonlinear_arith)
        requires
            0 <= w <= 1002,
            0 <= h <= 2002,
    ;
}

/// Pictures that fit a shelf can always be laid out, as long as the atlas does not get too
/// high.
pub proof fn law_ordinary_pictures_can_be_laid_out(images: Seq<(i32, Image)>)
    requires
        forall|i: int|
            0 <= i < images.len() ==> (#[trigger] images[i]).1.wf() && images[i].1.width <= 1020,
        crate::overlay::icons::height_of(images) <= 4_194_303,
    ensures
        crate::overlay::icons::packable(images),
{
    assert forall|i: int| 0 <= i < images.len() implies #[trigger] crate::overlay::icons::placeable(
        images,
        i,
    ) by {
        lemma_pen(images, i);
        assert(images[i].1.wf() && images[i].1.width <= 1020);
    }
    assert forall|i: int| 0 <= i < images.len() implies #[trigger]
    crate::overlay::icons::ends_inside(images, i) by {
        lemma_pen(images, i);
        crate::overlay::icons::lemma_spot(images, i);
        assert(images[i].1.wf() && images[i].1.width <= 1020);
        let a = crate::overlay::icons::spot(images, i);
        let h = images[i].1.height as int;
        let top = crate::overlay::icons::height_of(images);
        assert((a.y + h - 1) * 1024 + 1024 <= 1024 * top) by (nonlinear_arith)
            requires
                a.y + h <= top,
        ;
    }
}

proof fn lemma_pen(images: Seq<(i32, Image)>, i: int)
    requires
        0 <= i <= images.len(),
        forall|k: int|
            0 <= k < images.len() ==> (#[trigger] images[k]).1.wf() && images[k].1.width <= 1020,
    ensures
        2 <= crate::overlay::icons::pen_at(images, i).x <= 1024,
        i < images.len() ==> crate::overlay::icons::spot(images, i).x + images[i].1.width + 2
            <= 1024,
    decreases i,
{
    if i > 0 {
        lemma_pen(images, i - 1);
        assert(images[i - 1].1.wf());
    }
    if i < images.len() {
        assert(images[i].1.wf() && images[i].1.width <= 1020);
    }
}

} // verus!
