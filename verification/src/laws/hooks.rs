//! How the overlay comes, draws and leaves.

use vstd::prelude::*;

use crate::overlay::{
    Coming, DeviceCall, FramePlan, InstallReply, InstallStage, InstallView, LeaveStage, OverlayView,
    PanelText, Resources,
};

verus! {

/// Goes on with the functions: those of `Present` from the number `present` on, then those
/// of `Reset` from the number `reset` on, each by its address; behind the last the font is
/// loaded where some `Present` leads to the overlay, and otherwise it is given up.
pub open spec fn goes_on(before: Coming, present: int, reset: int, after: Coming) -> bool {
    let p = before.job.presents;
    let r = before.job.resets;
    &&& present < p.len() ==> after.job.stage == (InstallStage::Present {
        slot: present as usize,
        target: p[present],
    }) && after.overlay == before.overlay
    &&& present >= p.len() && reset < r.len() ==> after.job.stage == (InstallStage::Reset {
        slot: reset as usize,
        target: r[reset],
    }) && after.overlay == before.overlay
    &&& present >= p.len() && reset >= r.len() && before.job.hooked ==> after.job.stage
        is Font && after.overlay == before.overlay
    &&& present >= p.len() && reset >= r.len() && !before.job.hooked ==> after.job.stage
        == InstallStage::Over(false) && after.overlay == (OverlayView {
        installed: false,
        ..before.overlay
    })
    &&& after.job == (InstallView { stage: after.job.stage, ..before.job })
}

/// A coming that begins: an overlay that is there stays, another is looked for a way in.
pub proof fn law_overlay_comes_once(o: OverlayView)
    ensures
        ({
            let c = crate::overlay::install_begun(o);
            &&& c.overlay == (OverlayView { installed: true, ..o })
            &&& o.installed ==> c.job.stage == InstallStage::Over(true)
            &&& !o.installed ==> c.job.stage is ProbeEx
            &&& c.job.present_ex is None && c.job.reset_ex is None && !c.job.hooked
            &&& c.job.presents.len() == 0 && c.job.resets.len() == 0
        }),
        ({
            let o = OverlayView::initial();
            &&& !o.installed && !o.active && !o.first_frame_seen && !o.release_requested
            &&& !o.released && o.frames == 0 && o.resources.texture == 0 && o.resources.block == 0
            &&& o.present == seq![0usize, 0] && o.reset == seq![0usize, 0]
            &&& o.present_original == seq![0usize, 0] && o.reset_original == seq![0usize, 0]
        }),
{
}

/// The functions of both kinds of device are found, each once: that of the extended device
/// first, that of the plain one where it is another. Without any `Present` the overlay does
/// not come.
pub proof fn law_functions_are_found(
    c: Coming,
    present_ex: Option<usize>,
    reset_ex: Option<usize>,
    present: Option<usize>,
    reset: Option<usize>,
)
    ensures
        c.job.stage is ProbeEx ==> c.after(InstallReply::Targets(present_ex, reset_ex)) == (Coming {
            overlay: c.overlay,
            job: InstallView {
                stage: InstallStage::Probe,
                present_ex,
                reset_ex,
                ..c.job
            },
        }),
        c.job.stage is Probe && c.job.present_ex == present_ex && c.job.reset_ex == reset_ex ==> {
            let d = c.after(InstallReply::Targets(present, reset));
            let known = Coming {
                overlay: c.overlay,
                job: InstallView { presents: d.job.presents, resets: d.job.resets, ..c.job },
            };
            &&& are_those(present_ex, present, d.job.presents)
            &&& are_those(reset_ex, reset, d.job.resets)
            &&& d.job.presents.len() > 0 ==> goes_on(known, 0, 0, d)
            &&& d.job.presents.len() == 0 ==> d.job.stage == InstallStage::Over(false)
                && d.overlay == (OverlayView { installed: false, ..c.overlay })
        },
{
    lemma_those(present_ex, present);
    lemma_those(reset_ex, reset);
}

proof fn lemma_those(first: Option<usize>, second: Option<usize>)
    ensures
        are_those(first, second, crate::overlay::distinct(first, second)),
{
    let found = crate::overlay::distinct(first, second);
    if first is Some && first->0 != 0 {
        let a = seq![first->0];
        assert(a[0] == first->0);
        if second is Some && second->0 != 0 {
            assert(a.contains(second->0) <==> first->0 == second->0);
            assert(first->0 != second->0 ==> found =~= seq![first->0, second->0]);
        }
    } else if second is Some && second->0 != 0 {
        assert(found =~= seq![second->0]);
    }
}

/// Whether these are the addresses that two probes found: the first, then the second where
/// it is another; 0 is none.
pub open spec fn are_those(first: Option<usize>, second: Option<usize>, found: Seq<usize>) -> bool {
    let a = first is Some && first->0 != 0;
    let b = second is Some && second->0 != 0;
    &&& !a && !b ==> found.len() == 0
    &&& a && !b ==> found == seq![first->0]
    &&& !a && b ==> found == seq![second->0]
    &&& a && b && first->0 == second->0 ==> found == seq![first->0]
    &&& a && b && first->0 != second->0 ==> found == seq![first->0, second->0]
}

/// A function that was led to the overlay is noted at its place, with the way to what it
/// did before; one that was not is passed over. Then it goes on with the next; with the
/// font loaded, or not, the overlay draws.
pub proof fn law_functions_are_led_to_the_overlay(
    c: Coming,
    slot: usize,
    target: usize,
    original: Option<usize>,
)
    requires
        slot < 2,
        c.overlay.present.len() == 2,
        c.overlay.reset.len() == 2,
        c.overlay.present_original.len() == 2,
        c.overlay.reset_original.len() == 2,
    ensures
        c.job.stage == (InstallStage::Present { slot, target }) ==> {
            let d = c.after(InstallReply::Original(original));
            let noted = Coming {
                overlay: OverlayView {
                    present: d.overlay.present,
                    present_original: d.overlay.present_original,
                    ..c.overlay
                },
                job: InstallView { hooked: c.job.hooked || original is Some, ..c.job },
            };
            &&& goes_on(noted, slot + 1, 0, d)
            &&& d.overlay.present[slot as int] == if original is Some {
                target
            } else {
                c.overlay.present[slot as int]
            }
            &&& d.overlay.present_original[slot as int] == if original is Some {
                original->0
            } else {
                c.overlay.present_original[slot as int]
            }
            &&& d.overlay.present[1 - slot] == c.overlay.present[1 - slot]
            &&& d.overlay.present_original[1 - slot] == c.overlay.present_original[1 - slot]
        },
        c.job.stage == (InstallStage::Reset { slot, target }) ==> {
            let d = c.after(InstallReply::Original(original));
            let noted = Coming {
                overlay: OverlayView {
                    reset: d.overlay.reset,
                    reset_original: d.overlay.reset_original,
                    ..c.overlay
                },
                job: c.job,
            };
            &&& goes_on(noted, c.job.presents.len() as int, slot + 1, d)
            &&& d.overlay.reset[slot as int] == if original is Some {
                target
            } else {
                c.overlay.reset[slot as int]
            }
            &&& d.overlay.reset_original[slot as int] == if original is Some {
                original->0
            } else {
                c.overlay.reset_original[slot as int]
            }
            &&& d.overlay.reset[1 - slot] == c.overlay.reset[1 - slot]
            &&& d.overlay.reset_original[1 - slot] == c.overlay.reset_original[1 - slot]
        },
        c.job.stage is Font ==> c.after(InstallReply::Done) == (Coming {
            overlay: OverlayView { active: true, ..c.overlay },
            job: InstallView { stage: InstallStage::Over(true), ..c.job },
        }),
{
}

/// A frame that comes by: the resources go back where that was asked for; an overlay that
/// draws counts the frame, notes that one was seen, and draws where the player wants to see
/// the panel; what the function did before is called by its own way.
pub proof fn law_frames_come_by(o: OverlayView, slot: int, show: bool)
    ensures
        ({
            let p = crate::overlay::frame_plan(o, slot, show);
            let q = crate::overlay::frame_seen(o);
            &&& o.release_requested ==> p.release == o.resources && q.resources.texture == 0
                && q.resources.block == 0 && q.released && !q.release_requested
            &&& !o.release_requested ==> p.release.texture == 0 && p.release.block == 0
                && q.resources == o.resources && q.released == o.released && !q.release_requested
            &&& p.first == (o.active && !o.first_frame_seen)
            &&& p.draw == (o.active && show)
            &&& p.original == o.present_original[slot]
            &&& o.active && o.frames < u32::MAX ==> q.frames == o.frames + 1
            &&& o.active ==> q.first_frame_seen
            &&& !o.active ==> q.frames == o.frames && q.first_frame_seen == o.first_frame_seen
            &&& q == (OverlayView {
                release_requested: q.release_requested,
                released: q.released,
                resources: q.resources,
                frames: q.frames,
                first_frame_seen: q.first_frame_seen,
                ..o
            })
        }),
        crate::overlay::emptied(o) == (OverlayView {
            resources: Resources { texture: 0, block: 0 },
            ..o
        }),
{
}

/// What is drawn: the game's states are kept first; areas without a texture and with plain
/// colours, then letters with theirs and the colours times it; then the texture is off and
/// the states are back.
pub proof fn law_what_is_drawn(areas: bool, letters: bool)
    ensures
        ({
            let c = crate::overlay::device_calls(areas, letters);
            let head = seq![DeviceCall::Capture, DeviceCall::States];
            let fill = seq![DeviceCall::NoTexture, DeviceCall::Plain, DeviceCall::DrawAreas];
            let text = seq![DeviceCall::FontTexture, DeviceCall::Modulate, DeviceCall::DrawLetters];
            let tail = seq![DeviceCall::NoTexture, DeviceCall::Apply, DeviceCall::EndScene];
            &&& areas && letters ==> c == head + fill + text + tail
            &&& areas && !letters ==> c == head + fill + tail
            &&& !areas && letters ==> c == head + text + tail
            &&& !areas && !letters ==> c == head + tail
        }),
{
}

/// Takes the overlay off the next function from `number` on that leads to it: they are
/// `Present` and `Reset` of the first kind of device, then of the second.
pub open spec fn unhooks(o: OverlayView, number: int, q: OverlayView, stage: LeaveStage) -> bool {
    let addresses = seq![o.present[0], o.reset[0], o.present[1], o.reset[1]];
    &&& stage is Unhook || stage is Over
    &&& stage is Over ==> q == o && forall|k: int|
        number <= k < 4 ==> #[trigger] addresses[k] == 0
    &&& (stage matches LeaveStage::Unhook { number: n, target } ==> {
        &&& number <= n < 4
        &&& target == addresses[n as int] && target != 0
        &&& forall|k: int| number <= k < n ==> #[trigger] addresses[k] == 0
        &&& q == (OverlayView { present: q.present, reset: q.reset, ..o })
        &&& q.present[0] == if n == 0 {
            0
        } else {
            o.present[0]
        }
        &&& q.reset[0] == if n == 1 {
            0
        } else {
            o.reset[0]
        }
        &&& q.present[1] == if n == 2 {
            0
        } else {
            o.present[1]
        }
        &&& q.reset[1] == if n == 3 {
            0
        } else {
            o.reset[1]
        }
    })
}

proof fn lemma_unhooks(o: OverlayView, number: int)
    requires
        o.present.len() == 2,
        o.reset.len() == 2,
        0 <= number <= 4,
    ensures
        unhooks(
            o,
            number,
            crate::overlay::unhook_state(o, number),
            crate::overlay::unhook_stage(o, number),
        ),
    decreases 4 - number,
{
    if number < 4 && crate::overlay::target(o, number) == 0 {
        lemma_unhooks(o, number + 1);
        let addresses = seq![o.present[0], o.reset[0], o.present[1], o.reset[1]];
        assert(addresses[number] == 0);
    }
}

/// Leaving: drawing stops at once. With something on the device, the thread that draws is
/// asked to give it back and 0.6 seconds are waited for it; then the overlay does so
/// itself. Only then is it taken off the functions, one after the other.
pub proof fn law_overlay_leaves_in_order(o: OverlayView, until: u64, number: usize, now: u64)
    requires
        o.present.len() == 2,
        o.reset.len() == 2,
        now + 600_000_000 <= u64::MAX,
        number < 4,
    ensures
        ({
            let (q, stage) = crate::overlay::leave_begun(o, now);
            let held = o.resources.texture != 0 || o.resources.block != 0;
            let quiet = OverlayView { installed: false, active: false, ..o };
            &&& !o.installed ==> q == o && stage is Over
            &&& o.installed && held ==> q == (OverlayView {
                released: false,
                release_requested: true,
                ..quiet
            }) && stage == (LeaveStage::Wait { until: (now + 600_000_000) as u64 })
            &&& o.installed && !held ==> unhooks(quiet, 0, q, stage)
        }),
        ({
            let (q, stage) = crate::overlay::left(o, LeaveStage::Wait { until }, now);
            &&& o.released ==> unhooks(o, 0, q, stage)
            &&& !o.released && now < until ==> q == o && stage == (LeaveStage::Wait { until })
            &&& !o.released && now >= until ==> stage == LeaveStage::Release(o.resources) && q == (
            OverlayView { resources: Resources { texture: 0, block: 0 }, ..o })
        }),
        ({
            let (q, stage) = crate::overlay::left(o, LeaveStage::Release(o.resources), now);
            unhooks(o, 0, q, stage)
        }),
        ({
            let (q, stage) = crate::overlay::left(
                o,
                LeaveStage::Unhook { number, target: 0 },
                now,
            );
            unhooks(o, number + 1, q, stage)
        }),
        crate::overlay::left(o, LeaveStage::Over, now) == (o, LeaveStage::Over),
{
    let quiet = OverlayView { installed: false, active: false, ..o };
    lemma_unhooks(quiet, 0);
    lemma_unhooks(o, 0);
    lemma_unhooks(o, number + 1);
}

/// The texts of the panel: of every line its value, behind its label where it has one, the
/// lines in their order.
pub proof fn law_lines_are_drawn(lines: Seq<(Seq<char>, Seq<char>)>, n: int)
    requires
        0 <= n < lines.len(),
    ensures
        crate::overlay::line_texts(lines, 0) == Seq::<PanelText>::empty(),
        lines[n].0.len() > 0 ==> crate::overlay::line_texts(lines, n + 1)
            == crate::overlay::line_texts(lines, n) + seq![
            PanelText::Label(n as usize),
            PanelText::Value(n as usize),
        ],
        lines[n].0.len() == 0 ==> crate::overlay::line_texts(lines, n + 1)
            == crate::overlay::line_texts(lines, n) + seq![PanelText::Value(n as usize)],
{
    let before = crate::overlay::line_texts(lines, n);
    assert(before.push(PanelText::Label(n as usize)).push(PanelText::Value(n as usize)) =~= before
        + seq![PanelText::Label(n as usize), PanelText::Value(n as usize)]);
    assert(before.push(PanelText::Value(n as usize)) =~= before + seq![PanelText::Value(
        n as usize,
    )]);
}

} // verus!
