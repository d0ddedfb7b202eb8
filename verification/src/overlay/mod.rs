//! The overlay on top of the game.
//!
//! The overlay draws when the game presents a finished frame. To that end it has the
//! game come by in `Present` and in `Reset`; there may be two implementations of each,
//! one of a plain device and one of an extended one. What it keeps on the device are
//! a texture and a block of device states, which it has to give back before the device
//! is reset and before it leaves.

use vstd::prelude::*;

use crate::text;

pub mod font;
pub mod icons;
pub mod laws;
pub mod state;
pub mod ui;

verus! {

/// How many implementations of a function can be there.
pub const MAX_HOOKS: usize = 2;

/// How long the thread that draws is waited for before the overlay leaves, in
/// nanoseconds.
pub const RELEASE_WAIT: u64 = 600_000_000;

/// How long it sleeps between two looks, in nanoseconds.
pub const RELEASE_POLL: u64 = 5_000_000;

pub const COLOR_BORDER: u32 = 0xFF1B_1B38;

pub const COLOR_FRAME: u32 = 0xFF5A_5CB8;

pub const COLOR_BACK: u32 = 0xE62E_3070;

pub const COLOR_TITLE: u32 = 0xFFFF_D75E;

pub const COLOR_TEXT: u32 = 0xFFE4_E4F2;

pub const COLOR_LABEL: u32 = 0xFF9F_A3D8;

// ---------------------------------------------------------------------------
// The lines of the panel
// ---------------------------------------------------------------------------

/// The lines of the panel, each a label and a value. A panic under their lock poisons
/// them, and from then on they stay as they are and are no longer shown.
#[derive(Debug)]
pub struct Snapshot {
    pub poisoned: bool,
    pub lines: Vec<(String, String)>,
}

/// The model of some lines.
pub open spec fn pairs(lines: Seq<(String, String)>) -> Seq<(Seq<char>, Seq<char>)> {
    lines.map_values(|l: (String, String)| (l.0@, l.1@))
}

impl Snapshot {
    /// No lines yet.
    pub fn new() -> (r: Snapshot)
        ensures
            !r.poisoned,
            r.lines@.len() == 0,
    {
        Snapshot { poisoned: false, lines: Vec::new() }
    }

    /// The lines that are shown.
    pub open spec fn shown(self) -> Seq<(Seq<char>, Seq<char>)> {
        if self.poisoned {
            Seq::empty()
        } else {
            pairs(self.lines@)
        }
    }
}

/// Renews the lines of the panel.
pub fn set_lines(snapshot: &mut Snapshot, lines: Vec<(String, String)>)
    ensures
        final(snapshot).poisoned == old(snapshot).poisoned,
        final(snapshot).lines == if old(snapshot).poisoned {
            old(snapshot).lines
        } else {
            lines
        },
{
    if !snapshot.poisoned {
        snapshot.lines = lines;
    }
}

/// A text of the panel.
#[derive(Debug, Clone, Copy, PartialEq, Eq, Structural)]
pub enum PanelText {
    Title,
    /// The label of a line.
    Label(usize),
    /// The value of a line.
    Value(usize),
}

/// The texts of the first `n` lines: an empty label is left out.
pub open spec fn line_texts(lines: Seq<(Seq<char>, Seq<char>)>, n: int) -> Seq<PanelText>
    decreases n,
{
    if n <= 0 {
        Seq::empty()
    } else {
        let before = line_texts(lines, n - 1);
        let value = PanelText::Value((n - 1) as usize);
        if lines[n - 1].0.len() == 0 {
            before.push(value)
        } else {
            before.push(PanelText::Label((n - 1) as usize)).push(value)
        }
    }
}

/// The texts of the panel in the order in which they are drawn.
pub fn panel_texts(snapshot: &Snapshot) -> (r: Vec<PanelText>)
    ensures
        r@ == seq![PanelText::Title] + line_texts(
            snapshot.shown(),
            snapshot.shown().len() as int,
        ),
{
    let mut texts: Vec<PanelText> = Vec::new();
    texts.push(PanelText::Title);
    let ghost shown = snapshot.shown();
    let n: usize = if snapshot.poisoned {
        0
    } else {
        snapshot.lines.len()
    };
    assert(texts@ =~= seq![PanelText::Title] + line_texts(shown, 0));
    let mut i: usize = 0;
    while i < n
        invariant
            i <= n,
            n == shown.len(),
            n > 0 ==> shown == pairs(snapshot.lines@),
            texts@ == seq![PanelText::Title] + line_texts(shown, i as int),
        decreases n - i,
    {
        assert(shown[i as int].0 == snapshot.lines@[i as int].0@);
        if !text::is_empty(snapshot.lines[i].0.as_str()) {
            texts.push(PanelText::Label(i));
        }
        texts.push(PanelText::Value(i));
        assert(texts@ =~= seq![PanelText::Title] + line_texts(shown, i + 1));
        i = i + 1;
    }
    texts
}

/// How many rows so many lines take, one at the least.
pub open spec fn rows_for(lines: nat) -> nat {
    if lines == 0 {
        1
    } else {
        lines
    }
}

/// How many rows the body of the panel has, one at the least.
pub fn panel_rows(snapshot: &Snapshot) -> (r: usize)
    ensures
        r == if snapshot.shown().len() == 0 {
            1
        } else {
            snapshot.shown().len()
        },
        r == rows_for(snapshot.shown().len()),
{
    if snapshot.poisoned || snapshot.lines.len() == 0 {
        1
    } else {
        snapshot.lines.len()
    }
}

/// The colour of a text.
pub open spec fn colored(text: PanelText) -> u32 {
    match text {
        PanelText::Title => COLOR_TITLE,
        PanelText::Label(_) => COLOR_LABEL,
        PanelText::Value(_) => COLOR_TEXT,
    }
}

/// The colour of a text.
pub fn text_color(text: PanelText) -> (r: u32)
    ensures
        r == match text {
            PanelText::Title => COLOR_TITLE,
            PanelText::Label(_) => COLOR_LABEL,
            PanelText::Value(_) => COLOR_TEXT,
        },
        r == colored(text),
{
    match text {
        PanelText::Title => COLOR_TITLE,
        PanelText::Label(_) => COLOR_LABEL,
        PanelText::Value(_) => COLOR_TEXT,
    }
}

/// The cells of the letters of a text; nothing for a letter that the atlas lacks.
pub fn lay(atlas: &font::FontAtlas, s: &str) -> (r: Vec<Option<(u32, u32)>>)
    requires
        atlas.wf(),
    ensures
        r@.len() == s@.len(),
        forall|i: int|
            0 <= i < s@.len() ==> #[trigger] r@[i] == if atlas.index@.dom().contains(s@[i] as u32) {
                Some(atlas.grid().corner(atlas.index@[s@[i] as u32] as int))
            } else {
                None
            },
{
    let chars = text::chars_of(s);
    let mut cells: Vec<Option<(u32, u32)>> = Vec::new();
    let mut i: usize = 0;
    while i < chars.len()
        invariant
            atlas.wf(),
            chars@ == s@,
            i <= chars@.len(),
            cells@.len() == i,
            forall|j: int|
                0 <= j < i ==> #[trigger] cells@[j] == if atlas.index@.dom().contains(
                    s@[j] as u32,
                ) {
                    Some(atlas.grid().corner(atlas.index@[s@[j] as u32] as int))
                } else {
                    None
                },
        decreases chars@.len() - i,
    {
        cells.push(atlas.cell(chars[i]));
        i = i + 1;
    }
    cells
}

// ---------------------------------------------------------------------------
// The overlay
// ---------------------------------------------------------------------------

/// What the overlay has on the device: a texture and a block of states, each by its
/// address, 0 where there is none.
#[derive(Debug, Clone, Copy, PartialEq, Eq, Structural)]
pub struct Resources {
    pub texture: usize,
    pub block: usize,
}

impl Resources {
    pub open spec fn none() -> Resources {
        Resources { texture: 0, block: 0 }
    }

    /// Whether anything is there.
    pub open spec fn some(self) -> bool {
        self.texture != 0 || self.block != 0
    }
}

/// Where the overlay stands.
#[derive(Debug, Clone, Copy)]
pub struct Overlay {
    pub installed: bool,
    /// While it is false the overlay only passes the game's calls on.
    pub active: bool,
    pub first_frame_seen: bool,
    /// The thread that draws is asked to give the resources back.
    pub release_requested: bool,
    pub released: bool,
    pub resources: Resources,
    /// How many frames were drawn over.
    pub frames: u32,
    /// The functions that lead to the overlay, by their addresses, 0 where there is none,
    /// and the ways to what they did before.
    pub present: [usize; 2],
    pub reset: [usize; 2],
    pub present_original: [usize; 2],
    pub reset_original: [usize; 2],
}

/// The model of [`Overlay`].
pub struct OverlayView {
    pub installed: bool,
    pub active: bool,
    pub first_frame_seen: bool,
    pub release_requested: bool,
    pub released: bool,
    pub resources: Resources,
    pub frames: u32,
    pub present: Seq<usize>,
    pub reset: Seq<usize>,
    pub present_original: Seq<usize>,
    pub reset_original: Seq<usize>,
}

impl View for Overlay {
    type V = OverlayView;

    open spec fn view(&self) -> OverlayView {
        OverlayView {
            installed: self.installed,
            active: self.active,
            first_frame_seen: self.first_frame_seen,
            release_requested: self.release_requested,
            released: self.released,
            resources: self.resources,
            frames: self.frames,
            present: self.present@,
            reset: self.reset@,
            present_original: self.present_original@,
            reset_original: self.reset_original@,
        }
    }
}

impl OverlayView {
    pub open spec fn initial() -> OverlayView {
        OverlayView {
            installed: false,
            active: false,
            first_frame_seen: false,
            release_requested: false,
            released: false,
            resources: Resources::none(),
            frames: 0,
            present: seq![0, 0],
            reset: seq![0, 0],
            present_original: seq![0, 0],
            reset_original: seq![0, 0],
        }
    }
}

impl Overlay {
    /// An overlay that is not there yet.
    pub fn new() -> (r: Overlay)
        ensures
            r@ == OverlayView::initial(),
    {
        let r = Overlay {
            installed: false,
            active: false,
            first_frame_seen: false,
            release_requested: false,
            released: false,
            resources: Resources { texture: 0, block: 0 },
            frames: 0,
            present: [0, 0],
            reset: [0, 0],
            present_original: [0, 0],
            reset_original: [0, 0],
        };
        assert(r@.present =~= seq![0, 0]);
        assert(r@.reset =~= seq![0, 0]);
        assert(r@.present_original =~= seq![0, 0]);
        assert(r@.reset_original =~= seq![0, 0]);
        r
    }
}

// ---------------------------------------------------------------------------
// Coming
// ---------------------------------------------------------------------------

/// The addresses that two probes found: none twice, and no empty one.
pub open spec fn distinct(first: Option<usize>, second: Option<usize>) -> Seq<usize> {
    let a = if first is Some && first->0 != 0 {
        seq![first->0]
    } else {
        Seq::empty()
    };
    if second is Some && second->0 != 0 && !a.contains(second->0) {
        a.push(second->0)
    } else {
        a
    }
}

/// What to do next so that the overlay comes.
#[derive(Debug, Clone, Copy, PartialEq, Eq, Structural)]
pub enum InstallStage {
    /// Find the functions of an extended device.
    ProbeEx,
    /// Find those of a plain device.
    Probe,
    /// Lead this implementation of `Present` to the overlay.
    Present { slot: usize, target: usize },
    /// Lead this implementation of `Reset` to the overlay.
    Reset { slot: usize, target: usize },
    /// Load the font.
    Font,
    /// Done, or given up.
    Over(bool),
}

/// What came back.
#[derive(Debug, Clone, Copy, PartialEq, Eq, Structural)]
pub enum InstallReply {
    /// The addresses of `Present` and `Reset`.
    Targets(Option<usize>, Option<usize>),
    /// The way to what the function did before.
    Original(Option<usize>),
    Done,
}

/// The coming of the overlay under way.
#[derive(Debug)]
pub struct Install {
    pub stage: InstallStage,
    /// What the first probe found.
    pub present_ex: Option<usize>,
    pub reset_ex: Option<usize>,
    pub presents: Vec<usize>,
    pub resets: Vec<usize>,
    pub hooked: bool,
}

/// The model of [`Install`].
pub struct InstallView {
    pub stage: InstallStage,
    pub present_ex: Option<usize>,
    pub reset_ex: Option<usize>,
    pub presents: Seq<usize>,
    pub resets: Seq<usize>,
    pub hooked: bool,
}

impl View for Install {
    type V = InstallView;

    open spec fn view(&self) -> InstallView {
        InstallView {
            stage: self.stage,
            present_ex: self.present_ex,
            reset_ex: self.reset_ex,
            presents: self.presents@,
            resets: self.resets@,
            hooked: self.hooked,
        }
    }
}

/// The overlay and its coming.
pub struct Coming {
    pub overlay: OverlayView,
    pub job: InstallView,
}

impl Coming {
    pub open spec fn at(self, stage: InstallStage) -> Coming {
        Coming { job: InstallView { stage, ..self.job }, ..self }
    }

    /// Given up.
    pub open spec fn failed(self) -> Coming {
        Coming { overlay: OverlayView { installed: false, ..self.overlay }, ..self }.at(
            InstallStage::Over(false),
        )
    }

    /// All functions are tried: some `Present` has to lead to the overlay.
    pub open spec fn tried(self) -> Coming {
        if self.job.hooked {
            self.at(InstallStage::Font)
        } else {
            self.failed()
        }
    }

    pub open spec fn to_reset(self, slot: int) -> Coming {
        if slot < self.job.resets.len() {
            self.at(InstallStage::Reset { slot: slot as usize, target: self.job.resets[slot] })
        } else {
            self.tried()
        }
    }

    pub open spec fn to_present(self, slot: int) -> Coming {
        if slot < self.job.presents.len() {
            self.at(InstallStage::Present { slot: slot as usize, target: self.job.presents[slot] })
        } else {
            self.to_reset(0)
        }
    }

    pub open spec fn after(self, reply: InstallReply) -> Coming {
        match (self.job.stage, reply) {
            (InstallStage::ProbeEx, InstallReply::Targets(present, reset)) => Coming {
                job: InstallView { present_ex: present, reset_ex: reset, ..self.job },
                ..self
            }.at(InstallStage::Probe),
            (InstallStage::Probe, InstallReply::Targets(present, reset)) => {
                let known = Coming {
                    job: InstallView {
                        presents: distinct(self.job.present_ex, present),
                        resets: distinct(self.job.reset_ex, reset),
                        ..self.job
                    },
                    ..self
                };
                if known.job.presents.len() == 0 {
                    known.failed()
                } else {
                    known.to_present(0)
                }
            },
            (InstallStage::Present { slot, target }, InstallReply::Original(original)) => {
                match original {
                    Some(address) => Coming {
                        overlay: OverlayView {
                            present: self.overlay.present.update(slot as int, target),
                            present_original: self.overlay.present_original.update(
                                slot as int,
                                address,
                            ),
                            ..self.overlay
                        },
                        job: InstallView { hooked: true, ..self.job },
                    }.to_present(slot + 1),
                    None => self.to_present(slot + 1),
                }
            },
            (InstallStage::Reset { slot, target }, InstallReply::Original(original)) => {
                match original {
                    Some(address) => Coming {
                        overlay: OverlayView {
                            reset: self.overlay.reset.update(slot as int, target),
                            reset_original: self.overlay.reset_original.update(
                                slot as int,
                                address,
                            ),
                            ..self.overlay
                        },
                        ..self
                    }.to_reset(slot + 1),
                    None => self.to_reset(slot + 1),
                }
            },
            (InstallStage::Font, InstallReply::Done) => Coming {
                overlay: OverlayView { active: true, ..self.overlay },
                ..self
            }.at(InstallStage::Over(true)),
            _ => self,
        }
    }

    /// The functions that were found fit their places.
    pub open spec fn wf(self) -> bool {
        &&& self.job.presents.len() <= MAX_HOOKS
        &&& self.job.resets.len() <= MAX_HOOKS
        &&& self.job.stage matches InstallStage::Present { slot, target } ==> slot
            < self.job.presents.len()
        &&& self.job.stage matches InstallStage::Reset { slot, target } ==> slot
            < self.job.resets.len()
    }
}

/// The beginning of a coming.
pub open spec fn install_begun(overlay: OverlayView) -> Coming {
    Coming {
        overlay: OverlayView { installed: true, ..overlay },
        job: InstallView {
            stage: if overlay.installed {
                InstallStage::Over(true)
            } else {
                InstallStage::ProbeEx
            },
            present_ex: None,
            reset_ex: None,
            presents: Seq::empty(),
            resets: Seq::empty(),
            hooked: false,
        },
    }
}

/// Begins to put the overlay on the game. One that is there already stays.
pub fn install(overlay: &mut Overlay) -> (r: Install)
    ensures
        (Coming { overlay: final(overlay)@, job: r@ }) == install_begun(old(overlay)@),
        (Coming { overlay: final(overlay)@, job: r@ }).wf(),
{
    let stage = if overlay.installed {
        InstallStage::Over(true)
    } else {
        InstallStage::ProbeEx
    };
    overlay.installed = true;
    Install {
        stage,
        present_ex: None,
        reset_ex: None,
        presents: Vec::new(),
        resets: Vec::new(),
        hooked: false,
    }
}

fn without_doubles(first: Option<usize>, second: Option<usize>) -> (r: Vec<usize>)
    ensures
        r@ == distinct(first, second),
        r@.len() <= MAX_HOOKS,
{
    let mut found: Vec<usize> = Vec::new();
    if let Some(a) = first {
        if a != 0 {
            found.push(a);
        }
    }
    let ghost a = found@;
    assert(a =~= if first is Some && first->0 != 0 {
        seq![first->0]
    } else {
        Seq::empty()
    });
    if let Some(b) = second {
        if b != 0 && (found.len() == 0 || found[0] != b) {
            assert(!a.contains(b));
            found.push(b);
        } else if b != 0 {
            assert(a[0] == b);
            assert(a.contains(b));
        }
    }
    found
}

impl Install {
    fn end(&mut self, overlay: &mut Overlay)
        ensures
            (Coming { overlay: final(overlay)@, job: final(self)@ }) == (Coming {
                overlay: old(overlay)@,
                job: old(self)@,
            }).tried(),
    {
        if self.hooked {
            self.stage = InstallStage::Font;
        } else {
            overlay.installed = false;
            self.stage = InstallStage::Over(false);
        }
    }

    fn go_to_reset(&mut self, overlay: &mut Overlay, slot: usize)
        requires
            slot <= MAX_HOOKS,
        ensures
            (Coming { overlay: final(overlay)@, job: final(self)@ }) == (Coming {
                overlay: old(overlay)@,
                job: old(self)@,
            }).to_reset(slot as int),
    {
        if slot < self.resets.len() {
            self.stage = InstallStage::Reset { slot, target: self.resets[slot] };
        } else {
            self.end(overlay);
        }
    }

    fn go_to_present(&mut self, overlay: &mut Overlay, slot: usize)
        requires
            slot <= MAX_HOOKS,
        ensures
            (Coming { overlay: final(overlay)@, job: final(self)@ }) == (Coming {
                overlay: old(overlay)@,
                job: old(self)@,
            }).to_present(slot as int),
    {
        if slot < self.presents.len() {
            self.stage = InstallStage::Present { slot, target: self.presents[slot] };
        } else {
            self.go_to_reset(overlay, 0);
        }
    }

    /// Goes on with what came back.
    pub fn tell(&mut self, overlay: &mut Overlay, reply: InstallReply)
        requires
            (Coming { overlay: old(overlay)@, job: old(self)@ }).wf(),
        ensures
            (Coming { overlay: final(overlay)@, job: final(self)@ }) == (Coming {
                overlay: old(overlay)@,
                job: old(self)@,
            }).after(reply),
            (Coming { overlay: final(overlay)@, job: final(self)@ }).wf(),
    {
        match (self.stage, reply) {
            (InstallStage::ProbeEx, InstallReply::Targets(present, reset)) => {
                self.present_ex = present;
                self.reset_ex = reset;
                self.stage = InstallStage::Probe;
            },
            (InstallStage::Probe, InstallReply::Targets(present, reset)) => {
                self.presents = without_doubles(self.present_ex, present);
                self.resets = without_doubles(self.reset_ex, reset);
                if self.presents.len() == 0 {
                    overlay.installed = false;
                    self.stage = InstallStage::Over(false);
                } else {
                    self.go_to_present(overlay, 0);
                }
            },
            (InstallStage::Present { slot, target }, InstallReply::Original(original)) => {
                if let Some(address) = original {
                    overlay.present[slot] = target;
                    overlay.present_original[slot] = address;
                    self.hooked = true;
                }
                self.go_to_present(overlay, slot + 1);
            },
            (InstallStage::Reset { slot, target }, InstallReply::Original(original)) => {
                if let Some(address) = original {
                    overlay.reset[slot] = target;
                    overlay.reset_original[slot] = address;
                }
                self.go_to_reset(overlay, slot + 1);
            },
            (InstallStage::Font, InstallReply::Done) => {
                overlay.active = true;
                self.stage = InstallStage::Over(true);
            },
            _ => {},
        }
    }
}

// ---------------------------------------------------------------------------
// Frames
// ---------------------------------------------------------------------------

/// The overlay without its resources.
pub open spec fn emptied(o: OverlayView) -> OverlayView {
    OverlayView { resources: Resources::none(), ..o }
}

/// Takes the resources out of the overlay, to be given back.
pub fn release_resources(overlay: &mut Overlay) -> (r: Resources)
    ensures
        r == old(overlay)@.resources,
        final(overlay)@ == emptied(old(overlay)@),
{
    let resources = overlay.resources;
    overlay.resources = Resources { texture: 0, block: 0 };
    resources
}

/// What to do when the game presents a frame, in this order.
#[derive(Debug, Clone, Copy, PartialEq, Eq, Structural)]
pub struct FramePlan {
    /// Resources to be given back.
    pub release: Resources,
    /// This is the first frame that is seen.
    pub first: bool,
    /// Whether to draw the panel.
    pub draw: bool,
    /// What the function did before, 0 where that is not known and nothing is called.
    pub original: usize,
}

/// The overlay after a frame came by.
pub open spec fn frame_seen(o: OverlayView) -> OverlayView {
    let o = if o.release_requested {
        OverlayView { release_requested: false, released: true, ..emptied(o) }
    } else {
        o
    };
    if o.active {
        OverlayView {
            frames: crate::input::counted(o.frames),
            first_frame_seen: true,
            ..o
        }
    } else {
        o
    }
}

/// What is done when a frame comes by.
pub open spec fn frame_plan(o: OverlayView, slot: int, show: bool) -> FramePlan {
    FramePlan {
        release: if o.release_requested {
            o.resources
        } else {
            Resources::none()
        },
        first: o.active && !o.first_frame_seen,
        draw: o.active && show,
        original: o.present_original[slot],
    }
}

/// The game presents a frame by the implementation `slot`; `show` says whether the
/// player wants to see the panel.
pub fn present(overlay: &mut Overlay, slot: usize, show: bool) -> (r: FramePlan)
    requires
        slot < MAX_HOOKS,
    ensures
        final(overlay)@ == frame_seen(old(overlay)@),
        r == frame_plan(old(overlay)@, slot as int, show),
{
    let mut release = Resources { texture: 0, block: 0 };
    if overlay.release_requested {
        overlay.release_requested = false;
        release = release_resources(overlay);
        overlay.released = true;
    }
    let mut first = false;
    let mut draw = false;
    if overlay.active {
        overlay.frames = crate::input::count(overlay.frames);
        first = !overlay.first_frame_seen;
        overlay.first_frame_seen = true;
        draw = show;
    }
    FramePlan { release, first, draw, original: overlay.present_original[slot] }
}

/// The overlay when the device is reset, what is given back, and what is called then.
pub open spec fn reset_plan(o: OverlayView, slot: int) -> (OverlayView, Resources, usize) {
    (emptied(o), o.resources, o.reset_original[slot])
}

/// The game resets its device by the implementation `slot`: the resources have to be
/// given back before, and the function that did so before is called then.
pub fn reset(overlay: &mut Overlay, slot: usize) -> (r: (Resources, usize))
    requires
        slot < MAX_HOOKS,
    ensures
        final(overlay)@ == emptied(old(overlay)@),
        r.0 == old(overlay)@.resources,
        r.1 == old(overlay)@.reset_original[slot as int],
        (final(overlay)@, r.0, r.1) == reset_plan(old(overlay)@, slot as int),
{
    let resources = release_resources(overlay);
    (resources, overlay.reset_original[slot])
}

/// What is needed before the panel can be drawn.
#[derive(Debug, Clone, Copy, PartialEq, Eq, Structural)]
pub enum Need {
    /// Nothing.
    Ready,
    /// Give back what is left of a pair, and make a new texture and a new block.
    Make(Resources),
    /// Give back what is left of a pair; without a font there is nothing to draw.
    Drop(Resources),
}

/// What becomes of the resources before a frame is drawn, and what is needed.
pub open spec fn looked_after(o: OverlayView, has_font: bool) -> (OverlayView, Need) {
    if o.resources.texture != 0 && o.resources.block != 0 {
        (o, Need::Ready)
    } else if has_font {
        (emptied(o), Need::Make(o.resources))
    } else {
        (emptied(o), Need::Drop(o.resources))
    }
}

/// The overlay with a new pair, where it is a whole one; and whether it is.
pub open spec fn with_pair(
    o: OverlayView,
    texture: Option<usize>,
    block: Option<usize>,
) -> (OverlayView, bool) {
    match (texture, block) {
        (Some(t), Some(b)) => if t != 0 && b != 0 {
            (OverlayView { resources: Resources { texture: t, block: b }, ..o }, true)
        } else {
            (o, false)
        },
        _ => (o, false),
    }
}

/// Looks after the resources. Half a pair would stay for good and keep the device from
/// its reset, so it is given back.
pub fn ensure_resources(overlay: &mut Overlay, has_font: bool) -> (r: Need)
    ensures
        ({
            let had = old(overlay)@.resources;
            if had.texture != 0 && had.block != 0 {
                r == Need::Ready && final(overlay)@ == old(overlay)@
            } else {
                &&& final(overlay)@ == emptied(old(overlay)@)
                &&& r == if has_font {
                    Need::Make(had)
                } else {
                    Need::Drop(had)
                }
            }
        }),
        (final(overlay)@, r) == looked_after(old(overlay)@, has_font),
{
    if overlay.resources.texture != 0 && overlay.resources.block != 0 {
        return Need::Ready;
    }
    let left = release_resources(overlay);
    if has_font {
        Need::Make(left)
    } else {
        Need::Drop(left)
    }
}

/// Keeps a new pair; only both together are kept, and 0 is none.
pub fn keep_resources(overlay: &mut Overlay, texture: Option<usize>, block: Option<usize>) -> (r:
    bool)
    ensures
        r == (texture is Some && texture->0 != 0 && block is Some && block->0 != 0),
        final(overlay)@ == if r {
            OverlayView {
                resources: Resources { texture: texture->0, block: block->0 },
                ..old(overlay)@
            }
        } else {
            old(overlay)@
        },
        (final(overlay)@, r) == with_pair(old(overlay)@, texture, block),
{
    match (texture, block) {
        (Some(texture), Some(block)) => {
            let whole: bool = texture != 0 && block != 0;
            if whole {
                overlay.resources = Resources { texture, block };
            }
            whole
        },
        _ => false,
    }
}

/// What is done on the device to draw the panel, once a scene is begun.
#[derive(Debug, Clone, Copy, PartialEq, Eq, Structural)]
pub enum DeviceCall {
    /// Keep the states that the game set.
    Capture,
    /// Set the states of the panel.
    States,
    NoTexture,
    /// Colours as they are.
    Plain,
    DrawAreas,
    FontTexture,
    /// Colours times the texture.
    Modulate,
    DrawLetters,
    /// Give the game its states back.
    Apply,
    EndScene,
}

/// The calls on the device: the areas first, then the letters over them. The texture is
/// taken off at the end, or the game would draw with it.
pub open spec fn device_calls(areas: bool, letters: bool) -> Seq<DeviceCall> {
    let begun = seq![DeviceCall::Capture, DeviceCall::States];
    let filled = if areas {
        begun + seq![DeviceCall::NoTexture, DeviceCall::Plain, DeviceCall::DrawAreas]
    } else {
        begun
    };
    let written = if letters {
        filled + seq![DeviceCall::FontTexture, DeviceCall::Modulate, DeviceCall::DrawLetters]
    } else {
        filled
    };
    written + seq![DeviceCall::NoTexture, DeviceCall::Apply, DeviceCall::EndScene]
}

/// The calls on the device that draw the panel; `areas` and `letters` say what there is
/// to draw.
pub fn draw(areas: bool, letters: bool) -> (r: Vec<DeviceCall>)
    ensures
        r@ == device_calls(areas, letters),
{
    let mut calls: Vec<DeviceCall> = Vec::new();
    calls.push(DeviceCall::Capture);
    calls.push(DeviceCall::States);
    if areas {
        calls.push(DeviceCall::NoTexture);
        calls.push(DeviceCall::Plain);
        calls.push(DeviceCall::DrawAreas);
    }
    if letters {
        calls.push(DeviceCall::FontTexture);
        calls.push(DeviceCall::Modulate);
        calls.push(DeviceCall::DrawLetters);
    }
    calls.push(DeviceCall::NoTexture);
    calls.push(DeviceCall::Apply);
    calls.push(DeviceCall::EndScene);
    assert(calls@ =~= device_calls(areas, letters));
    calls
}

/// A corner of an area.
#[derive(Debug, Clone, Copy, PartialEq, Eq, Structural)]
pub enum Corner {
    TopLeft,
    TopRight,
    BottomRight,
    BottomLeft,
}

/// The corners of the two triangles that make up an area.
pub fn quad() -> (r: [Corner; 6])
    ensures
        r@ == seq![
            Corner::TopLeft,
            Corner::TopRight,
            Corner::BottomRight,
            Corner::TopLeft,
            Corner::BottomRight,
            Corner::BottomLeft,
        ],
{
    let r = [
        Corner::TopLeft,
        Corner::TopRight,
        Corner::BottomRight,
        Corner::TopLeft,
        Corner::BottomRight,
        Corner::BottomLeft,
    ];
    assert(r@ =~= seq![
        Corner::TopLeft,
        Corner::TopRight,
        Corner::BottomRight,
        Corner::TopLeft,
        Corner::BottomRight,
        Corner::BottomLeft,
    ]);
    r
}

// ---------------------------------------------------------------------------
// Leaving
// ---------------------------------------------------------------------------

/// What to do next so that the overlay leaves.
#[derive(Debug, Clone, Copy, PartialEq, Eq, Structural)]
pub enum LeaveStage {
    /// Sleep a little and look again whether the thread that draws has given the
    /// resources back; wait until then.
    Wait { until: u64 },
    /// Give these resources back.
    Release(Resources),
    /// Take the overlay off this function, one of four.
    Unhook { number: usize, target: usize },
    /// Done.
    Over,
}

/// The function of that number: the two of the first implementations come first.
pub open spec fn target(o: OverlayView, number: int) -> usize {
    if number % 2 == 0 {
        o.present[number / 2]
    } else {
        o.reset[number / 2]
    }
}

/// The overlay without the function of that number.
pub open spec fn untargeted(o: OverlayView, number: int) -> OverlayView {
    if number % 2 == 0 {
        OverlayView { present: o.present.update(number / 2, 0), ..o }
    } else {
        OverlayView { reset: o.reset.update(number / 2, 0), ..o }
    }
}

/// The overlay after the functions from that number on, as far as they are none.
pub open spec fn unhook_state(o: OverlayView, number: int) -> OverlayView
    decreases 4 - number,
{
    if number >= 4 {
        o
    } else if target(o, number) != 0 {
        untargeted(o, number)
    } else {
        unhook_state(o, number + 1)
    }
}

/// The next function from that number on off which the overlay has to be taken.
pub open spec fn unhook_stage(o: OverlayView, number: int) -> LeaveStage
    decreases 4 - number,
{
    if number >= 4 {
        LeaveStage::Over
    } else if target(o, number) != 0 {
        LeaveStage::Unhook { number: number as usize, target: target(o, number) }
    } else {
        unhook_stage(o, number + 1)
    }
}

/// The overlay when it begins to leave.
pub open spec fn leave_begun(o: OverlayView, now: u64) -> (OverlayView, LeaveStage) {
    if !o.installed {
        (o, LeaveStage::Over)
    } else {
        let quiet = OverlayView { installed: false, active: false, ..o };
        if o.resources.some() {
            (
                OverlayView { released: false, release_requested: true, ..quiet },
                LeaveStage::Wait { until: (now + RELEASE_WAIT) as u64 },
            )
        } else {
            (unhook_state(quiet, 0), unhook_stage(quiet, 0))
        }
    }
}

/// The overlay when the last thing was done.
pub open spec fn left(o: OverlayView, stage: LeaveStage, now: u64) -> (OverlayView, LeaveStage) {
    match stage {
        LeaveStage::Wait { until } => if o.released {
            (unhook_state(o, 0), unhook_stage(o, 0))
        } else if now < until {
            (o, stage)
        } else {
            (emptied(o), LeaveStage::Release(o.resources))
        },
        LeaveStage::Release(_) => (unhook_state(o, 0), unhook_stage(o, 0)),
        LeaveStage::Unhook { number, target } => (
            unhook_state(o, number + 1),
            unhook_stage(o, number + 1),
        ),
        LeaveStage::Over => (o, stage),
    }
}

fn unhook(overlay: &mut Overlay, number: usize) -> (r: LeaveStage)
    requires
        number <= 4,
    ensures
        final(overlay)@ == unhook_state(old(overlay)@, number as int),
        r == unhook_stage(old(overlay)@, number as int),
{
    let mut n: usize = number;
    while n < 4
        invariant
            n <= 4,
            *overlay == *old(overlay),
            unhook_state(old(overlay)@, n as int) == unhook_state(
                old(overlay)@,
                number as int,
            ),
            unhook_stage(old(overlay)@, n as int) == unhook_stage(
                old(overlay)@,
                number as int,
            ),
        decreases 4 - n,
    {
        let slot: usize = n / 2;
        if n % 2 == 0 {
            let target: usize = overlay.present[slot];
            if target != 0 {
                overlay.present[slot] = 0;
                return LeaveStage::Unhook { number: n, target };
            }
        } else {
            let target: usize = overlay.reset[slot];
            if target != 0 {
                overlay.reset[slot] = 0;
                return LeaveStage::Unhook { number: n, target };
            }
        }
        n = n + 1;
    }
    LeaveStage::Over
}

/// Begins to take the overlay off the game. It stops drawing first, so that no frame
/// makes its resources anew; then the thread that draws gives them back; only then is
/// it taken off the functions.
pub fn uninstall(overlay: &mut Overlay, now: u64) -> (r: LeaveStage)
    requires
        now + RELEASE_WAIT <= u64::MAX,
    ensures
        (final(overlay)@, r) == leave_begun(old(overlay)@, now),
{
    if !overlay.installed {
        return LeaveStage::Over;
    }
    overlay.installed = false;
    overlay.active = false;
    if overlay.resources.texture != 0 || overlay.resources.block != 0 {
        overlay.released = false;
        overlay.release_requested = true;
        return LeaveStage::Wait { until: now + RELEASE_WAIT };
    }
    unhook(overlay, 0)
}

/// Goes on with the leaving.
pub fn uninstall_further(overlay: &mut Overlay, stage: LeaveStage, now: u64) -> (r: LeaveStage)
    requires
        stage matches LeaveStage::Unhook { number, target } ==> number < 4,
    ensures
        (final(overlay)@, r) == left(old(overlay)@, stage, now),
{
    match stage {
        LeaveStage::Wait { until } => if overlay.released {
            unhook(overlay, 0)
        } else if now < until {
            stage
        } else {
            LeaveStage::Release(release_resources(overlay))
        },
        LeaveStage::Release(_) => unhook(overlay, 0),
        LeaveStage::Unhook { number, .. } => unhook(overlay, number + 1),
        LeaveStage::Over => stage,
    }
}

/// The name of the module that an address belongs to.
pub open spec fn module_name(in_module: bool, path: Option<Seq<char>>) -> Seq<char> {
    if !in_module {
        "вне модулей (куча)"@
    } else {
        match path {
            Some(p) => crate::text::last_part(p),
            None => "неизвестный модуль"@,
        }
    }
}

/// The name of the module that an address belongs to: `in_module` says whether it
/// belongs to one, and `path` is its file where that is known.
pub fn module_of(in_module: bool, path: Option<&str>) -> (r: String)
    ensures
        r@ == if !in_module {
            "вне модулей (куча)"@
        } else {
            match path {
                Some(p) => crate::text::last_part(p@),
                None => "неизвестный модуль"@,
            }
        },
        r@ == module_name(
            in_module,
            match path {
                Some(p) => Some(p@),
                None => None,
            },
        ),
{
    if !in_module {
        return text::owned("вне модулей (куча)");
    }
    match path {
        Some(p) => text::file_name(p),
        None => text::owned("неизвестный модуль"),
    }
}

} // verus!
