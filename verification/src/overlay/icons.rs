//! The atlas of the panel: the icons of the items and the pictures of the interface.
//!
//! The pictures are close in size, so they are laid out on shelves, from left to right
//! and from the top down, in the order in which they were loaded.

use std::collections::HashMap;

use vstd::prelude::*;

verus! {

/// The width of the atlas; its height follows from what is laid out.
pub const ATLAS_WIDTH: u32 = 1024;

/// The space between two pictures, and between a picture and the edge.
pub const GAP: u32 = 2;

/// The size of an icon that fits a cell of the grid.
pub const MAX_ICON: u32 = 48;

// The numbers of items are positive, so the pictures of the interface have negative
// ones in the same atlas.
/// A white square, with which plain areas are filled.
pub const WHITE: i32 = -1;

pub const CURSOR: i32 = -2;

pub const PANEL: i32 = -3;

pub const PANEL_BORDER: i32 = -4;

pub const INNER_PANEL: i32 = -5;

pub const SLOT: i32 = -6;

pub const BUTTON: i32 = -7;

pub const TOGGLE_OFF: i32 = -8;

pub const TOGGLE_ON: i32 = -9;

pub const BAR_TRACK: i32 = -10;

pub const BAR_HANDLE: i32 = -11;

pub const SLOT_ALLOW: i32 = -12;

pub const SLOT_DENY: i32 = -13;

pub const SLOT_HOVER: i32 = -14;

/// A part of a picture.
#[derive(Debug, Clone, Copy, PartialEq, Eq, Structural)]
pub struct IconRect {
    pub x: u32,
    pub y: u32,
    pub w: u32,
    pub h: u32,
}

/// One point among the pixels of a picture of some width.
pub open spec fn point(pixels: Seq<u32>, width: int, r: int, c: int) -> u32 {
    pixels[r * width + c]
}

/// A picture, row by row from the top.
#[derive(Debug)]
pub struct Image {
    pub width: u32,
    pub height: u32,
    pub pixels: Vec<u32>,
}

impl Image {
    /// Whether there is a pixel for each point.
    pub open spec fn wf(self) -> bool {
        self.pixels@.len() == self.width * self.height
    }

    /// One row.
    pub open spec fn row(self, r: int) -> Seq<u32> {
        self.pixels@.subrange(r * self.width, r * self.width + self.width)
    }

    /// One point.
    pub open spec fn at(self, r: int, c: int) -> u32 {
        point(self.pixels@, self.width as int, r, c)
    }
}

/// A picture of the interface: its number, its file, and what is cut out of it.
#[derive(Debug, Clone, Copy)]
pub struct Asset {
    pub id: i32,
    pub name: &'static str,
    pub cut: Option<IconRect>,
}

/// The model of [`Asset`].
pub struct AssetView {
    pub id: i32,
    pub name: Seq<char>,
    pub cut: Option<IconRect>,
}

impl View for Asset {
    type V = AssetView;

    open spec fn view(&self) -> AssetView {
        AssetView { id: self.id, name: self.name@, cut: self.cut }
    }
}

/// The pictures of the interface. The switch stands twice in one file: the ring that
/// is off at the left, the disc that is on at the right.
pub open spec fn asset_list() -> Seq<AssetView> {
    seq![
        AssetView { id: CURSOR, name: "UI/Cursor_0"@, cut: None },
        AssetView { id: PANEL, name: "UI/PanelBackground"@, cut: None },
        AssetView { id: PANEL_BORDER, name: "UI/PanelBorder"@, cut: None },
        AssetView { id: INNER_PANEL, name: "UI/InnerPanelBackground"@, cut: None },
        AssetView { id: SLOT, name: "Inventory_Back"@, cut: None },
        AssetView { id: SLOT_ALLOW, name: "Inventory_Back3"@, cut: None },
        AssetView { id: SLOT_DENY, name: "Inventory_Back5"@, cut: None },
        AssetView { id: SLOT_HOVER, name: "Inventory_Back13"@, cut: None },
        AssetView { id: BUTTON, name: "UI/ButtonBacking"@, cut: None },
        AssetView {
            id: TOGGLE_OFF,
            name: "UI/Settings_Toggle"@,
            cut: Some(IconRect { x: 0, y: 0, w: 14, h: 14 }),
        },
        AssetView {
            id: TOGGLE_ON,
            name: "UI/Settings_Toggle"@,
            cut: Some(IconRect { x: 16, y: 0, w: 14, h: 14 }),
        },
        AssetView { id: BAR_TRACK, name: "UI/Scrollbar"@, cut: None },
        AssetView { id: BAR_HANDLE, name: "UI/ScrollbarInner"@, cut: None },
    ]
}

/// The pictures of the interface, in the order in which they are loaded.
pub fn ui_assets() -> (r: Vec<Asset>)
    ensures
        r@.map_values(|a: Asset| a@) == asset_list(),
{
    let r = vec![
        Asset { id: CURSOR, name: "UI/Cursor_0", cut: None },
        Asset { id: PANEL, name: "UI/PanelBackground", cut: None },
        Asset { id: PANEL_BORDER, name: "UI/PanelBorder", cut: None },
        Asset { id: INNER_PANEL, name: "UI/InnerPanelBackground", cut: None },
        Asset { id: SLOT, name: "Inventory_Back", cut: None },
        Asset { id: SLOT_ALLOW, name: "Inventory_Back3", cut: None },
        Asset { id: SLOT_DENY, name: "Inventory_Back5", cut: None },
        Asset { id: SLOT_HOVER, name: "Inventory_Back13", cut: None },
        Asset { id: BUTTON, name: "UI/ButtonBacking", cut: None },
        Asset {
            id: TOGGLE_OFF,
            name: "UI/Settings_Toggle",
            cut: Some(IconRect { x: 0, y: 0, w: 14, h: 14 }),
        },
        Asset {
            id: TOGGLE_ON,
            name: "UI/Settings_Toggle",
            cut: Some(IconRect { x: 16, y: 0, w: 14, h: 14 }),
        },
        Asset { id: BAR_TRACK, name: "UI/Scrollbar", cut: None },
        Asset { id: BAR_HANDLE, name: "UI/ScrollbarInner", cut: None },
    ];
    assert(r@.map_values(|a: Asset| a@) =~= asset_list());
    r
}

// ---------------------------------------------------------------------------
// Pictures
// ---------------------------------------------------------------------------

/// Whether a part that is not empty lies within a picture.
pub open spec fn lies_in(image: Image, rect: IconRect) -> bool {
    &&& rect.w > 0 && rect.h > 0
    &&& rect.x + rect.w <= image.width
    &&& rect.y + rect.h <= image.height
}

proof fn lemma_row_inside(image: Image, r: int)
    requires
        image.wf(),
        0 <= r < image.height,
    ensures
        0 <= r * image.width,
        r * image.width + image.width <= image.pixels@.len(),
{
    assert(r * image.width + image.width <= image.width * image.height && 0 <= r * image.width)
        by (nonlinear_arith)
        requires
            0 <= r < image.height,
            0 <= image.width,
    ;
}

/// Cuts a part out of a picture; nothing where the part does not lie within it.
pub fn crop(image: &Image, rect: IconRect) -> (r: Option<Image>)
    requires
        image.wf(),
    ensures
        match r {
            Some(part) => {
                &&& lies_in(*image, rect)
                &&& part.wf()
                &&& part.width == rect.w
                &&& part.height == rect.h
                &&& forall|row: int, col: int|
                    0 <= row < rect.h && 0 <= col < rect.w ==> #[trigger] part.at(row, col)
                        == image.at(rect.y + row, rect.x + col)
            },
            None => !lies_in(*image, rect),
        },
{
    if rect.w == 0 || rect.h == 0 || rect.x as u64 + rect.w as u64 > image.width as u64
        || rect.y as u64 + rect.h as u64 > image.height as u64 {
        return None;
    }
    let total: usize = image.pixels.len();
    let mut pixels: Vec<u32> = Vec::new();
    let mut row: u32 = 0;
    while row < rect.h
        invariant
            row <= rect.h,
            image.wf(),
            total == image.pixels@.len(),
            lies_in(*image, rect),
            pixels@.len() == row * rect.w,
            forall|i: int, j: int|
                0 <= i < row && 0 <= j < rect.w ==> #[trigger] point(
                    pixels@,
                    rect.w as int,
                    i,
                    j,
                ) == image.at(rect.y + i, rect.x + j),
        decreases rect.h - row,
    {
        proof {
            lemma_row_inside(*image, (rect.y + row) as int);
        }
        let start: usize = (rect.y + row) as usize * image.width as usize + rect.x as usize;
        let mut col: u32 = 0;
        let ghost done = pixels@;
        while col < rect.w
            invariant
                row < rect.h,
                col <= rect.w,
                image.wf(),
                lies_in(*image, rect),
                start == (rect.y + row) * image.width + rect.x,
                (rect.y + row) * image.width + image.width <= image.pixels@.len() == total,
                done.len() == row * rect.w,
                pixels@.len() == done.len() + col,
                forall|k: int| 0 <= k < done.len() ==> pixels@[k] == done[k],
                forall|j: int|
                    0 <= j < col ==> #[trigger] point(pixels@, rect.w as int, row as int, j)
                        == image.at(rect.y + row, rect.x + j),
            decreases rect.w - col,
        {
            let ghost prior = pixels@;
            pixels.push(image.pixels[start + col as usize]);
            assert forall|j: int| 0 <= j < col + 1 implies #[trigger] point(
                pixels@,
                rect.w as int,
                row as int,
                j,
            ) == image.at(rect.y + row, rect.x + j) by {
                if j < col {
                    assert(point(prior, rect.w as int, row as int, j) == image.at(
                        rect.y + row,
                        rect.x + j,
                    ));
                }
            }
            col = col + 1;
        }
        assert forall|i: int, j: int| 0 <= i < row + 1 && 0 <= j < rect.w implies #[trigger] point(
            pixels@,
            rect.w as int,
            i,
            j,
        ) == image.at(rect.y + i, rect.x + j) by {
            if i < row {
                assert(0 <= i * rect.w + j < row * rect.w) by (nonlinear_arith)
                    requires
                        0 <= i < row,
                        0 <= j < rect.w,
                ;
                assert(point(done, rect.w as int, i, j) == image.at(rect.y + i, rect.x + j));
            }
        }
        assert(row * rect.w + rect.w == (row + 1) * rect.w) by (nonlinear_arith);
        row = row + 1;
    }
    assert(pixels@.len() == rect.w * rect.h) by (nonlinear_arith)
        requires
            pixels@.len() == row * rect.w,
            row == rect.h,
    ;
    let part = Image { width: rect.w, height: rect.h, pixels };
    Some(part)
}

/// An opaque white square. It is larger than a point so that its neighbours in the
/// atlas stay away from its middle however it is scaled.
pub fn white_block() -> (r: Image)
    ensures
        r.wf(),
        r.width == 4,
        r.height == 4,
        forall|k: int| 0 <= k < 16 ==> r.pixels@[k] == 0xFFFF_FFFF,
{
    Image { width: 4, height: 4, pixels: vec![0xFFFF_FFFF; 16] }
}

// ---------------------------------------------------------------------------
// What was loaded
// ---------------------------------------------------------------------------

/// The pictures for the atlas with their numbers, in the order of loading.
pub struct Loaded {
    pub images: Vec<(i32, Image)>,
}

/// Whether the icon of an item is taken: it is neither empty nor far too wide.
pub open spec fn usable(image: Image) -> bool {
    image.width != 0 && image.height != 0 && image.width <= MAX_ICON * 4
}

impl Loaded {
    /// Whether every picture is one.
    pub open spec fn wf(self) -> bool {
        forall|i: int| 0 <= i < self.images@.len() ==> (#[trigger] self.images@[i]).1.wf()
    }

    /// Begins with the white square.
    pub fn new() -> (r: Loaded)
        ensures
            r.wf(),
            r.images@.len() == 1,
            r.images@[0].0 == WHITE,
            r.images@[0].1.width == 4,
            r.images@[0].1.height == 4,
            forall|k: int| 0 <= k < 16 ==> r.images@[0].1.pixels@[k] == 0xFFFF_FFFF,
    {
        let mut images: Vec<(i32, Image)> = Vec::new();
        images.push((WHITE, white_block()));
        Loaded { images }
    }

    /// Takes a picture of the interface in, cut where it has to be. A picture that was
    /// not read, or that is too small for its cut, is left out; the result says so.
    pub fn add_asset(&mut self, asset: &Asset, image: Option<Image>) -> (r: bool)
        requires
            old(self).wf(),
            image is Some ==> image->0.wf(),
        ensures
            final(self).wf(),
            r == (image is Some && (asset.cut is Some ==> lies_in(image->0, asset.cut->0))),
            !r ==> final(self).images@ == old(self).images@,
            r ==> {
                &&& final(self).images@.len() == old(self).images@.len() + 1
                &&& final(self).images@.drop_last() == old(self).images@
                &&& final(self).images@.last().0 == asset.id
                &&& asset.cut is None ==> final(self).images@.last().1 == image->0
                &&& asset.cut matches Some(rect) ==> {
                    let part = final(self).images@.last().1;
                    &&& part.width == rect.w
                    &&& part.height == rect.h
                    &&& forall|row: int, col: int|
                        0 <= row < rect.h && 0 <= col < rect.w ==> #[trigger] part.at(row, col)
                            == image->0.at(rect.y + row, rect.x + col)
                }
            },
    {
        let image = match image {
            Some(image) => image,
            None => {
                return false;
            },
        };
        let picture = match asset.cut {
            Some(rect) => match crop(&image, rect) {
                Some(part) => part,
                None => {
                    return false;
                },
            },
            None => image,
        };
        self.images.push((asset.id, picture));
        assert(self.images@.drop_last() =~= old(self).images@);
        true
    }

    /// Takes the icon of an item in. One that was not read, or is not usable, is left
    /// out.
    pub fn add_item(&mut self, id: i32, image: Option<Image>)
        requires
            old(self).wf(),
            image is Some ==> image->0.wf(),
        ensures
            final(self).wf(),
            final(self).images@ == if image is Some && usable(image->0) {
                old(self).images@.push((id, image->0))
            } else {
                old(self).images@
            },
    {
        if let Some(image) = image {
            if image.width == 0 || image.height == 0 || image.width > MAX_ICON * 4 {
                return ;
            }
            self.images.push((id, image));
        }
    }
}

// ---------------------------------------------------------------------------
// Laying out
// ---------------------------------------------------------------------------

/// Where the next picture goes.
pub struct Pen {
    pub x: int,
    pub y: int,
    /// The height of the shelf so far.
    pub shelf: int,
}

impl Pen {
    /// The pen before a picture of some width: on a new shelf where this one is full.
    pub open spec fn before(self, w: int) -> Pen {
        if self.x + w + GAP > ATLAS_WIDTH {
            Pen { x: GAP as int, y: self.y + self.shelf + GAP, shelf: 0 }
        } else {
            self
        }
    }

    /// The pen behind a picture.
    pub open spec fn behind(self, w: int, h: int) -> Pen {
        Pen {
            x: self.x + w + GAP,
            y: self.y,
            shelf: if h > self.shelf {
                h
            } else {
                self.shelf
            },
        }
    }

    /// How high the atlas is so far.
    pub open spec fn top(self) -> int {
        self.y + self.shelf + GAP
    }
}

/// The pen after the first `n` pictures.
pub open spec fn pen_at(images: Seq<(i32, Image)>, n: int) -> Pen
    decreases n, 0int,
{
    if n <= 0 {
        Pen { x: GAP as int, y: GAP as int, shelf: 0 }
    } else {
        let image = images[n - 1].1;
        spot(images, n - 1).behind(image.width as int, image.height as int)
    }
}

/// The pen at which the picture `i` is placed.
pub open spec fn spot(images: Seq<(i32, Image)>, i: int) -> Pen
    decreases i, 1int,
{
    if i < 0 {
        Pen { x: GAP as int, y: GAP as int, shelf: 0 }
    } else {
        pen_at(images, i).before(images[i].1.width as int)
    }
}

/// The height of the atlas.
pub open spec fn height_of(images: Seq<(i32, Image)>) -> int {
    pen_at(images, images.len() as int).top()
}

/// The highest atlas whose points can be counted.
pub const MAX_HEIGHT: u32 = 4_194_303;

/// Where the last row of the picture `i` ends on the canvas. One that is wider than the
/// atlas runs on into the rows below.
pub open spec fn end_of(images: Seq<(i32, Image)>, i: int) -> int {
    (spot(images, i).y + images[i].1.height - 1) * ATLAS_WIDTH + spot(images, i).x
        + images[i].1.width
}

/// Whether the pen can be counted on past the picture `i`, which has its pixels.
pub open spec fn placeable(images: Seq<(i32, Image)>, i: int) -> bool {
    images[i].1.wf() && pen_at(images, i).x + images[i].1.width + GAP <= u32::MAX
}

/// Whether the picture `i` ends within the canvas.
pub open spec fn ends_inside(images: Seq<(i32, Image)>, i: int) -> bool {
    images[i].1.height > 0 ==> end_of(images, i) <= ATLAS_WIDTH * height_of(images)
}

/// Whether the pictures can be laid out: each has its pixels, the pen and the points of
/// the atlas can be counted, and the last row of every picture, begun at its spot, ends
/// within the canvas.
pub open spec fn packable(images: Seq<(i32, Image)>) -> bool {
    &&& forall|i: int| 0 <= i < images.len() ==> #[trigger] placeable(images, i)
    &&& height_of(images) <= MAX_HEIGHT
    &&& forall|i: int| 0 <= i < images.len() ==> #[trigger] ends_inside(images, i)
}

proof fn lemma_top_grows(images: Seq<(i32, Image)>, n: int, m: int)
    requires
        0 <= n <= m <= images.len(),
    ensures
        GAP <= pen_at(images, n).y,
        0 <= pen_at(images, n).shelf,
        GAP <= pen_at(images, n).x,
        pen_at(images, n).top() <= pen_at(images, m).top(),
    decreases m,
{
    reveal_with_fuel(pen_at, 2);
    reveal_with_fuel(spot, 2);
    if n < m {
        lemma_top_grows(images, n, m - 1);
        lemma_top_grows(images, m - 1, m - 1);
    } else if n > 0 {
        lemma_top_grows(images, n - 1, n - 1);
    }
}

/// Where a picture stands once it is placed.
pub(crate) proof fn lemma_spot(images: Seq<(i32, Image)>, i: int)
    requires
        0 <= i < images.len(),
    ensures
        GAP <= spot(images, i).x,
        GAP <= spot(images, i).y,
        0 <= spot(images, i).shelf,
        spot(images, i).y + images[i].1.height + GAP <= height_of(images),
        spot(images, i).top() <= height_of(images),
        spot(images, i).x + images[i].1.width + GAP <= ATLAS_WIDTH || spot(images, i).x == GAP,
        pen_at(images, i + 1) == spot(images, i).behind(
            images[i].1.width as int,
            images[i].1.height as int,
        ),
{
    lemma_top_grows(images, i, i);
    lemma_top_grows(images, i + 1, images.len() as int);
}

/// The place of the picture `i`.
pub open spec fn rect_of(images: Seq<(i32, Image)>, i: int) -> IconRect {
    IconRect {
        x: spot(images, i).x as u32,
        y: spot(images, i).y as u32,
        w: images[i].1.width,
        h: images[i].1.height,
    }
}

/// The places by number, of the first `n` pictures; of two with the same number the
/// later one is found.
pub open spec fn places(images: Seq<(i32, Image)>, n: int) -> Map<i32, IconRect>
    decreases n,
{
    if n <= 0 {
        Map::empty()
    } else {
        places(images, n - 1).insert(images[n - 1].0, rect_of(images, n - 1))
    }
}

/// A canvas with a row of points put in at `at`.
pub open spec fn with_row(canvas: Seq<u32>, at: int, row: Seq<u32>) -> Seq<u32> {
    Seq::new(
        canvas.len(),
        |k: int|
            if at <= k < at + row.len() {
                row[k - at]
            } else {
                canvas[k]
            },
    )
}

/// A canvas with the first `rows` rows of a picture drawn at (`x`, `y`).
pub open spec fn drawn(canvas: Seq<u32>, image: Image, x: int, y: int, rows: int) -> Seq<u32>
    decreases rows,
{
    if rows <= 0 {
        canvas
    } else {
        with_row(
            drawn(canvas, image, x, y, rows - 1),
            (y + rows - 1) * ATLAS_WIDTH + x,
            image.row(rows - 1),
        )
    }
}

/// The canvas with the first `n` pictures on it; where there is none it is
/// transparent.
pub open spec fn canvas_of(images: Seq<(i32, Image)>, n: int) -> Seq<u32>
    decreases n,
{
    if n <= 0 {
        Seq::new((ATLAS_WIDTH * height_of(images)) as nat, |k: int| 0u32)
    } else {
        let at = spot(images, n - 1);
        drawn(
            canvas_of(images, n - 1),
            images[n - 1].1,
            at.x,
            at.y,
            images[n - 1].1.height as int,
        )
    }
}

/// All pictures in one.
pub struct IconAtlas {
    pub width: u32,
    pub height: u32,
    pub pixels: Vec<u32>,
    pub map: HashMap<i32, IconRect>,
}

impl IconAtlas {
    /// The place of a picture.
    pub open spec fn place(self, item: i32) -> Option<IconRect> {
        if self.map@.dom().contains(item) {
            Some(self.map@[item])
        } else {
            None
        }
    }

    /// Where the icon of an item is.
    pub fn get(&self, item: i32) -> (r: Option<IconRect>)
        ensures
            r == self.place(item),
    {
        broadcast use vstd::std_specs::hash::group_hash_axioms;

        match self.map.get(&item) {
            Some(rect) => Some(*rect),
            None => None,
        }
    }

    /// How many pictures can be found.
    pub fn len(&self) -> (r: usize)
        ensures
            r == self.map@.dom().len(),
    {
        broadcast use vstd::std_specs::hash::group_hash_axioms;

        self.map.len()
    }
}

/// Decides [`packable`].
pub fn fits(loaded: &Loaded) -> (r: bool)
    ensures
        r == packable(loaded.images@),
{
    let images = &loaded.images;
    let mut ends: Vec<u64> = Vec::new();
    let mut x: u64 = GAP as u64;
    let mut y: u64 = GAP as u64;
    let mut shelf: u64 = 0;
    let mut i: usize = 0;
    assert(pen_at(images@, 0) == (Pen { x: 2, y: 2, shelf: 0 }));
    while i < images.len()
        invariant
            images@ == loaded.images@,
            i <= images@.len(),
            pen_at(images@, i as int) == (Pen { x: x as int, y: y as int, shelf: shelf as int }),
            GAP <= x <= u32::MAX,
            y + shelf + GAP <= MAX_HEIGHT,
            forall|j: int| 0 <= j < i ==> #[trigger] placeable(images@, j),
            ends@.len() == i,
            forall|j: int|
                0 <= j < i ==> #[trigger] ends@[j] == (if images@[j].1.height > 0 {
                    end_of(images@, j)
                } else {
                    0
                }),
        decreases images@.len() - i,
    {
        let image = &images[i].1;
        assert(image == images@[i as int].1);
        assert(image.width * image.height <= 0xFFFF_FFFF * 0xFFFF_FFFF) by (nonlinear_arith)
            requires
                image.width <= 0xFFFF_FFFF,
                image.height <= 0xFFFF_FFFF,
        ;
        let w: u64 = image.width as u64;
        let h: u64 = image.height as u64;
        if x + w + GAP as u64 > u32::MAX as u64 || image.pixels.len() as u128
            != image.width as u128 * image.height as u128 {
            assert(!placeable(images@, i as int));
            return false;
        }
        assert(placeable(images@, i as int));
        if x + w + GAP as u64 > ATLAS_WIDTH as u64 {
            x = GAP as u64;
            y = y + shelf + GAP as u64;
            shelf = 0;
        }
        assert(spot(images@, i as int) == (Pen { x: x as int, y: y as int, shelf: shelf as int }));
        ends.push(
            if h > 0 {
                (y + h - 1) * ATLAS_WIDTH as u64 + x + w
            } else {
                0
            },
        );
        x = x + w + GAP as u64;
        if h > shelf {
            shelf = h;
        }
        assert(pen_at(images@, i + 1) == (Pen { x: x as int, y: y as int, shelf: shelf as int }));
        if y + shelf + GAP as u64 > MAX_HEIGHT as u64 {
            proof {
                lemma_top_grows(images@, i + 1, images@.len() as int);
            }
            return false;
        }
        i = i + 1;
    }
    let size: u64 = ATLAS_WIDTH as u64 * (y + shelf + GAP as u64);
    i = 0;
    while i < images.len()
        invariant
            images@ == loaded.images@,
            i <= images@.len() == ends@.len(),
            size == ATLAS_WIDTH * height_of(images@),
            forall|j: int|
                0 <= j < images@.len() ==> #[trigger] ends@[j] == (if images@[j].1.height > 0 {
                    end_of(images@, j)
                } else {
                    0
                }),
            forall|j: int| 0 <= j < i ==> #[trigger] ends_inside(images@, j),
        decreases images@.len() - i,
    {
        if ends[i] > size {
            assert(!ends_inside(images@, i as int));
            return false;
        }
        assert(ends@[i as int] <= size);
        i = i + 1;
    }
    true
}

fn draw_row(pixels: &mut Vec<u32>, at: usize, image: &Image, row: u32)
    requires
        image.wf(),
        row < image.height,
        at + image.width <= old(pixels)@.len(),
    ensures
        final(pixels)@ == with_row(old(pixels)@, at as int, image.row(row as int)),
{
    proof {
        lemma_row_inside(*image, row as int);
    }
    let total: usize = image.pixels.len();
    let size: usize = pixels.len();
    let src: usize = row as usize * image.width as usize;
    let mut col: u32 = 0;
    while col < image.width
        invariant
            col <= image.width,
            src == row * image.width,
            src + image.width <= image.pixels@.len() == total,
            at + image.width <= pixels@.len() == old(pixels)@.len() == size,
            forall|k: int|
                0 <= k < pixels@.len() ==> #[trigger] pixels@[k] == if at <= k < at + col {
                    image.pixels@[src + (k - at)]
                } else {
                    old(pixels)@[k]
                },
        decreases image.width - col,
    {
        let value: u32 = image.pixels[src + col as usize];
        pixels.set(at + col as usize, value);
        col = col + 1;
    }
    assert(pixels@ =~= with_row(old(pixels)@, at as int, image.row(row as int)));
}

proof fn lemma_drawn_len(canvas: Seq<u32>, image: Image, x: int, y: int, rows: int)
    ensures
        drawn(canvas, image, x, y, rows).len() == canvas.len(),
    decreases rows,
{
    if rows > 0 {
        lemma_drawn_len(canvas, image, x, y, rows - 1);
    }
}

proof fn lemma_canvas_len(images: Seq<(i32, Image)>, n: int)
    requires
        0 <= height_of(images),
    ensures
        canvas_of(images, n).len() == ATLAS_WIDTH * height_of(images),
    decreases n,
{
    if n > 0 {
        lemma_canvas_len(images, n - 1);
        let at = spot(images, n - 1);
        lemma_drawn_len(
            canvas_of(images, n - 1),
            images[n - 1].1,
            at.x,
            at.y,
            images[n - 1].1.height as int,
        );
    }
}

fn draw_image(pixels: &mut Vec<u32>, image: &Image, x: u32, y: u32)
    requires
        image.wf(),
        old(pixels)@.len() <= u32::MAX,
        image.height > 0 ==> (y + image.height - 1) * ATLAS_WIDTH + x + image.width
            <= old(pixels)@.len(),
    ensures
        final(pixels)@ == drawn(old(pixels)@, *image, x as int, y as int, image.height as int),
{
    let mut row: u32 = 0;
    while row < image.height
        invariant
            row <= image.height,
            image.wf(),
            pixels@.len() <= u32::MAX,
            image.height > 0 ==> (y + image.height - 1) * ATLAS_WIDTH + x + image.width
                <= pixels@.len(),
            pixels@ == drawn(old(pixels)@, *image, x as int, y as int, row as int),
        decreases image.height - row,
    {
        let at: usize = ((y + row) * ATLAS_WIDTH + x) as usize;
        draw_row(pixels, at, image, row);
        row = row + 1;
        proof {
            lemma_drawn_len(old(pixels)@, *image, x as int, y as int, row as int);
        }
    }
}

/// Lays the pictures out on shelves.
pub fn build(loaded: &Loaded) -> (r: Option<IconAtlas>)
    requires
        packable(loaded.images@),
    ensures
        r is Some == (loaded.images@.len() > 0),
        r matches Some(atlas) ==> {
            &&& atlas.width == ATLAS_WIDTH
            &&& atlas.height == height_of(loaded.images@)
            &&& atlas.pixels@ == canvas_of(loaded.images@, loaded.images@.len() as int)
            &&& atlas.map@ == places(loaded.images@, loaded.images@.len() as int)
        },
{
    broadcast use vstd::std_specs::hash::group_hash_axioms;

    let images = &loaded.images;
    if images.len() == 0 {
        return None;
    }
    proof {
        lemma_top_grows(images@, 0, images@.len() as int);
    }
    let mut spots: Vec<(u32, u32)> = Vec::new();
    let mut pen_x: u32 = GAP;
    let mut pen_y: u32 = GAP;
    let mut shelf: u32 = 0;
    let mut i: usize = 0;
    while i < images.len()
        invariant
            images@ == loaded.images@,
            packable(images@),
            i <= images@.len(),
            pen_at(images@, i as int) == (Pen {
                x: pen_x as int,
                y: pen_y as int,
                shelf: shelf as int,
            }),
            GAP <= pen_x,
            pen_y + shelf + GAP <= height_of(images@),
            spots@.len() == i,
            forall|j: int|
                0 <= j < i ==> (#[trigger] spots@[j]).0 == spot(images@, j).x && spots@[j].1
                    == spot(images@, j).y,
        decreases images@.len() - i,
    {
        proof {
            lemma_spot(images@, i as int);
            assert(placeable(images@, i as int));
        }
        let w: u32 = images[i].1.width;
        let h: u32 = images[i].1.height;
        if pen_x + w + GAP > ATLAS_WIDTH {
            pen_x = GAP;
            pen_y = pen_y + shelf + GAP;
            shelf = 0;
        }
        assert(spot(images@, i as int) == (Pen {
            x: pen_x as int,
            y: pen_y as int,
            shelf: shelf as int,
        }));
        spots.push((pen_x, pen_y));
        pen_x = pen_x + w + GAP;
        if h > shelf {
            shelf = h;
        }
        proof {
            lemma_top_grows(images@, i + 1, images@.len() as int);
        }
        i = i + 1;
    }
    let height: u32 = pen_y + shelf + GAP;
    let size: usize = (ATLAS_WIDTH * height) as usize;
    let mut pixels: Vec<u32> = vec![0; size];
    let mut map: HashMap<i32, IconRect> = HashMap::new();
    assert(pixels@ =~= canvas_of(images@, 0));
    assert(map@ =~= places(images@, 0));
    i = 0;
    while i < images.len()
        invariant
            images@ == loaded.images@,
            packable(images@),
            i <= images@.len() == spots@.len(),
            height == height_of(images@),
            forall|j: int|
                0 <= j < images@.len() ==> (#[trigger] spots@[j]).0 == spot(images@, j).x
                    && spots@[j].1 == spot(images@, j).y,
            pixels@ == canvas_of(images@, i as int),
            map@ == places(images@, i as int),
        decreases images@.len() - i,
    {
        proof {
            lemma_spot(images@, i as int);
            lemma_canvas_len(images@, i as int);
            assert(placeable(images@, i as int) && ends_inside(images@, i as int));
        }
        let x: u32 = spots[i].0;
        let y: u32 = spots[i].1;
        assert(spots@[i as int].0 == x && spots@[i as int].1 == y);
        let image = &images[i].1;
        draw_image(&mut pixels, image, x, y);
        map.insert(images[i].0, IconRect { x, y, w: image.width, h: image.height });
        assert(map@ =~= places(images@, i + 1));
        i = i + 1;
    }
    Some(IconAtlas { width: ATLAS_WIDTH, height, pixels, map })
}

// ---------------------------------------------------------------------------
// Laws
// ---------------------------------------------------------------------------

/// Whether every picture fits a shelf. That of every item does.
pub open spec fn shelved(images: Seq<(i32, Image)>) -> bool {
    forall|i: int|
        0 <= i < images.len() ==> (#[trigger] images[i]).1.width + 2 * GAP <= ATLAS_WIDTH
}

/// The pen after `n` pictures is clear of each of them.
proof fn lemma_pen_is_clear(images: Seq<(i32, Image)>, i: int, n: int)
    requires
        0 <= i < n <= images.len(),
    ensures
        ({
            let at = spot(images, i);
            let pen = pen_at(images, n);
            ||| pen.y == at.y && pen.x >= at.x + images[i].1.width + GAP && pen.shelf
                >= images[i].1.height
            ||| pen.y >= at.y + images[i].1.height + GAP
        }),
    decreases n,
{
    lemma_spot(images, n - 1);
    if i < n - 1 {
        lemma_pen_is_clear(images, i, n - 1);
        lemma_top_grows(images, n - 1, n - 1);
    }
}

/// A picture on its shelf lies within the atlas, with at least the gap to each border.
pub proof fn law_pictures_keep_to_the_atlas(images: Seq<(i32, Image)>, i: int)
    requires
        packable(images),
        shelved(images),
        0 <= i < images.len(),
    ensures
        ({
            let a = rect_of(images, i);
            &&& GAP <= a.x && a.x + a.w + GAP <= ATLAS_WIDTH
            &&& GAP <= a.y && a.y + a.h + GAP <= height_of(images)
        }),
{
    lemma_spot(images, i);
    assert(images[i].1.width + 2 * GAP <= ATLAS_WIDTH);
}

/// Pictures on their shelves lie within the atlas, and no two of them touch: at least
/// the gap is between them, sideways or from top to bottom.
pub proof fn law_pictures_keep_apart(images: Seq<(i32, Image)>, i: int, j: int)
    requires
        packable(images),
        shelved(images),
        0 <= i < j < images.len(),
    ensures
        ({
            let a = rect_of(images, i);
            let b = rect_of(images, j);
            &&& GAP <= a.x && a.x + a.w + GAP <= ATLAS_WIDTH
            &&& GAP <= a.y && a.y + a.h + GAP <= height_of(images)
            &&& GAP <= b.x && b.x + b.w + GAP <= ATLAS_WIDTH
            &&& GAP <= b.y && b.y + b.h + GAP <= height_of(images)
            &&& (b.y == a.y && b.x >= a.x + a.w + GAP) || b.y >= a.y + a.h + GAP
        }),
{
    lemma_spot(images, i);
    lemma_spot(images, j);
    lemma_pen_is_clear(images, i, j);
    lemma_top_grows(images, j, j);
    assert(images[i].1.width + 2 * GAP <= ATLAS_WIDTH);
    assert(images[j].1.width + 2 * GAP <= ATLAS_WIDTH);
}

/// What a picture leaves alone.
proof fn lemma_drawn_outside(
    canvas: Seq<u32>,
    image: Image,
    x: int,
    y: int,
    rows: int,
    r: int,
    c: int,
)
    requires
        image.wf(),
        0 <= x,
        x + image.width <= ATLAS_WIDTH,
        0 <= rows <= image.height,
        0 <= c < ATLAS_WIDTH,
        0 <= r * ATLAS_WIDTH + c < canvas.len(),
        !(y <= r < y + rows && x <= c < x + image.width),
    ensures
        drawn(canvas, image, x, y, rows)[r * ATLAS_WIDTH + c] == canvas[r * ATLAS_WIDTH + c],
    decreases rows,
{
    if rows > 0 {
        lemma_drawn_outside(canvas, image, x, y, rows - 1, r, c);
        lemma_drawn_len(canvas, image, x, y, rows - 1);
        lemma_row_inside(image, rows - 1);
    }
}

/// What a picture puts there.
proof fn lemma_drawn_inside(
    canvas: Seq<u32>,
    image: Image,
    x: int,
    y: int,
    rows: int,
    r: int,
    c: int,
)
    requires
        image.wf(),
        0 <= x,
        x + image.width <= ATLAS_WIDTH,
        0 <= y,
        0 <= r < rows <= image.height,
        0 <= c < image.width,
        (y + image.height) * ATLAS_WIDTH <= canvas.len(),
    ensures
        drawn(canvas, image, x, y, rows)[(y + r) * ATLAS_WIDTH + x + c] == image.at(r, c),
    decreases rows,
{
    lemma_drawn_len(canvas, image, x, y, rows - 1);
    lemma_row_inside(image, rows - 1);
    if r < rows - 1 {
        lemma_drawn_inside(canvas, image, x, y, rows - 1, r, c);
    } else {
        assert(image.row(rows - 1)[c] == image.at(r, c));
    }
}

proof fn lemma_read_back(images: Seq<(i32, Image)>, i: int, n: int, r: int, c: int)
    requires
        packable(images),
        shelved(images),
        0 <= i < n <= images.len(),
        0 <= r < images[i].1.height,
        0 <= c < images[i].1.width,
    ensures
        ({
            let at = spot(images, i);
            canvas_of(images, n)[(at.y + r) * ATLAS_WIDTH + at.x + c] == images[i].1.at(r, c)
        }),
    decreases n,
{
    let last = images[n - 1].1;
    let at = spot(images, n - 1);
    lemma_spot(images, n - 1);
    lemma_spot(images, i);
    lemma_canvas_len(images, n - 1);
    assert(placeable(images, n - 1));
    assert(last.wf() && last.width + 2 * GAP <= ATLAS_WIDTH);
    assert(images[i].1.width + 2 * GAP <= ATLAS_WIDTH);
    if i == n - 1 {
        lemma_drawn_inside(
            canvas_of(images, n - 1),
            last,
            at.x,
            at.y,
            last.height as int,
            r,
            c,
        );
    } else {
        let own = spot(images, i);
        lemma_read_back(images, i, n - 1, r, c);
        law_pictures_keep_apart(images, i, n - 1);
        lemma_drawn_outside(
            canvas_of(images, n - 1),
            last,
            at.x,
            at.y,
            last.height as int,
            own.y + r,
            own.x + c,
        );
    }
}

/// Every point of every picture can be read back from the atlas, at its place.
pub proof fn law_pictures_read_back(images: Seq<(i32, Image)>, i: int, r: int, c: int)
    requires
        packable(images),
        shelved(images),
        0 <= i < images.len(),
        0 <= r < images[i].1.height,
        0 <= c < images[i].1.width,
    ensures
        ({
            let rect = rect_of(images, i);
            canvas_of(images, images.len() as int)[(rect.y + r) * ATLAS_WIDTH + rect.x + c]
                == images[i].1.at(r, c)
        }),
{
    lemma_spot(images, i);
    assert(images[i].1.width + 2 * GAP <= ATLAS_WIDTH);
    lemma_read_back(images, i, images.len() as int, r, c);
}

/// Whether a point of the atlas lies in a place.
pub open spec fn covers(rect: IconRect, r: int, c: int) -> bool {
    rect.y <= r < rect.y + rect.h && rect.x <= c < rect.x + rect.w
}

/// A point of the atlas that lies in none of the first `n` pictures is transparent when
/// those are drawn.
pub proof fn law_rest_is_transparent(images: Seq<(i32, Image)>, n: int, r: int, c: int)
    requires
        packable(images),
        shelved(images),
        0 <= n <= images.len(),
        0 <= r < height_of(images),
        0 <= c < ATLAS_WIDTH,
        forall|k: int| 0 <= k < n ==> !covers(#[trigger] rect_of(images, k), r, c),
    ensures
        canvas_of(images, n)[r * ATLAS_WIDTH + c] == 0,
    decreases n,
{
    let k = r * ATLAS_WIDTH + c;
    assert(0 <= k < ATLAS_WIDTH * height_of(images)) by (nonlinear_arith)
        requires
            k == r * ATLAS_WIDTH + c,
            0 <= r < height_of(images),
            0 <= c < ATLAS_WIDTH,
            ATLAS_WIDTH == 1024,
    ;
    if n > 0 {
        let last = images[n - 1].1;
        let at = spot(images, n - 1);
        law_rest_is_transparent(images, n - 1, r, c);
        law_pictures_keep_to_the_atlas(images, n - 1);
        lemma_spot(images, n - 1);
        lemma_canvas_len(images, n - 1);
        assert(placeable(images, n - 1));
        assert(last.width + 2 * GAP <= ATLAS_WIDTH);
        assert(!covers(rect_of(images, n - 1), r, c));
        lemma_drawn_outside(
            canvas_of(images, n - 1),
            last,
            at.x,
            at.y,
            last.height as int,
            r,
            c,
        );
    }
}

/// The last picture of a number is the one that is found under it.
pub proof fn law_last_of_a_number_is_found(images: Seq<(i32, Image)>, i: int, n: int)
    requires
        0 <= i < n <= images.len(),
        forall|j: int| i < j < n ==> (#[trigger] images[j]).0 != images[i].0,
    ensures
        places(images, n).dom().contains(images[i].0),
        places(images, n)[images[i].0] == rect_of(images, i),
    decreases n,
{
    if i < n - 1 {
        law_last_of_a_number_is_found(images, i, n - 1);
        assert(images[n - 1].0 != images[i].0);
    }
}

} // verus!
