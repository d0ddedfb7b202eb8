//! The atlas of the letters, for when the font of the game cannot be had.
//!
//! Every letter has a cell of the same size in a grid. The size comes from the metrics
//! of the font, so that the widest letters stay within their cells.

use std::collections::HashMap;

use vstd::prelude::*;

use crate::text;

verus! {

/// How many cells stand in a row.
pub const COLS: u32 = 16;

/// The height of the letters that is asked for.
pub const FONT_HEIGHT: i32 = 16;

/// What a cell has beyond its letter, so that neighbours do not mix when scaled.
pub const GUTTER: u32 = 2;

/// How many rows of cells there are.
pub const ROWS: u32 = 11;

/// How many letters there are.
pub const LETTERS: u32 = 163;

/// What is known of a font.
#[derive(Debug, Clone, Copy, PartialEq, Eq, Structural)]
pub struct Metrics {
    pub average_width: i32,
    pub max_width: i32,
    pub height: i32,
    pub external_leading: i32,
}

/// The size of a cell and what follows from it.
#[derive(Debug, Clone, Copy, PartialEq, Eq, Structural)]
pub struct Grid {
    pub width: u32,
    pub height: u32,
    pub cell_w: u32,
    pub cell_h: u32,
    /// How far the next letter of a line is away.
    pub advance: u32,
}

pub open spec fn at_least_one(x: int) -> int {
    if x > 1 {
        x
    } else {
        1
    }
}

impl Metrics {
    /// How far the next letter is away.
    pub open spec fn step(self) -> int {
        at_least_one(self.average_width as int)
    }

    /// The width of a cell: that of the widest letter, and never less than the step.
    pub open spec fn cell_width(self) -> int {
        let widest = at_least_one(self.max_width as int);
        GUTTER + if widest > self.step() {
            widest
        } else {
            self.step()
        }
    }

    /// The height of a cell.
    pub open spec fn cell_height(self) -> int {
        GUTTER + at_least_one(self.height + self.external_leading)
    }

    /// Whether the points of the atlas can be counted.
    pub open spec fn measurable(self) -> bool {
        &&& i32::MIN <= self.height + self.external_leading <= i32::MAX
        &&& (COLS * self.cell_width()) * (ROWS * self.cell_height()) <= u32::MAX
    }

    pub open spec fn gridded(self) -> Grid {
        Grid {
            width: (COLS * self.cell_width()) as u32,
            height: (ROWS * self.cell_height()) as u32,
            cell_w: self.cell_width() as u32,
            cell_h: self.cell_height() as u32,
            advance: self.step() as u32,
        }
    }

    /// Decides [`Metrics::measurable`].
    pub fn is_measurable(&self) -> (r: bool)
        ensures
            r == self.measurable(),
    {
        let letter: i64 = self.height as i64 + self.external_leading as i64;
        if letter < i32::MIN as i64 || letter > i32::MAX as i64 {
            return false;
        }
        let advance: u64 = if self.average_width > 1 {
            self.average_width as u64
        } else {
            1
        };
        let widest: u64 = if self.max_width > 1 {
            self.max_width as u64
        } else {
            1
        };
        let cell_w: u64 = if widest > advance {
            widest + GUTTER as u64
        } else {
            advance + GUTTER as u64
        };
        let cell_h: u64 = if letter > 1 {
            letter as u64 + GUTTER as u64
        } else {
            1 + GUTTER as u64
        };
        assert(COLS as u64 * cell_w == 16 * cell_w && ROWS as u64 * cell_h == 11 * cell_h)
            by (nonlinear_arith)
            requires
                COLS == 16,
                ROWS == 11,
        ;
        let width: u64 = COLS as u64 * cell_w;
        let height: u64 = ROWS as u64 * cell_h;
        assert(width > u32::MAX || height > u32::MAX ==> width * height > u32::MAX)
            by (nonlinear_arith)
            requires
                width >= 1,
                height >= 1,
        ;
        if width > u32::MAX as u64 || height > u32::MAX as u64 {
            return false;
        }
        assert(width * height <= 0xFFFF_FFFF * 0xFFFF_FFFF) by (nonlinear_arith)
            requires
                width <= 0xFFFF_FFFF,
                height <= 0xFFFF_FFFF,
        ;
        width * height <= u32::MAX as u64
    }

    /// The grid for a font.
    pub fn grid(&self) -> (r: Grid)
        requires
            self.measurable(),
        ensures
            r == self.gridded(),
            r.wf(),
    {
        assert(COLS * self.cell_width() <= u32::MAX && ROWS * self.cell_height() <= u32::MAX)
            by (nonlinear_arith)
            requires
                (COLS * self.cell_width()) * (ROWS * self.cell_height()) <= u32::MAX,
                COLS * self.cell_width() >= 1,
                ROWS * self.cell_height() >= 1,
        ;
        let advance: u32 = if self.average_width > 1 {
            self.average_width as u32
        } else {
            1
        };
        let widest: u32 = if self.max_width > 1 {
            self.max_width as u32
        } else {
            1
        };
        let letter: i32 = self.height + self.external_leading;
        let cell_w: u32 = if widest > advance {
            widest + GUTTER
        } else {
            advance + GUTTER
        };
        let cell_h: u32 = if letter > 1 {
            letter as u32 + GUTTER
        } else {
            1 + GUTTER
        };
        Grid { width: COLS * cell_w, height: ROWS * cell_h, cell_w, cell_h, advance }
    }
}

impl Grid {
    pub open spec fn wf(self) -> bool {
        &&& 0 < self.cell_w
        &&& 0 < self.cell_h
        &&& self.width == COLS * self.cell_w
        &&& self.height == ROWS * self.cell_h
        &&& self.width * self.height <= u32::MAX
    }

    /// The upper left corner of the cell of the letter `i`.
    pub open spec fn corner(self, i: int) -> (u32, u32) {
        (((i % COLS as int) * self.cell_w) as u32, ((i / COLS as int) * self.cell_h) as u32)
    }

    /// Where to draw the letter `i`.
    pub fn spot(&self, i: u32) -> (r: (u32, u32))
        requires
            self.wf(),
            i < LETTERS,
        ensures
            r == self.corner(i as int),
            r.0 + self.cell_w <= self.width,
            r.1 + self.cell_h <= self.height,
    {
        let col: u32 = i % COLS;
        let row: u32 = i / COLS;
        assert(col * self.cell_w + self.cell_w <= 16 * self.cell_w) by (nonlinear_arith)
            requires
                col < 16,
        ;
        assert(row * self.cell_h + self.cell_h <= 11 * self.cell_h) by (nonlinear_arith)
            requires
                row < 11,
        ;
        assert(0 <= col * self.cell_w && 0 <= row * self.cell_h) by (nonlinear_arith);
        (col * self.cell_w, row * self.cell_h)
    }
}

/// The letters: the printable ones of ASCII, the Russian ones, and a few more.
pub open spec fn letters() -> Seq<char> {
    " !\"#$%&'()*+,-./0123456789:;<=>?@ABCDEFGHIJKLMNOPQRSTUVWXYZ[\\]^_`abcdefghijklmnopqrstuvwxyz{|}~АБВГДЕЖЗИЙКЛМНОПРСТУФХЦЧШЩЪЫЬЭЮЯабвгдежзийклмнопрстуфхцчшщъыьэюяЁё—…"@
}

/// The letters: what each of them is.
proof fn lemma_letters()
    ensures
        letters().len() == LETTERS,
        forall|i: int| 0 <= i < 95 ==> #[trigger] letters()[i] as int == 32 + i,
        forall|i: int| 95 <= i < 159 ==> #[trigger] letters()[i] as int == 0x410 + (i - 95),
        letters()[159] as int == 0x401,
        letters()[160] as int == 0x451,
        letters()[161] as int == 0x2014,
        letters()[162] as int == 0x2026,
{
    reveal_strlit(" !\"#$%&'()*+,-./0123456789:;<=>?@ABCDEFGHIJKLMNOPQRSTUVWXYZ[\\]^_`abcdefghijklmnopqrstuvwxyz{|}~АБВГДЕЖЗИЙКЛМНОПРСТУФХЦЧШЩЪЫЬЭЮЯабвгдежзийклмнопрстуфхцчшщъыьэюяЁё—…");
}

/// The letters that the atlas holds: from the blank to the tilde, from А to я, the two
/// letters that stand apart from these, a dash and an ellipsis.
pub fn charset() -> (r: Vec<char>)
    ensures
        r@ == letters(),
        r@.len() == LETTERS,
        forall|i: int| 0 <= i < 95 ==> #[trigger] r@[i] as int == 32 + i,
        forall|i: int| 95 <= i < 159 ==> #[trigger] r@[i] as int == 0x410 + (i - 95),
        r@[159] == 'Ё' && r@[160] == 'ё' && r@[161] == '—' && r@[162] == '…',
{
    proof {
        lemma_letters();
    }
    text::chars_of(" !\"#$%&'()*+,-./0123456789:;<=>?@ABCDEFGHIJKLMNOPQRSTUVWXYZ[\\]^_`abcdefghijklmnopqrstuvwxyz{|}~АБВГДЕЖЗИЙКЛМНОПРСТУФХЦЧШЩЪЫЬЭЮЯабвгдежзийклмнопрстуфхцчшщъыьэюяЁё—…")
}

/// The brightest of the three colours of a point.
pub open spec fn brightness(bgr: u32) -> u32 {
    let r = (bgr / 0x1_0000) % 0x100;
    let g = (bgr / 0x100) % 0x100;
    let b = bgr % 0x100;
    let rg = if r > g {
        r
    } else {
        g
    };
    if rg > b {
        rg
    } else {
        b
    }
}

/// A white point that is as opaque as the point of the drawing is bright.
pub open spec fn covered(bgr: u32) -> u32 {
    (brightness(bgr) * 0x100_0000 + 0xFF_FFFF) as u32
}

/// The point of the atlas for a point of the drawing.
pub fn coverage(bgr: u32) -> (r: u32)
    ensures
        r == covered(bgr),
{
    let r: u32 = (bgr >> 16) & 0xFF;
    let g: u32 = (bgr >> 8) & 0xFF;
    let b: u32 = bgr & 0xFF;
    assert((bgr >> 16) & 0xFF == (bgr / 0x1_0000) % 0x100) by (bit_vector);
    assert((bgr >> 8) & 0xFF == (bgr / 0x100) % 0x100) by (bit_vector);
    assert(bgr & 0xFF == bgr % 0x100) by (bit_vector);
    let rg: u32 = if r > g {
        r
    } else {
        g
    };
    let alpha: u32 = if rg > b {
        rg
    } else {
        b
    };
    assert((alpha << 24) | 0x00FF_FFFF == alpha * 0x100_0000 + 0xFF_FFFF) by (bit_vector)
        requires
            alpha < 0x100,
    ;
    (alpha << 24) | 0x00FF_FFFF
}

/// The letters in one picture.
pub struct FontAtlas {
    pub width: u32,
    pub height: u32,
    pub cell_w: u32,
    pub cell_h: u32,
    /// How far the next letter of a line is away.
    pub advance: u32,
    /// White points, as opaque as the letter is bright there.
    pub pixels: Vec<u32>,
    /// The number of each letter, by its code.
    pub index: HashMap<u32, u32>,
}

impl FontAtlas {
    pub open spec fn grid(self) -> Grid {
        Grid {
            width: self.width,
            height: self.height,
            cell_w: self.cell_w,
            cell_h: self.cell_h,
            advance: self.advance,
        }
    }

    pub open spec fn wf(self) -> bool {
        &&& self.grid().wf()
        &&& forall|code: u32|
            self.index@.dom().contains(code) ==> #[trigger] self.index@[code] < LETTERS
    }

    /// The upper left corner of the cell of a letter, where the atlas holds it.
    pub fn cell(&self, ch: char) -> (r: Option<(u32, u32)>)
        requires
            self.wf(),
        ensures
            r == if self.index@.dom().contains(ch as u32) {
                Some(self.grid().corner(self.index@[ch as u32] as int))
            } else {
                None
            },
    {
        broadcast use vstd::std_specs::hash::group_hash_axioms;

        let code: u32 = ch as u32;
        match self.index.get(&code) {
            Some(i) => {
                let grid = Grid {
                    width: self.width,
                    height: self.height,
                    cell_w: self.cell_w,
                    cell_h: self.cell_h,
                    advance: self.advance,
                };
                assert(self.index@[code] < LETTERS);
                Some(grid.spot(*i))
            },
            None => None,
        }
    }
}

/// The numbers of the first `n` letters, by their codes.
pub open spec fn numbered(n: int) -> Map<u32, u32>
    decreases n,
{
    if n <= 0 {
        Map::empty()
    } else {
        numbered(n - 1).insert(letters()[n - 1] as u32, (n - 1) as u32)
    }
}

/// The codes of the letters lead to their numbers.
proof fn lemma_numbered(n: int)
    requires
        0 <= n <= LETTERS,
    ensures
        forall|code: u32| #[trigger]
            numbered(n).dom().contains(code) ==> numbered(n)[code] < n
                && letters()[numbered(n)[code] as int] as u32 == code,
        forall|i: int|
            0 <= i < n ==> numbered(n).dom().contains(#[trigger] letters()[i] as u32),
    decreases n,
{
    if n > 0 {
        lemma_numbered(n - 1);
        assert forall|code: u32| #[trigger] numbered(n).dom().contains(code) implies numbered(
            n,
        )[code] < n && letters()[numbered(n)[code] as int] as u32 == code by {
            if code != letters()[n - 1] as u32 {
                assert(numbered(n - 1).dom().contains(code));
            }
        }
    }
}

/// Makes the atlas out of the drawing of the letters, each at its [`Grid::spot`].
pub fn build(grid: Grid, drawing: &Vec<u32>) -> (r: FontAtlas)
    requires
        grid.wf(),
    ensures
        r.wf(),
        r.grid() == grid,
        r.pixels@ == drawing@.map_values(|bgr: u32| covered(bgr)),
        r.index@ == numbered(LETTERS as int),
{
    broadcast use vstd::std_specs::hash::group_hash_axioms;

    let chars = charset();
    let mut index: HashMap<u32, u32> = HashMap::new();
    assert(index@ =~= numbered(0));
    let mut i: u32 = 0;
    while i < LETTERS
        invariant
            i <= LETTERS,
            chars@ == letters(),
            chars@.len() == LETTERS,
            index@ == numbered(i as int),
        decreases LETTERS - i,
    {
        index.insert(chars[i as usize] as u32, i);
        assert(index@ =~= numbered(i + 1));
        i = i + 1;
    }
    let mut pixels: Vec<u32> = Vec::new();
    let mut k: usize = 0;
    while k < drawing.len()
        invariant
            k <= drawing@.len(),
            pixels@.len() == k,
            forall|j: int| 0 <= j < k ==> pixels@[j] == covered(drawing@[j]),
        decreases drawing@.len() - k,
    {
        pixels.push(coverage(drawing[k]));
        k = k + 1;
    }
    assert(pixels@ =~= drawing@.map_values(|bgr: u32| covered(bgr)));
    proof {
        lemma_numbered(LETTERS as int);
    }
    FontAtlas {
        width: grid.width,
        height: grid.height,
        cell_w: grid.cell_w,
        cell_h: grid.cell_h,
        advance: grid.advance,
        pixels,
        index,
    }
}

/// Every letter is found under its code, at the place where it was drawn; nothing else
/// is found.
pub proof fn law_letters_are_found(code: u32)
    ensures
        numbered(LETTERS as int).dom().contains(code) == (exists|i: int|
            0 <= i < LETTERS && #[trigger] letters()[i] as u32 == code),
        forall|i: int|
            0 <= i < LETTERS && #[trigger] letters()[i] as u32 == code ==> numbered(
                LETTERS as int,
            )[code] == i,
{
    lemma_letters();
    lemma_numbered(LETTERS as int);
    if numbered(LETTERS as int).dom().contains(code) {
        let i = numbered(LETTERS as int)[code] as int;
        assert(letters()[i] as u32 == code);
        assert forall|j: int| 0 <= j < LETTERS && #[trigger] letters()[j] as u32 == code implies j
            == i by {
            lemma_letters_differ(i, j);
        }
    }
}

proof fn lemma_letters_differ(i: int, j: int)
    requires
        0 <= i < LETTERS,
        0 <= j < LETTERS,
        letters()[i] as u32 == letters()[j] as u32,
    ensures
        i == j,
{
    lemma_letters();
    assert(letters()[i] as int == letters()[j] as int);
}

/// Two letters have cells that do not overlap, and each cell lies within the atlas.
pub proof fn law_cells_keep_apart(grid: Grid, i: int, j: int)
    requires
        grid.wf(),
        0 <= i < LETTERS,
        0 <= j < LETTERS,
        i != j,
    ensures
        ({
            let a = grid.corner(i);
            let b = grid.corner(j);
            &&& a.0 + grid.cell_w <= grid.width
            &&& a.1 + grid.cell_h <= grid.height
            &&& a.0 + grid.cell_w <= b.0 || b.0 + grid.cell_w <= a.0 || a.1 + grid.cell_h <= b.1
                || b.1 + grid.cell_h <= a.1
        }),
{
    let ci = i % 16;
    let cj = j % 16;
    let ri = i / 16;
    let rj = j / 16;
    let w = grid.cell_w as int;
    let h = grid.cell_h as int;
    assert(0 <= ci * w && ci * w + w <= 16 * w) by (nonlinear_arith)
        requires
            0 <= ci < 16,
            0 < w,
    ;
    assert(0 <= cj * w && cj * w + w <= 16 * w) by (nonlinear_arith)
        requires
            0 <= cj < 16,
            0 < w,
    ;
    assert(0 <= ri * h && ri * h + h <= 11 * h) by (nonlinear_arith)
        requires
            0 <= ri < 11,
            0 < h,
    ;
    assert(0 <= rj * h && rj * h + h <= 11 * h) by (nonlinear_arith)
        requires
            0 <= rj < 11,
            0 < h,
    ;
    if ci < cj {
        assert(ci * w + w <= cj * w) by (nonlinear_arith)
            requires
                ci < cj,
                0 < w,
        ;
    } else if cj < ci {
        assert(cj * w + w <= ci * w) by (nonlinear_arith)
            requires
                cj < ci,
                0 < w,
        ;
    } else if ri < rj {
        assert(ri * h + h <= rj * h) by (nonlinear_arith)
            requires
                ri < rj,
                0 < h,
        ;
    } else {
        assert(rj * h + h <= ri * h) by (nonlinear_arith)
            requires
                rj < ri,
                0 < h,
        ;
    }
}

} // verus!
