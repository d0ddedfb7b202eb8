//! Pictures and letters in their atlases.

use vstd::prelude::*;

use crate::overlay::font::{Grid, Metrics};
use crate::overlay::icons::{IconRect, Image};

verus! {

/// The pictures of the interface with their numbers and files; only the switch is cut, the
/// one that is off out of the left of its file and the one that is on out of the right.
pub proof fn law_pictures_of_the_interface()
    ensures
        ({
            let a = crate::overlay::icons::asset_list();
            &&& a.len() == 13
            &&& a[0].id == -2 && a[0].name == "UI/Cursor_0"@
            &&& a[1].id == -3 && a[1].name == "UI/PanelBackground"@
            &&& a[2].id == -4 && a[2].name == "UI/PanelBorder"@
            &&& a[3].id == -5 && a[3].name == "UI/InnerPanelBackground"@
            &&& a[4].id == -6 && a[4].name == "Inventory_Back"@
            &&& a[5].id == -12 && a[5].name == "Inventory_Back3"@
            &&& a[6].id == -13 && a[6].name == "Inventory_Back5"@
            &&& a[7].id == -14 && a[7].name == "Inventory_Back13"@
            &&& a[8].id == -7 && a[8].name == "UI/ButtonBacking"@
            &&& a[9].id == -8 && a[9].name == "UI/Settings_Toggle"@
            &&& a[10].id == -9 && a[10].name == "UI/Settings_Toggle"@
            &&& a[11].id == -10 && a[11].name == "UI/Scrollbar"@
            &&& a[12].id == -11 && a[12].name == "UI/ScrollbarInner"@
            &&& forall|i: int| 0 <= i < 13 && i != 9 && i != 10 ==> (#[trigger] a[i]).cut is None
            &&& a[9].cut == Some(IconRect { x: 0, y: 0, w: 14, h: 14 })
            &&& a[10].cut == Some(IconRect { x: 16, y: 0, w: 14, h: 14 })
        }),
{
}

/// A part can be cut out where it is not empty and lies within the picture; the icon of an
/// item is taken where it is not empty and up to 192 points wide.
pub proof fn law_what_can_be_taken(image: Image, rect: IconRect)
    ensures
        crate::overlay::icons::lies_in(image, rect) <==> 0 < rect.w && 0 < rect.h && rect.x
            + rect.w <= image.width && rect.y + rect.h <= image.height,
        crate::overlay::icons::usable(image) <==> 0 < image.width <= 192 && 0 < image.height,
{
}

/// Pictures stand in their order, from the corner on, two points apart: on the same shelf as
/// long as they fit into 1024 points, and otherwise on a new shelf below the highest picture
/// of this one. The atlas ends two points below the last shelf.
pub proof fn law_pictures_stand_on_shelves(images: Seq<(i32, Image)>, i: int)
    requires
        0 <= i < images.len(),
    ensures
        ({
            let a = crate::overlay::icons::spot(images, i);
            let w = images[i].1.width as int;
            let h = images[i].1.height as int;
            let highest = if h > a.shelf {
                h
            } else {
                a.shelf
            };
            &&& i == 0 && w <= 1020 ==> a.x == 2 && a.y == 2 && a.shelf == 0
            &&& i + 1 < images.len() ==> {
                let b = crate::overlay::icons::spot(images, i + 1);
                let next = images[i + 1].1.width as int;
                let same = a.x + w + 2 + next + 2 <= 1024;
                &&& same ==> b.x == a.x + w + 2 && b.y == a.y && b.shelf == highest
                &&& !same ==> b.x == 2 && b.y == a.y + highest + 2 && b.shelf == 0
            }
            &&& i + 1 == images.len() ==> crate::overlay::icons::height_of(images) == a.y + highest
                + 2
        }),
        ({
            let r = crate::overlay::icons::rect_of(images, i);
            r.w == images[i].1.width && r.h == images[i].1.height
        }),
{
    reveal_with_fuel(crate::overlay::icons::pen_at, 2);
    reveal_with_fuel(crate::overlay::icons::spot, 2);
}

/// The cells of the letters: sixteen in a row, eleven rows; each as wide as the widest
/// letter and as high as a line, and two points more.
pub proof fn law_cells_of_the_letters(m: Metrics, i: int)
    requires
        m.measurable(),
        0 <= i < 163,
    ensures
        ({
            let g = m.gridded();
            let one = |x: int| if x > 1 {
                x
            } else {
                1
            };
            let step = one(m.average_width as int);
            let widest = one(m.max_width as int);
            &&& g.advance == step
            &&& g.cell_w >= step + 2 && g.cell_w >= widest + 2
            &&& g.cell_w == step + 2 || g.cell_w == widest + 2
            &&& g.cell_h == one(m.height + m.external_leading) + 2
            &&& g.width == 16 * g.cell_w && g.height == 11 * g.cell_h
            &&& g.corner(i).0 == (i % 16) * g.cell_w
            &&& g.corner(i).1 == (i / 16) * g.cell_h
        }),
{
    let g = m.gridded();
    assert(16 * m.cell_width() <= u32::MAX && 11 * m.cell_height() <= u32::MAX) by (nonlinear_arith)
        requires
            (16 * m.cell_width()) * (11 * m.cell_height()) <= u32::MAX,
            16 * m.cell_width() >= 1,
            11 * m.cell_height() >= 1,
    ;
    let (c, r) = (i % 16, i / 16);
    assert(0 <= c * g.cell_w <= 16 * g.cell_w) by (nonlinear_arith)
        requires
            0 <= c < 16,
            0 <= g.cell_w,
    ;
    assert(0 <= r * g.cell_h <= 11 * g.cell_h) by (nonlinear_arith)
        requires
            0 <= r < 11,
            0 <= g.cell_h,
    ;
}

/// A point of a letter is white, and as opaque as the brightest of the three colours that
/// were drawn there.
pub proof fn law_letters_are_white(red: u32, green: u32, blue: u32, rest: u32)
    requires
        red < 256,
        green < 256,
        blue < 256,
        rest < 256,
    ensures
        ({
            let point = (rest * 0x100_0000 + red * 0x1_0000 + green * 0x100 + blue) as u32;
            let c = crate::overlay::font::covered(point);
            let alpha = c / 0x100_0000;
            &&& c % 0x100_0000 == 0xFF_FFFF
            &&& alpha >= red && alpha >= green && alpha >= blue
            &&& alpha == red || alpha == green || alpha == blue
        }),
{
    let point = (rest * 0x100_0000 + red * 0x1_0000 + green * 0x100 + blue) as u32;
    assert((point / 0x1_0000) % 0x100 == red);
    assert((point / 0x100) % 0x100 == green);
    assert(point % 0x100 == blue);
}

} // verus!
