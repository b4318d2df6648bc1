//! The menu-bar icon on macOS: a filled circle on a transparent square, drawn
//! as a template image (black with an alpha channel; the system recolours it
//! for light and dark menu bars).
//!
//! The circle has radius 7.5 pixels and is centred at (10.5, 10.5), the centre
//! of a 22 by 22 square; a pixel is opaque when its corner coordinates lie
//! within the radius of that centre. Counted in half pixels, pixel (x, y) is
//! opaque exactly when (2x - 21)² + (2y - 21)² ≤ 15², which involves whole
//! numbers only.

use vstd::prelude::*;
use vstd::arithmetic::div_mod::lemma_fundamental_div_mod_converse;

verus! {

/// Width and height of the icon in pixels.
pub const ICON_SIZE: u32 = 22;
/// Bytes per pixel (red, green, blue, alpha).
pub const BYTES_PER_PIXEL: usize = 4;
/// Bytes of the whole icon.
pub const ICON_BYTES: usize = 1936;

/// Whether pixel (x, y) of the icon is opaque.
pub open spec fn in_disk(x: int, y: int) -> bool {
    (2 * x - 21) * (2 * x - 21) + (2 * y - 21) * (2 * y - 21) <= 225
}

/// Byte `i` of the icon, with pixels stored row by row from the top left and
/// four bytes (red, green, blue, alpha) per pixel: colour bytes are 0, the
/// alpha byte is 255 on opaque pixels and 0 elsewhere.
pub open spec fn icon_byte(i: int) -> u8 {
    let p: int = i / 4;
    if i % 4 == 3 && in_disk(p % 22, p / 22) {
        255u8
    } else {
        0u8
    }
}

/// Opacity of pixel (x, y), for `x`, `y` below `ICON_SIZE`.
fn pixel_alpha(x: u32, y: u32) -> (a: u8)
    requires
        x < 22,
        y < 22,
    ensures
        a == (if in_disk(x as int, y as int) { 255u8 } else { 0u8 }),
{
    let dx: i32 = 2 * (x as i32) - 21;
    let dy: i32 = 2 * (y as i32) - 21;
    assert(0 <= dx * dx <= 441 && 0 <= dy * dy <= 441) by (nonlinear_arith)
        requires
            -21 <= dx <= 21,
            -21 <= dy <= 21,
    ;
    if dx * dx + dy * dy <= 225 {
        255
    } else {
        0
    }
}

/// The pixels of the icon, as an RGBA buffer of `ICON_SIZE` by `ICON_SIZE` pixels.
pub fn icon_rgba() -> (v: Vec<u8>)
    ensures
        v@.len() == ICON_BYTES,
        forall|i: int| 0 <= i < v@.len() ==> #[trigger] v@[i] == icon_byte(i),
{
    let mut v: Vec<u8> = Vec::new();
    let mut p: u32 = 0;
    while p < ICON_SIZE * ICON_SIZE
        invariant
            p <= 484,
            v@.len() == 4 * p,
            forall|i: int| 0 <= i < v@.len() ==> #[trigger] v@[i] == icon_byte(i),
        decreases 484 - p,
    {
        let a: u8 = pixel_alpha(p % ICON_SIZE, p / ICON_SIZE);
        proof {
            lemma_fundamental_div_mod_converse(4 * p + 0, 4, p as int, 0);
            lemma_fundamental_div_mod_converse(4 * p + 1, 4, p as int, 1);
            lemma_fundamental_div_mod_converse(4 * p + 2, 4, p as int, 2);
            lemma_fundamental_div_mod_converse(4 * p + 3, 4, p as int, 3);
        }
        v.push(0);
        v.push(0);
        v.push(0);
        v.push(a);
        p = p + 1;
    }
    v
}

/// The icon is symmetric under left-right and top-bottom mirroring.
pub proof fn law_icon_is_symmetric(x: int, y: int)
    ensures
        in_disk(x, y) == in_disk(21 - x, y),
        in_disk(x, y) == in_disk(x, 21 - y),
{
    assert((2 * (21 - x) - 21) * (2 * (21 - x) - 21) == (2 * x - 21) * (2 * x - 21))
        by (nonlinear_arith);
    assert((2 * (21 - y) - 21) * (2 * (21 - y) - 21) == (2 * y - 21) * (2 * y - 21))
        by (nonlinear_arith);
}

} // verus!
