//! The pinhole camera's pixel grid and the per-pixel render pass.
//!
//! The ray through the center of pixel (row `i`, column `j`) of a
//! `width × height` image has its x and y components at
//! `(j + 1/2) − width/2` and `height/2 − (i + 1/2)`. Both are multiples of one
//! half, so they are handed out doubled, as exact integers.
use vstd::prelude::*;
use crate::framebuffer::Framebuffer;

verus! {

/// The largest image side: the largest that a PNG file can record (2^31 − 1).
pub const MAX_SIDE: usize = 0x7fff_ffff;

/// Twice the horizontal offset of the center of column `j` from the image center.
pub open spec fn half_offset_x(width: nat, j: nat) -> int {
    2 * j + 1 - width
}

/// Twice the vertical offset of the center of row `i` from the image center
/// (rows grow downwards, offsets upwards).
pub open spec fn half_offset_y(height: nat, i: nat) -> int {
    height - 2 * i - 1
}

/// The doubled in-plane offsets of the center of pixel (row `i`, column `j`).
pub fn pixel_offset(width: usize, height: usize, i: usize, j: usize) -> (r: (i64, i64))
    requires
        width <= MAX_SIDE,
        height <= MAX_SIDE,
        i < height,
        j < width,
    ensures
        r.0 == half_offset_x(width as nat, j as nat),
        r.1 == half_offset_y(height as nat, i as nat),
{
    let x: i64 = 2 * (j as i64) + 1 - (width as i64);
    let y: i64 = (height as i64) - 2 * (i as i64) - 1;
    (x, y)
}

/// The pixel grid is centered on the optical axis: pixels placed symmetrically
/// about the image center have opposite offsets.
pub proof fn lemma_offsets_symmetric(width: nat, height: nat, i: nat, j: nat)
    requires
        i < height,
        j < width,
    ensures
        half_offset_x(width, (width - 1 - j) as nat) == -half_offset_x(width, j),
        half_offset_y(height, (height - 1 - i) as nat) == -half_offset_y(height, i),
{
}

/// Renders a `width × height` image: the cell at row `i`, column `j` holds what
/// `shade` returns for that pixel's doubled offsets. Every pixel is shaded once,
/// row after row.
pub fn render<T: Copy, F: Fn(i64, i64) -> T>(width: usize, height: usize, fill: T, shade: F) -> (r:
    Framebuffer<T>)
    requires
        width <= MAX_SIDE,
        height <= MAX_SIDE,
        width * height <= usize::MAX,
        forall|x: i64, y: i64| #[trigger] shade.requires((x, y)),
    ensures
        r.wf(),
        r.spec_width() == width,
        r.spec_height() == height,
        forall|i: nat, j: nat|
            i < height && j < width ==> shade.ensures(
                (
                    half_offset_x(width as nat, j) as i64,
                    half_offset_y(height as nat, i) as i64,
                ),
                #[trigger] r.cell(i, j),
            ),
{
    let mut fb = Framebuffer::new(width, height, fill);
    let mut i: usize = 0;
    while i < height
        invariant
            width <= MAX_SIDE,
            height <= MAX_SIDE,
            i <= height,
            fb.wf(),
            fb.spec_width() == width,
            fb.spec_height() == height,
            forall|x: i64, y: i64| #[trigger] shade.requires((x, y)),
            forall|i2: nat, j2: nat|
                i2 < i && j2 < width ==> shade.ensures(
                    (
                        half_offset_x(width as nat, j2) as i64,
                        half_offset_y(height as nat, i2) as i64,
                    ),
                    #[trigger] fb.cell(i2, j2),
                ),
        decreases height - i,
    {
        let mut j: usize = 0;
        while j < width
            invariant
                width <= MAX_SIDE,
                height <= MAX_SIDE,
                i < height,
                j <= width,
                fb.wf(),
                fb.spec_width() == width,
                fb.spec_height() == height,
                forall|x: i64, y: i64| #[trigger] shade.requires((x, y)),
                forall|i2: nat, j2: nat|
                    ((i2 < i && j2 < width) || (i2 == i && j2 < j)) ==> shade.ensures(
                        (
                            half_offset_x(width as nat, j2) as i64,
                            half_offset_y(height as nat, i2) as i64,
                        ),
                        #[trigger] fb.cell(i2, j2),
                    ),
            decreases width - j,
        {
            let (x, y) = pixel_offset(width, height, i, j);
            let c = shade(x, y);
            fb.set(i, j, c);
            j = j + 1;
        }
        i = i + 1;
    }
    fb
}

} // verus!
