use vstd::prelude::*;

use vstd::arithmetic::div_mod::lemma_fundamental_div_mod_converse;

use crate::color::Color;

verus! {

/// Whether `p` is the pixel that position `i` of a `width`-wide image holds,
/// where the image is stored row by row from the top and the tracer counts
/// rows from the bottom of an image `height` rows high.
pub open spec fn is_scan_point(width: u32, height: u32, i: int, p: (u32, u32)) -> bool {
    &&& p.0 == i % (width as int)
    &&& p.1 == height - 1 - i / (width as int)
}

/// The tracer coordinates `(x, y)` of every pixel of a `width` x `height`
/// image, in the order in which the image is stored: row by row from the top,
/// left to right. The tracer's row `0` is the bottom row, so the first stored
/// row has `y == height - 1`.
pub fn scan_order(width: u32, height: u32) -> (r: Vec<(u32, u32)>)
    ensures
        r@.len() == width * height,
        forall|i: int| 0 <= i < r@.len() ==> is_scan_point(width, height, i, #[trigger] r@[i]),
{
    let mut r: Vec<(u32, u32)> = Vec::new();
    let mut row: u32 = 0;
    while row < height
        invariant
            row <= height,
            r@.len() == row * width,
            forall|i: int| 0 <= i < r@.len() ==> is_scan_point(width, height, i, #[trigger] r@[i]),
        decreases height - row,
    {
        let mut x: u32 = 0;
        while x < width
            invariant
                row < height,
                x <= width,
                r@.len() == row * width + x,
                forall|i: int|
                    0 <= i < r@.len() ==> is_scan_point(width, height, i, #[trigger] r@[i]),
            decreases width - x,
        {
            proof {
                lemma_fundamental_div_mod_converse(
                    r@.len() as int,
                    width as int,
                    row as int,
                    x as int,
                );
            }
            r.push((x, height - 1 - row));
            x = x + 1;
        }
        assert(row * width + width == (row + 1) * width) by (nonlinear_arith);
        row = row + 1;
    }
    assert(height * width == width * height) by (nonlinear_arith);
    r
}

/// The red, green and blue bytes of each pixel in turn: three bytes a pixel.
pub fn rgb_bytes(pixels: &Vec<Color>) -> (r: Vec<u8>)
    ensures
        r@.len() == 3 * pixels@.len(),
        forall|i: int|
            0 <= i < pixels@.len() ==> {
                &&& r@[3 * i] == (#[trigger] pixels@[i])@.0
                &&& r@[3 * i + 1] == pixels@[i]@.1
                &&& r@[3 * i + 2] == pixels@[i]@.2
            },
{
    let mut r: Vec<u8> = Vec::new();
    let mut k: usize = 0;
    while k < pixels.len()
        invariant
            k <= pixels@.len(),
            r@.len() == 3 * k,
            forall|i: int|
                0 <= i < k ==> {
                    &&& r@[3 * i] == (#[trigger] pixels@[i])@.0
                    &&& r@[3 * i + 1] == pixels@[i]@.1
                    &&& r@[3 * i + 2] == pixels@[i]@.2
                },
        decreases pixels@.len() - k,
    {
        let channels = pixels[k].as_array();
        r.push(channels[0]);
        r.push(channels[1]);
        r.push(channels[2]);
        k = k + 1;
    }
    r
}

} // verus!
