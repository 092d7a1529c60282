//! Rasterisation: per-pixel escape counts become grayscale intensities in a
//! flat, row-major buffer.  A pixel whose point never escaped is black; one
//! that escaped after `c` iterations has intensity `255 - c`, so the fastest
//! escapes are lightest.

use vstd::prelude::*;

verus! {

/// Grayscale intensity of one pixel: `0` for a point that never escaped,
/// `255 - c` (reduced modulo 256) for one that escaped after `c` iterations.
pub open spec fn intensity_spec(count: Option<usize>) -> u8 {
    match count {
        None => 0u8,
        Some(c) => (255 - (c as int) % 256) as u8,
    }
}

/// Intensity of one pixel from its escape count.
pub fn intensity(count: Option<usize>) -> (r: u8)
    ensures
        r == intensity_spec(count),
{
    match count {
        None => 0,
        Some(c) => {
            let m: usize = c % 256;
            255 - (m as u8)
        },
    }
}

/// Row-major flat index of the pixel at column `x`, row `y` of an image
/// `w` pixels wide.
pub open spec fn row_major_index(w: int, x: int, y: int) -> int {
    y * w + x
}

/// A pixel's column and row lie within the image, so its row-major index
/// lies within the buffer.
pub proof fn lemma_row_major_in_range(w: int, h: int, x: int, y: int)
    requires
        0 <= x < w,
        0 <= y < h,
    ensures
        0 <= y * w + x < w * h,
{
    assert(0 <= y * w + x < w * h) by (nonlinear_arith)
        requires
            0 <= x < w,
            0 <= y < h,
    ;
}

/// Flat index of the pixel at column `pixel.0`, row `pixel.1` of an image
/// `bounds.0` wide and `bounds.1` high, row-major.
pub fn pixel_index(bounds: (usize, usize), pixel: (usize, usize)) -> (idx: usize)
    requires
        pixel.0 < bounds.0,
        pixel.1 < bounds.1,
        bounds.0 * bounds.1 <= usize::MAX,
    ensures
        idx == pixel.1 * bounds.0 + pixel.0,
        idx < bounds.0 * bounds.1,
{
    proof {
        lemma_row_major_in_range(bounds.0 as int, bounds.1 as int, pixel.0 as int, pixel.1 as int);
    }
    pixel.1 * bounds.0 + pixel.0
}

/// Overwrite `pixels` with the rasterisation of `counts`: the buffer has one
/// byte per pixel, row-major, and every cell holds exactly the intensity of
/// its own pixel's escape count.
pub fn render(pixels: &mut Vec<u8>, bounds: (usize, usize), counts: &Vec<Option<usize>>)
    requires
        old(pixels).len() == bounds.0 * bounds.1,
        counts.len() == bounds.0 * bounds.1,
    ensures
        final(pixels)@.len() == counts@.len(),
        forall|k: int| 0 <= k < counts@.len() ==> final(pixels)@[k] == intensity_spec(counts@[k]),
        forall|x: int, y: int|
            0 <= x < bounds.0 && 0 <= y < bounds.1 ==> final(pixels)@[#[trigger] row_major_index(
                bounds.0 as int,
                x,
                y,
            )] == intensity_spec(counts@[row_major_index(bounds.0 as int, x, y)]),
{
    let w = bounds.0;
    let h = bounds.1;
    let mut out: Vec<u8> = Vec::new();
    let mut y: usize = 0;
    while y < h
        invariant
            y <= h,
            counts.len() == w * h,
            out@.len() == y * w,
            forall|k: int| 0 <= k < out@.len() ==> out@[k] == intensity_spec(counts@[k]),
        decreases h - y,
    {
        let mut x: usize = 0;
        while x < w
            invariant
                x <= w,
                y < h,
                counts.len() == w * h,
                out@.len() == y * w + x,
                forall|k: int| 0 <= k < out@.len() ==> out@[k] == intensity_spec(counts@[k]),
            decreases w - x,
        {
            proof {
                lemma_row_major_in_range(w as int, h as int, x as int, y as int);
            }
            let idx = out.len();
            let v = intensity(counts[idx]);
            out.push(v);
            x = x + 1;
        }
        proof {
            assert((y + 1) * w == y * w + w) by (nonlinear_arith);
        }
        y = y + 1;
    }
    proof {
        assert(h * w == w * h) by (nonlinear_arith);
    }
    *pixels = out;
    proof {
        assert forall|x: int, y: int| 0 <= x < bounds.0 && 0 <= y < bounds.1 implies pixels@[
        #[trigger] row_major_index(bounds.0 as int, x, y)] == intensity_spec(
            counts@[row_major_index(bounds.0 as int, x, y)],
        ) by {
            lemma_row_major_in_range(bounds.0 as int, bounds.1 as int, x, y);
        }
    }
}

/// Rendering is deterministic: any two buffers that rasterise the same
/// counts, cell for cell, are byte-identical.
pub proof fn lemma_render_deterministic(counts: Seq<Option<usize>>, p1: Seq<u8>, p2: Seq<u8>)
    requires
        p1.len() == counts.len(),
        p2.len() == counts.len(),
        forall|k: int| 0 <= k < counts.len() ==> p1[k] == intensity_spec(counts[k]),
        forall|k: int| 0 <= k < counts.len() ==> p2[k] == intensity_spec(counts[k]),
    ensures
        p1 == p2,
{
    assert(p1 =~= p2);
}

} // verus!
