//! The accumulation raster: a persistent surface that particles are painted
//! onto frame after frame without clearing, so that their paths stay
//! visible as trails.
//!
//! Pixel `(col, row)` covers the canvas square whose lower-left corner is
//! `(origin_x + col, origin_y + row)`; rows count upwards from the bottom
//! edge and are stored row-major.

use vstd::prelude::*;
use crate::fixed::{floor_div, UNIT};
use crate::grid::Region;

verus! {

/// An opaque colour with 8-bit channels.
#[derive(Clone, Copy, PartialEq, Eq, Debug)]
pub struct Rgb {
    pub r: u8,
    pub g: u8,
    pub b: u8,
}

/// The raster; a `None` pixel is still clear.
pub struct AccumulationBuffer {
    pub width: usize,
    pub height: usize,
    pub origin_x: i32,
    pub origin_y: i32,
    pub pixels: Vec<Option<Rgb>>,
}

/// Whether a raster of `region`'s size can be indexed by `usize`.
pub open spec fn raster_fits(region: Region) -> bool {
    region.width as int * region.height as int <= usize::MAX
}

/// `pixels` (rows of `width`) with every pixel whose column lies in
/// `[c0, c1)` and whose row lies in `[r0, r1)` set to `color`.
pub open spec fn paint_rect(
    pixels: Seq<Option<Rgb>>,
    width: int,
    c0: int,
    c1: int,
    r0: int,
    r1: int,
    color: Rgb,
) -> Seq<Option<Rgb>> {
    Seq::new(
        pixels.len(),
        |k: int|
            if c0 <= k % width < c1 && r0 <= k / width < r1 {
                Some(color)
            } else {
                pixels[k]
            },
    )
}

/// The half-open range of pixel indices, along one axis with the raster
/// starting at canvas unit `origin`, that a square of edge `size` centred
/// at `center` overlaps (both in millionths of a canvas unit). The square
/// spans `[center - size / 2, center - size / 2 + size)`.
pub open spec fn square_span(center: int, size: int, origin: int) -> (int, int) {
    let lo = center - size / 2;
    if size <= 0 {
        (0, 0)
    } else {
        (lo / (UNIT as int) - origin, (lo + size - 1) / (UNIT as int) + 1 - origin)
    }
}

/// `pixels` with the square of edge `size` centred at `(x, y)` painted.
pub open spec fn paint_square(
    pixels: Seq<Option<Rgb>>,
    width: int,
    origin_x: int,
    origin_y: int,
    x: int,
    y: int,
    size: int,
    color: Rgb,
) -> Seq<Option<Rgb>> {
    let (c0, c1) = square_span(x, size, origin_x);
    let (r0, r1) = square_span(y, size, origin_y);
    paint_rect(pixels, width, c0, c1, r0, r1, color)
}

proof fn lemma_index_split(k: int, w: int, h: int)
    requires
        0 <= k < w * h,
        w >= 0,
    ensures
        w > 0,
        0 <= k % w < w,
        0 <= k / w < h,
        w * (k / w) + k % w == k,
{
    assert(w > 0) by (nonlinear_arith)
        requires
            0 <= k < w * h,
            w >= 0,
    ;
    vstd::arithmetic::div_mod::lemma_fundamental_div_mod(k, w);
    assert(0 <= k / w < h) by (nonlinear_arith)
        requires
            0 <= k < w * h,
            w * (k / w) + k % w == k,
            0 <= k % w < w,
    ;
}

proof fn lemma_index_join(c: int, r: int, w: int)
    requires
        0 <= c < w,
        0 <= r,
    ensures
        (r * w + c) % w == c,
        (r * w + c) / w == r,
{
    vstd::arithmetic::div_mod::lemma_fundamental_div_mod_converse(r * w + c, w, r, c);
}

/// Clips `v` into `[0, bound]`.
fn clip(v: i128, bound: usize) -> (r: usize)
    ensures
        0 <= r <= bound,
        v <= 0 ==> r == 0,
        v >= bound ==> r == bound,
        0 <= v <= bound ==> r == v,
{
    if v <= 0 {
        0
    } else if v >= bound as i128 {
        bound
    } else {
        v as usize
    }
}

impl AccumulationBuffer {
    /// One pixel per cell of the raster.
    pub open spec fn wf(&self) -> bool {
        self.pixels.len() == self.width * self.height
    }

    /// Whether the raster has the size and placement of `region`.
    pub open spec fn matches(&self, region: Region) -> bool {
        &&& self.width == region.width
        &&& self.height == region.height
        &&& self.origin_x == region.left
        &&& self.origin_y == region.bottom
    }

    /// A clear raster covering `region`.
    pub fn new(region: &Region) -> (r: Self)
        requires
            region.wf(),
            raster_fits(*region),
        ensures
            r.wf(),
            r.matches(*region),
            forall|k: int| 0 <= k < r.pixels.len() ==> r.pixels[k] is None,
    {
        let width = region.width as usize;
        let height = region.height as usize;
        let total = width * height;
        let mut pixels: Vec<Option<Rgb>> = Vec::new();
        let mut k: usize = 0;
        while k < total
            invariant
                k <= total,
                pixels.len() == k,
                forall|m: int| 0 <= m < k ==> pixels[m] is None,
            decreases total - k,
        {
            pixels.push(None);
            k = k + 1;
        }
        AccumulationBuffer { width, height, origin_x: region.left, origin_y: region.bottom, pixels }
    }

    /// Replaces the raster with a clear one covering `region`.
    pub fn reset(&mut self, region: &Region)
        requires
            region.wf(),
            raster_fits(*region),
        ensures
            final(self).wf(),
            final(self).matches(*region),
            forall|k: int| 0 <= k < final(self).pixels.len() ==> final(self).pixels[k] is None,
    {
        *self = AccumulationBuffer::new(region);
    }

    /// The pixel at `(col, row)`.
    pub fn pixel(&self, col: usize, row: usize) -> (r: Option<Rgb>)
        requires
            self.wf(),
            col < self.width,
            row < self.height,
        ensures
            r == self.pixels[row * self.width + col],
    {
        proof {
            assert(row * self.width + col < self.width * self.height) by (nonlinear_arith)
                requires
                    col < self.width,
                    row < self.height,
            ;
        }
        self.pixels[row * self.width + col]
    }

    /// Paints the pixels with columns in `[c0, c1)` and rows in `[r0, r1)`.
    fn fill_rect(&mut self, c0: usize, c1: usize, r0: usize, r1: usize, color: Rgb)
        requires
            old(self).wf(),
            c0 <= c1 <= old(self).width,
            r0 <= r1 <= old(self).height,
        ensures
            final(self).wf(),
            final(self).width == old(self).width,
            final(self).height == old(self).height,
            final(self).origin_x == old(self).origin_x,
            final(self).origin_y == old(self).origin_y,
            final(self).pixels@ == paint_rect(
                old(self).pixels@,
                old(self).width as int,
                c0 as int,
                c1 as int,
                r0 as int,
                r1 as int,
                color,
            ),
    {
        let ghost before = self.pixels@;
        let w = self.width;
        let ghost h = self.height as int;
        let mut r = r0;
        while r < r1
            invariant
                self.wf(),
                self.width == w,
                self.height == h,
                self.origin_x == old(self).origin_x,
                self.origin_y == old(self).origin_y,
                before.len() == self.pixels.len(),
                c0 <= c1 <= w,
                r0 <= r <= r1 <= h,
                forall|k: int|
                    0 <= k < before.len() ==> #[trigger] self.pixels[k] == (if c0 <= k % (w as int) < c1 && r0
                        <= k / (w as int) < r {
                        Some(color)
                    } else {
                        before[k]
                    }),
            decreases r1 - r,
        {
            let mut c = c0;
            while c < c1
                invariant
                    self.wf(),
                    self.width == w,
                    self.height == h,
                    self.origin_x == old(self).origin_x,
                    self.origin_y == old(self).origin_y,
                    before.len() == self.pixels.len(),
                    c0 <= c <= c1 <= w,
                    r0 <= r < r1 <= h,
                    forall|k: int|
                        0 <= k < before.len() ==> #[trigger] self.pixels[k] == (if (c0 <= k % (w as int) < c1
                            && r0 <= k / (w as int) < r) || (k / (w as int) == r && c0 <= k % (w as int)
                            < c) {
                            Some(color)
                        } else {
                            before[k]
                        }),
                decreases c1 - c,
            {
                proof {
                    lemma_index_join(c as int, r as int, w as int);
                    assert(r * w + c < w * h) by (nonlinear_arith)
                        requires
                            c < w,
                            r < h,
                    ;
                }
                let idx = r * w + c;
                self.pixels.set(idx, Some(color));
                proof {
                    assert forall|k: int| 0 <= k < before.len() implies #[trigger] self.pixels[k] == (if (c0
                        <= k % (w as int) < c1 && r0 <= k / (w as int) < r) || (k / (w as int) == r && c0
                        <= k % (w as int) < c + 1) {
                        Some(color)
                    } else {
                        before[k]
                    }) by {
                        lemma_index_split(k, w as int, h);
                        if k != idx {
                            if k / (w as int) == r && k % (w as int) == c {
                                let (q, m) = (k / (w as int), k % (w as int));
                                assert(k == r * w + c) by (nonlinear_arith)
                                    requires
                                        (w as int) * q + m == k,
                                        q == r,
                                        m == c,
                                ;
                            }
                        }
                    }
                }
                c = c + 1;
            }
            r = r + 1;
        }
        assert(self.pixels@ =~= paint_rect(before, w as int, c0 as int, c1 as int, r0 as int, r1 as int, color));
    }

    /// Paints the square of edge `size` centred at `(x, y)` (all in
    /// millionths of a canvas unit), clipped to the raster; the pixels
    /// outside it keep what they hold.
    pub fn fill_square(&mut self, x: i64, y: i64, size: i32, color: Rgb)
        requires
            old(self).wf(),
        ensures
            final(self).wf(),
            final(self).width == old(self).width,
            final(self).height == old(self).height,
            final(self).origin_x == old(self).origin_x,
            final(self).origin_y == old(self).origin_y,
            final(self).pixels@ == paint_square(
                old(self).pixels@,
                old(self).width as int,
                old(self).origin_x as int,
                old(self).origin_y as int,
                x as int,
                y as int,
                size as int,
                color,
            ),
    {
        if size <= 0 {
            assert(self.pixels@ =~= paint_square(
                self.pixels@,
                self.width as int,
                self.origin_x as int,
                self.origin_y as int,
                x as int,
                y as int,
                size as int,
                color,
            ));
            return;
        }
        let ghost before = self.pixels@;
        let half: i128 = (size / 2) as i128;
        let lo_x: i128 = x as i128 - half;
        let lo_y: i128 = y as i128 - half;
        let u: i128 = UNIT as i128;
        let c0 = floor_div(lo_x, u) - self.origin_x as i128;
        let c1 = floor_div(lo_x + size as i128 - 1, u) + 1 - self.origin_x as i128;
        let r0 = floor_div(lo_y, u) - self.origin_y as i128;
        let r1 = floor_div(lo_y + size as i128 - 1, u) + 1 - self.origin_y as i128;
        let cc0 = clip(c0, self.width);
        let cc1 = clip(c1, self.width);
        let rr0 = clip(r0, self.height);
        let rr1 = clip(r1, self.height);
        let cc1 = if cc1 < cc0 { cc0 } else { cc1 };
        let rr1 = if rr1 < rr0 { rr0 } else { rr1 };
        let ghost w = self.width as int;
        let ghost h = self.height as int;
        self.fill_rect(cc0, cc1, rr0, rr1, color);
        proof {
            let target = paint_square(
                before,
                w,
                self.origin_x as int,
                self.origin_y as int,
                x as int,
                y as int,
                size as int,
                color,
            );
            assert forall|k: int| 0 <= k < before.len() implies #[trigger] self.pixels@[k] == target[k] by {
                lemma_index_split(k, w, h);
            }
            assert(self.pixels@ =~= target);
        }
    }
}

} // verus!
