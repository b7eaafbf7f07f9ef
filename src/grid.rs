//! The canvas region, the noise coordinates of canvas points, and the angle
//! grid sampled from the noise field.
//!
//! A canvas point at `(px, py)` (in millionths of a canvas unit) is sampled
//! at noise coordinates `((right - px) / width * frequency, (top - py) /
//! height * frequency, t)`: its distance to the region's right and top edges
//! over the region's extent, scaled by the frequency. Grid cells and
//! particles use this same convention.

use vstd::prelude::*;
use crate::fixed::{clamp_i64, fixed_product, floor_div, mul_fixed, saturate_i64, small_i128, UNIT};

verus! {

/// A canvas rectangle in whole canvas units.
#[derive(Clone, Copy, PartialEq, Eq, Debug)]
pub struct Region {
    pub left: i32,
    pub bottom: i32,
    pub width: i32,
    pub height: i32,
}

/// A point of the noise field's domain, in millionths.
#[derive(Clone, Copy, PartialEq, Eq, Debug)]
pub struct NoisePoint {
    pub x: i64,
    pub y: i64,
    pub z: i64,
}

impl Region {
    /// A region has a positive extent on both axes.
    pub open spec fn wf(self) -> bool {
        self.width >= 1 && self.height >= 1
    }

    pub open spec fn right(self) -> int {
        self.left + self.width
    }

    pub open spec fn top(self) -> int {
        self.bottom + self.height
    }
}

/// One normalized noise coordinate: `dist * frequency / extent`, where
/// `dist` is in millionths of a canvas unit and `extent` in canvas units.
pub open spec fn normalized(dist: int, extent: int, frequency: int) -> int {
    clamp_i64((dist * frequency) / (extent * UNIT))
}

/// The noise point sampled for the canvas point `(px, py)` at time `t`.
pub open spec fn sample_point(region: Region, frequency: i32, t: i64, px: int, py: int) -> NoisePoint {
    NoisePoint {
        x: normalized(region.right() * UNIT - px, region.width as int, frequency as int) as i64,
        y: normalized(region.top() * UNIT - py, region.height as int, frequency as int) as i64,
        z: t,
    }
}

/// Number of cells along an axis of length `extent` with cell edge `step`.
pub open spec fn cells_along(extent: int, step: int) -> int {
    extent / step + 1
}

/// The noise point of grid cell `(i, j)`: the canvas point
/// `(left + i * step, bottom + j * step)`.
pub open spec fn cell_point(region: Region, step: i32, frequency: i32, t: i64, i: int, j: int) -> NoisePoint {
    sample_point(
        region,
        frequency,
        t,
        (region.left + i * step) * UNIT,
        (region.bottom + j * step) * UNIT,
    )
}

/// The heading angle, in millionths of a radian, for a noise sample in
/// millionths: `sample * max_angle`, with no offset.
pub open spec fn scale_angle(sample: i32, max_angle: i32) -> int {
    fixed_product(sample, max_angle)
}

fn normalize(dist: i128, extent: i32, frequency: i32) -> (r: i64)
    requires
        extent >= 1,
        -0x4_0000_0000_0000_0000 < dist < 0x4_0000_0000_0000_0000,
    ensures
        r == normalized(dist as int, extent as int, frequency as int),
{
    assert(-0x4_0000_0000_0000_0000 * 0x8000_0000 <= dist * frequency <= 0x4_0000_0000_0000_0000 * 0x8000_0000) by (nonlinear_arith)
        requires
            -0x4_0000_0000_0000_0000 < dist < 0x4_0000_0000_0000_0000,
            -0x8000_0000 <= frequency < 0x8000_0000,
    ;
    assert(0 < extent * UNIT <= 0x8000_0000 * UNIT) by (nonlinear_arith)
        requires
            1 <= extent < 0x8000_0000,
    ;
    let num: i128 = dist * (frequency as i128);
    let den: i128 = (extent as i128) * (UNIT as i128);
    assert(small_i128(num as int)) by (nonlinear_arith)
        requires
            num == dist * frequency,
            -0x4_0000_0000_0000_0000 < dist < 0x4_0000_0000_0000_0000,
            -0x8000_0000 <= frequency < 0x8000_0000,
    ;
    saturate_i64(floor_div(num, den))
}

/// The noise point sampled for the canvas point `(px, py)` at time `t`.
pub fn point_at(region: &Region, frequency: i32, t: i64, px: i64, py: i64) -> (r: NoisePoint)
    requires
        region.wf(),
    ensures
        r == sample_point(*region, frequency, t, px as int, py as int),
{
    assert(-0x1_0000_0000 * UNIT <= (region.left + region.width) * UNIT <= 0x1_0000_0000 * UNIT) by (nonlinear_arith)
        requires
            -0x8000_0000 <= region.left < 0x8000_0000,
            -0x8000_0000 <= region.width < 0x8000_0000,
    ;
    assert(-0x1_0000_0000 * UNIT <= (region.bottom + region.height) * UNIT <= 0x1_0000_0000 * UNIT) by (nonlinear_arith)
        requires
            -0x8000_0000 <= region.bottom < 0x8000_0000,
            -0x8000_0000 <= region.height < 0x8000_0000,
    ;
    let right: i128 = (region.left as i128 + region.width as i128) * (UNIT as i128);
    let top: i128 = (region.bottom as i128 + region.height as i128) * (UNIT as i128);
    NoisePoint {
        x: normalize(right - px as i128, region.width, frequency),
        y: normalize(top - py as i128, region.height, frequency),
        z: t,
    }
}

/// Number of cells along an axis of length `extent`: `extent / step + 1`.
pub fn cell_count(extent: i32, step: i32) -> (r: usize)
    requires
        extent >= 1,
        step >= 1,
    ensures
        r == cells_along(extent as int, step as int),
{
    (extent / step) as usize + 1
}

/// The heading angle for a noise sample: `sample * max_angle`.
pub fn angle_of(sample: i32, max_angle: i32) -> (r: i64)
    ensures
        r == scale_angle(sample, max_angle),
{
    mul_fixed(sample, max_angle)
}

/// Heading angles of a sequence of noise samples, one for one.
pub fn angles_of(samples: &Vec<i32>, max_angle: i32) -> (r: Vec<i64>)
    ensures
        r.len() == samples.len(),
        forall|k: int| 0 <= k < samples.len() ==> r[k] == scale_angle(#[trigger] samples[k], max_angle),
{
    let mut r: Vec<i64> = Vec::new();
    let mut k: usize = 0;
    while k < samples.len()
        invariant
            k <= samples.len(),
            r.len() == k,
            forall|m: int| 0 <= m < k ==> r[m] == scale_angle(#[trigger] samples[m], max_angle),
        decreases samples.len() - k,
    {
        r.push(angle_of(samples[k], max_angle));
        k = k + 1;
    }
    r
}

/// Whether a `columns` by `rows` grid can be indexed by `usize`.
pub open spec fn grid_fits(region: Region, step: i32) -> bool {
    cells_along(region.width as int, step as int) * cells_along(region.height as int, step as int)
        <= usize::MAX
}

/// The noise points of all cells of the grid over `region` with cell edge
/// `step`, row-major: index `k` holds cell `(k % columns, k / columns)`.
pub fn grid_points(region: &Region, step: i32, frequency: i32, t: i64) -> (r: Vec<NoisePoint>)
    requires
        region.wf(),
        step >= 1,
        grid_fits(*region, step),
    ensures
        r.len() == cells_along(region.width as int, step as int) * cells_along(
            region.height as int,
            step as int,
        ),
        forall|k: int|
            0 <= k < r.len() ==> #[trigger] r[k] == cell_point(
                *region,
                step,
                frequency,
                t,
                k % cells_along(region.width as int, step as int),
                k / cells_along(region.width as int, step as int),
            ),
{
    let columns = cell_count(region.width, step);
    let rows = cell_count(region.height, step);
    let total = columns * rows;
    let mut r: Vec<NoisePoint> = Vec::new();
    let mut k: usize = 0;
    while k < total
        invariant
            region.wf(),
            step >= 1,
            columns == cells_along(region.width as int, step as int),
            rows == cells_along(region.height as int, step as int),
            total == columns * rows,
            k <= total,
            r.len() == k,
            forall|m: int|
                0 <= m < k ==> #[trigger] r[m] == cell_point(
                    *region,
                    step,
                    frequency,
                    t,
                    m % (columns as int),
                    m / (columns as int),
                ),
        decreases total - k,
    {
        let i = k % columns;
        let j = k / columns;
        proof {
            let w = region.width as int;
            let h = region.height as int;
            let st = step as int;
            vstd::arithmetic::div_mod::lemma_fundamental_div_mod(w, st);
            vstd::arithmetic::div_mod::lemma_fundamental_div_mod(h, st);
            vstd::arithmetic::div_mod::lemma_fundamental_div_mod(k as int, columns as int);
            assert(j < rows) by (nonlinear_arith)
                requires
                    k < columns * rows,
                    columns * j + (k % columns) == k,
                    0 <= k % columns,
                    columns > 0,
                    j >= 0,
                    i == k % columns,
            ;
            assert(i as int * st <= w) by (nonlinear_arith)
                requires
                    i < columns,
                    columns == w / st + 1,
                    st * (w / st) + w % st == w,
                    0 <= w % st,
                    st >= 1,
                    i >= 0,
            ;
            assert(j as int * st <= h) by (nonlinear_arith)
                requires
                    j < rows,
                    rows == h / st + 1,
                    st * (h / st) + h % st == h,
                    0 <= h % st,
                    st >= 1,
                    j >= 0,
            ;
            assert(0 <= i as int * st && 0 <= j as int * st) by (nonlinear_arith)
                requires
                    i >= 0,
                    j >= 0,
                    st >= 1,
            ;
            assert(-0x1_0000_0000 * UNIT <= (region.left + i as int * st) * UNIT <= 0x1_0000_0000 * UNIT)
                by (nonlinear_arith)
                requires
                    -0x8000_0000 <= region.left < 0x8000_0000,
                    0 <= i as int * st <= w < 0x8000_0000,
            ;
            assert(-0x1_0000_0000 * UNIT <= (region.bottom + j as int * st) * UNIT <= 0x1_0000_0000 * UNIT)
                by (nonlinear_arith)
                requires
                    -0x8000_0000 <= region.bottom < 0x8000_0000,
                    0 <= j as int * st <= h < 0x8000_0000,
            ;
        }
        let px: i64 = (region.left as i64 + i as i64 * step as i64) * UNIT;
        let py: i64 = (region.bottom as i64 + j as i64 * step as i64) * UNIT;
        r.push(point_at(region, frequency, t, px, py));
        k = k + 1;
    }
    r
}

/// The angle grid: `columns * rows` heading angles in millionths of a
/// radian, row-major.
pub struct AngleGrid {
    pub columns: usize,
    pub rows: usize,
    pub angles: Vec<i64>,
}

impl AngleGrid {
    /// The angles hold one entry per cell.
    pub open spec fn wf(&self) -> bool {
        self.angles.len() == self.columns * self.rows
    }

    /// The grid over `region` with cell edge `step` whose cell `k` (in the
    /// order of `grid_points`) holds `samples[k] * max_angle`.
    pub fn from_samples(region: &Region, step: i32, samples: &Vec<i32>, max_angle: i32) -> (r: AngleGrid)
        requires
            region.wf(),
            step >= 1,
            samples.len() == cells_along(region.width as int, step as int) * cells_along(
                region.height as int,
                step as int,
            ),
        ensures
            r.wf(),
            r.columns == cells_along(region.width as int, step as int),
            r.rows == cells_along(region.height as int, step as int),
            forall|k: int| 0 <= k < r.angles.len() ==> r.angles[k] == scale_angle(#[trigger] samples[k], max_angle),
    {
        let columns = cell_count(region.width, step);
        let rows = cell_count(region.height, step);
        let angles = angles_of(samples, max_angle);
        AngleGrid { columns, rows, angles }
    }

    /// The angle of cell `(i, j)`.
    pub fn angle(&self, i: usize, j: usize) -> (r: i64)
        requires
            self.wf(),
            i < self.columns,
            j < self.rows,
        ensures
            r == self.angles[j * self.columns + i],
    {
        proof {
            assert(j * self.columns + i < self.columns * self.rows) by (nonlinear_arith)
                requires
                    i < self.columns,
                    j < self.rows,
            ;
        }
        self.angles[j * self.columns + i]
    }
}

/// With a zero maximum angle every heading is zero, whatever the samples:
/// the scaling is a plain product, with no offset.
pub proof fn lemma_zero_max_angle_is_flat(samples: Seq<i32>)
    ensures
        forall|k: int| 0 <= k < samples.len() ==> scale_angle(#[trigger] samples[k], 0) == 0,
{
}

} // verus!
