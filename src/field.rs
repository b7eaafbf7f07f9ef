//! The live overlay drawn from the angle grid: a heatmap cell and an arrow
//! per grid cell. Coordinates and lengths are in millionths of a canvas
//! unit, angles in millionths of a radian.

use vstd::prelude::*;
use crate::fixed::{floor_div, UNIT};
use crate::grid::{cells_along, AngleGrid, Region};

verus! {

/// `2 * pi` in millionths of a radian.
pub const TWO_PI: i64 = 6_283_185;

/// A full turn of hue in thousandths of a degree.
pub const FULL_HUE: i64 = 360_000;

/// How a heatmap cell is coloured from its angle.
#[derive(Clone, Copy, PartialEq, Eq, Debug)]
pub enum ColorMode {
    /// Luminance `(cos(angle) + 1) / 2`.
    Gray,
    /// Hue proportional to the angle, one full turn per `2 * pi`.
    Hue,
}

/// The colour of a heatmap cell, as far as integers can state it.
#[derive(Clone, Copy, PartialEq, Eq, Debug)]
pub enum Shade {
    /// Gray whose luminance is `(cos(angle) + 1) / 2`.
    Gray { angle: i64 },
    /// Fully saturated, full-value colour of this hue, in thousandths of a
    /// degree within `[0, 360000)`.
    Hue { millidegrees: i64 },
}

/// A filled square of the heatmap.
#[derive(Clone, Copy, PartialEq, Eq, Debug)]
pub struct HeatCell {
    pub center_x: i64,
    pub center_y: i64,
    pub size: i64,
    pub shade: Shade,
}

/// An arrow centred on a grid point, pointing along `angle`.
#[derive(Clone, Copy, PartialEq, Eq, Debug)]
pub struct Arrow {
    pub center_x: i64,
    pub center_y: i64,
    pub length: i64,
    pub angle: i64,
}

/// What the overlay draws: heatmap cells first, arrows above them.
pub struct FieldLayer {
    pub cells: Vec<HeatCell>,
    pub arrows: Vec<Arrow>,
}

/// The hue of an angle: `angle / (2 * pi)` of a full turn, wrapped into
/// `[0, 360000)` thousandths of a degree.
pub open spec fn hue_spec(angle: i64) -> int {
    ((angle as int * FULL_HUE as int) / (TWO_PI as int)) % (FULL_HUE as int)
}

/// Arrow length for cells of edge `step`: two units shorter than the cell,
/// and never negative.
pub open spec fn arrow_length_spec(step: i32) -> int {
    if step >= 2 {
        (step - 2) * UNIT
    } else {
        0
    }
}

/// The heatmap cell of grid cell `(i, j)`: a square of edge `step` whose
/// lower-left corner is the cell's grid point.
pub open spec fn heat_cell_spec(region: Region, step: i32, i: int, j: int, angle: i64, mode: ColorMode) -> HeatCell {
    HeatCell {
        center_x: ((region.left + i * step) * UNIT + step * UNIT / 2) as i64,
        center_y: ((region.bottom + j * step) * UNIT + step * UNIT / 2) as i64,
        size: (step * UNIT) as i64,
        shade: match mode {
            ColorMode::Gray => Shade::Gray { angle },
            ColorMode::Hue => Shade::Hue { millidegrees: hue_spec(angle) as i64 },
        },
    }
}

/// The arrow of grid cell `(i, j)`, centred on its grid point.
pub open spec fn arrow_spec(region: Region, step: i32, i: int, j: int, angle: i64) -> Arrow {
    Arrow {
        center_x: ((region.left + i * step) * UNIT) as i64,
        center_y: ((region.bottom + j * step) * UNIT) as i64,
        length: arrow_length_spec(step) as i64,
        angle,
    }
}

/// The hue of an angle, in thousandths of a degree.
pub fn hue_of(angle: i64) -> (r: i64)
    ensures
        r == hue_spec(angle),
        0 <= r < FULL_HUE,
{
    assert(-0x10_0000_0000_0000_0000_0000 <= angle * FULL_HUE <= 0x10_0000_0000_0000_0000_0000) by (nonlinear_arith)
        requires
            -0x8000_0000_0000_0000 <= angle < 0x8000_0000_0000_0000,
            FULL_HUE == 360_000,
    ;
    let a: i128 = angle as i128 * FULL_HUE as i128;
    let q = floor_div(a, TWO_PI as i128);
    proof {
        vstd::arithmetic::div_mod::lemma_fundamental_div_mod(a as int, TWO_PI as int);
        let r = (a as int) % (TWO_PI as int);
        assert(-0x10_0000_0000_0000_0000_0000 <= q <= 0x10_0000_0000_0000_0000_0000) by (nonlinear_arith)
            requires
                TWO_PI * q + r == a,
                0 <= r < TWO_PI,
                TWO_PI == 6_283_185,
                -0x10_0000_0000_0000_0000_0000 <= a <= 0x10_0000_0000_0000_0000_0000,
        ;
    }
    let turns = floor_div(q, FULL_HUE as i128);
    proof {
        vstd::arithmetic::div_mod::lemma_fundamental_div_mod(q as int, FULL_HUE as int);
        let r = (q as int) % (FULL_HUE as int);
        assert(-0x10_0000_0000_0000_0000_0000 - FULL_HUE <= turns * FULL_HUE <= 0x10_0000_0000_0000_0000_0000) by (nonlinear_arith)
            requires
                FULL_HUE == 360_000,
                FULL_HUE * turns + r == q,
                0 <= r < FULL_HUE,
                -0x10_0000_0000_0000_0000_0000 <= q <= 0x10_0000_0000_0000_0000_0000,
        ;
    }
    (q - turns * FULL_HUE as i128) as i64
}

/// Arrow length for cells of edge `step`.
pub fn arrow_length(step: i32) -> (r: i64)
    ensures
        r == arrow_length_spec(step),
{
    if step >= 2 {
        (step as i64 - 2) * UNIT
    } else {
        0
    }
}

/// The overlay for `grid`, sampled over `region` with cell edge `step`:
/// one heatmap cell per grid cell when `show_values`, one arrow per grid
/// cell when `show_arrows`, both in the grid's row-major order.
pub fn field_layer(
    region: &Region,
    step: i32,
    grid: &AngleGrid,
    show_values: bool,
    show_arrows: bool,
    mode: ColorMode,
) -> (r: FieldLayer)
    requires
        region.wf(),
        step >= 1,
        grid.wf(),
        grid.columns == cells_along(region.width as int, step as int),
        grid.rows == cells_along(region.height as int, step as int),
    ensures
        r.cells.len() == (if show_values { grid.angles.len() as int } else { 0 }),
        r.arrows.len() == (if show_arrows { grid.angles.len() as int } else { 0 }),
        forall|k: int|
            0 <= k < r.cells.len() ==> #[trigger] r.cells[k] == heat_cell_spec(
                *region,
                step,
                k % (grid.columns as int),
                k / (grid.columns as int),
                grid.angles[k],
                mode,
            ),
        forall|k: int|
            0 <= k < r.arrows.len() ==> #[trigger] r.arrows[k] == arrow_spec(
                *region,
                step,
                k % (grid.columns as int),
                k / (grid.columns as int),
                grid.angles[k],
            ),
{
    let columns = grid.columns;
    let total = grid.angles.len();
    let length = arrow_length(step);
    let mut cells: Vec<HeatCell> = Vec::new();
    let mut arrows: Vec<Arrow> = Vec::new();
    let mut k: usize = 0;
    while k < total
        invariant
            region.wf(),
            step >= 1,
            grid.wf(),
            columns == grid.columns,
            total == grid.angles.len(),
            columns == cells_along(region.width as int, step as int),
            grid.rows == cells_along(region.height as int, step as int),
            length == arrow_length_spec(step),
            k <= total,
            cells.len() == (if show_values { k as int } else { 0 }),
            arrows.len() == (if show_arrows { k as int } else { 0 }),
            forall|m: int|
                0 <= m < cells.len() ==> #[trigger] cells[m] == heat_cell_spec(
                    *region,
                    step,
                    m % (columns as int),
                    m / (columns as int),
                    grid.angles[m],
                    mode,
                ),
            forall|m: int|
                0 <= m < arrows.len() ==> #[trigger] arrows[m] == arrow_spec(
                    *region,
                    step,
                    m % (columns as int),
                    m / (columns as int),
                    grid.angles[m],
                ),
        decreases total - k,
    {
        let i = k % columns;
        let j = k / columns;
        let angle = grid.angles[k];
        proof {
            let w = region.width as int;
            let h = region.height as int;
            let st = step as int;
            vstd::arithmetic::div_mod::lemma_fundamental_div_mod(w, st);
            vstd::arithmetic::div_mod::lemma_fundamental_div_mod(h, st);
            vstd::arithmetic::div_mod::lemma_fundamental_div_mod(k as int, columns as int);
            assert(j < grid.rows) by (nonlinear_arith)
                requires
                    k < columns * grid.rows,
                    columns * j + (k % columns) == k,
                    0 <= k % columns,
                    columns > 0,
                    j >= 0,
                    i == k % columns,
            ;
            assert(0 <= i as int * st <= w) by (nonlinear_arith)
                requires
                    i < columns,
                    columns == w / st + 1,
                    st * (w / st) + w % st == w,
                    0 <= w % st,
                    st >= 1,
                    i >= 0,
            ;
            assert(0 <= j as int * st <= h) by (nonlinear_arith)
                requires
                    j < grid.rows,
                    grid.rows == h / st + 1,
                    st * (h / st) + h % st == h,
                    0 <= h % st,
                    st >= 1,
                    j >= 0,
            ;
            assert(-0x1_0000_0000 * UNIT <= (region.left + i as int * st) * UNIT <= 0x1_0000_0000 * UNIT)
                by (nonlinear_arith)
                requires
                    -0x8000_0000 <= region.left < 0x8000_0000,
                    0 <= i as int * st <= w < 0x8000_0000,
            ;
            assert(-0x1_0000_0000 * UNIT <= (region.bottom + j as int * st) * UNIT <= 0x1_0000_0000 * UNIT)
                by (nonlinear_arith)
                requires
                    -0x8000_0000 <= region.bottom < 0x8000_0000,
                    0 <= j as int * st <= h < 0x8000_0000,
            ;
        }
        let x: i64 = (region.left as i64 + i as i64 * step as i64) * UNIT;
        let y: i64 = (region.bottom as i64 + j as i64 * step as i64) * UNIT;
        let size: i64 = step as i64 * UNIT;
        if show_values {
            let shade = match mode {
                ColorMode::Gray => Shade::Gray { angle },
                ColorMode::Hue => Shade::Hue { millidegrees: hue_of(angle) },
            };
            cells.push(HeatCell { center_x: x + size / 2, center_y: y + size / 2, size, shade });
        }
        if show_arrows {
            arrows.push(Arrow { center_x: x, center_y: y, length, angle });
        }
        k = k + 1;
    }
    FieldLayer { cells, arrows }
}

} // verus!
