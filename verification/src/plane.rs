use vstd::prelude::*;
use vstd::arithmetic::mul::lemma_mul_is_distributive_add;
use vstd::arithmetic::mul::lemma_mul_is_distributive_add_other_way;
use vstd::arithmetic::mul::lemma_mul_is_commutative;
use vstd::arithmetic::div_mod::lemma_fundamental_div_mod_converse;
use crate::params::{FractalParams, FIXED_ONE, MAX_DIM};

verus! {

// The pixel grid is laid over a window of the complex plane. Horizontally the
// window spans [-(7/4)*zoom - mid_x, (7/4)*zoom - mid_x]; vertically the half
// extent scales further by the aspect ratio height/width. Pixel coordinates
// are spread by linear interpolation between the edges. Everything is exact:
// each coordinate is an integer numerator over a positive denominator fixed
// by the grid size, and the spec functions below give both.

/// Numerator of the window's left edge, over the denominator 4 * FIXED_ONE:
/// left = -(7/4) * zoom - mid_x.
pub open spec fn left_numer(zoom: int, mid_x: int) -> int {
    -7 * zoom - 4 * mid_x
}

/// Numerator of the window's right edge, over the denominator 4 * FIXED_ONE.
pub open spec fn right_numer(zoom: int, mid_x: int) -> int {
    7 * zoom - 4 * mid_x
}

/// Numerator of the window's top edge, over 4 * FIXED_ONE * width:
/// top = -(7/4) * zoom * (height / width) - mid_y.
pub open spec fn top_numer(zoom: int, mid_y: int, width: int, height: int) -> int {
    -7 * (zoom * height) - 4 * (mid_y * width)
}

/// Numerator of the window's bottom edge, over 4 * FIXED_ONE * width.
pub open spec fn bottom_numer(zoom: int, mid_y: int, width: int, height: int) -> int {
    7 * (zoom * height) - 4 * (mid_y * width)
}

/// Numerator of the x coordinate of pixel column `col`, over `x_denom(width)`:
/// x(col) = left + col * (right - left) / (width - 1).
pub open spec fn x_numer(zoom: int, mid_x: int, width: int, col: int) -> int {
    left_numer(zoom, mid_x) * (width - 1)
        + col * (right_numer(zoom, mid_x) - left_numer(zoom, mid_x))
}

/// Common positive denominator of every column's x numerator.
pub open spec fn x_denom(width: int) -> int {
    4 * FIXED_ONE * (width - 1)
}

/// Numerator of the y coordinate of pixel row `row`, over
/// `y_denom(width, height)`: y(row) = top + row * (bottom - top) / (height - 1).
pub open spec fn y_numer(zoom: int, mid_y: int, width: int, height: int, row: int) -> int {
    top_numer(zoom, mid_y, width, height) * (height - 1)
        + row * (bottom_numer(zoom, mid_y, width, height) - top_numer(zoom, mid_y, width, height))
}

/// Common positive denominator of every row's y numerator.
pub open spec fn y_denom(width: int, height: int) -> int {
    4 * FIXED_ONE * width * (height - 1)
}

impl FractalParams {
    /// x numerator of column `col` under these parameters.
    pub open spec fn x_numer_at(self, col: int) -> int {
        x_numer(self.zoom as int, self.mid_x as int, self.width as int, col)
    }

    /// y numerator of row `row` under these parameters.
    pub open spec fn y_numer_at(self, row: int) -> int {
        y_numer(self.zoom as int, self.mid_y as int, self.width as int, self.height as int, row)
    }
}

/// Every x numerator of a well-formed grid stays within 2^88, far inside
/// `i128`.
pub proof fn lemma_x_numer_fits(zoom: int, mid_x: int, width: int, col: int)
    requires
        -0x8000000000000000 <= zoom < 0x8000000000000000,
        -0x8000000000000000 <= mid_x < 0x8000000000000000,
        2 <= width <= MAX_DIM,
        0 <= col <= width,
    ensures
        -0x10000000000000000000000 <= x_numer(zoom, mid_x, width, col)
            <= 0x10000000000000000000000,
{
    let l = left_numer(zoom, mid_x);
    let s = right_numer(zoom, mid_x) - left_numer(zoom, mid_x);
    assert(-0x80000000000000000 <= l <= 0x80000000000000000);
    assert(-0x80000000000000000 <= s <= 0x80000000000000000);
    assert(-0x8000000000000000000000 <= l * (width - 1) <= 0x8000000000000000000000)
        by (nonlinear_arith)
        requires
            -0x80000000000000000 <= l <= 0x80000000000000000,
            0 <= width - 1 < 0x100000,
    ;
    assert(-0x8000000000000000000000 <= col * s <= 0x8000000000000000000000)
        by (nonlinear_arith)
        requires
            -0x80000000000000000 <= s <= 0x80000000000000000,
            0 <= col <= 0x100000,
    ;
}

/// Law: moving one column to the right advances the x numerator by the
/// constant step `right - left` (over `x_denom`); the column-to-coordinate
/// mapping is affine.
pub proof fn lemma_x_step(zoom: int, mid_x: int, width: int, col: int)
    ensures
        x_numer(zoom, mid_x, width, col + 1) == x_numer(zoom, mid_x, width, col)
            + (right_numer(zoom, mid_x) - left_numer(zoom, mid_x)),
{
    lemma_mul_is_distributive_add_other_way(
        right_numer(zoom, mid_x) - left_numer(zoom, mid_x),
        col,
        1,
    );
}

/// The exact x numerators of all `width` pixel columns, left to right.
#[verifier::loop_isolation(false)]
pub fn x_coordinates(p: &FractalParams) -> (xs: Vec<i128>)
    requires
        p.wf(),
    ensures
        xs@.len() == p.width,
        forall|c: int| 0 <= c < p.width ==> #[trigger] xs@[c] == p.x_numer_at(c),
{
    let ghost zi: int = p.zoom as int;
    let ghost mi: int = p.mid_x as int;
    let ghost wi: int = p.width as int;
    let zoom: i128 = p.zoom as i128;
    let mid_x: i128 = p.mid_x as i128;
    let wm1: i128 = (p.width - 1) as i128;
    let left_n: i128 = -7 * zoom - 4 * mid_x;
    let step: i128 = 14 * zoom;
    proof {
        assert(-0x8000000000000000000000 <= left_n * wm1 <= 0x8000000000000000000000)
            by (nonlinear_arith)
            requires
                -0x80000000000000000 <= left_n <= 0x80000000000000000,
                0 <= wm1 < 0x100000,
        ;
    }
    let mut xs: Vec<i128> = Vec::new();
    let mut cur: i128 = left_n * wm1;
    let mut col: u32 = 0;
    while col < p.width
        invariant
            col <= p.width,
            xs@.len() == col,
            cur == x_numer(zi, mi, wi, col as int),
            forall|c: int| 0 <= c < col ==> #[trigger] xs@[c] == p.x_numer_at(c),
        decreases p.width - col,
    {
        xs.push(cur);
        proof {
            lemma_x_step(zi, mi, wi, col as int);
            lemma_x_numer_fits(zi, mi, wi, col + 1);
        }
        cur = cur + step;
        col = col + 1;
    }
    xs
}

/// The positive denominator shared by all x numerators of a `width`-column
/// grid.
pub fn x_denominator(width: u32) -> (d: i128)
    requires
        2 <= width,
    ensures
        d == x_denom(width as int),
        d > 0,
{
    let wm1: i128 = (width - 1) as i128;
    proof {
        assert(0 < 4 * (FIXED_ONE as int) * wm1 < 0x1000000000000000000) by (nonlinear_arith)
            requires
                1 <= wm1 < 0x100000000,
                FIXED_ONE == 0x100000000,
        ;
    }
    4 * (FIXED_ONE as i128) * wm1
}

/// Every y numerator of a well-formed grid stays within 2^113, far inside
/// `i128`.
pub proof fn lemma_y_numer_fits(zoom: int, mid_y: int, width: int, height: int, row: int)
    requires
        -0x8000000000000000 <= zoom < 0x8000000000000000,
        -0x8000000000000000 <= mid_y < 0x8000000000000000,
        2 <= width <= MAX_DIM,
        2 <= height <= MAX_DIM,
        0 <= row <= height,
    ensures
        -0x20000000000000000000000000000 <= y_numer(zoom, mid_y, width, height, row)
            <= 0x20000000000000000000000000000,
{
    let t = top_numer(zoom, mid_y, width, height);
    let s = bottom_numer(zoom, mid_y, width, height) - t;
    assert(-0x800000000000000000000 <= zoom * height <= 0x800000000000000000000)
        by (nonlinear_arith)
        requires
            -0x8000000000000000 <= zoom < 0x8000000000000000,
            0 <= height <= 0x100000,
    ;
    assert(-0x800000000000000000000 <= mid_y * width <= 0x800000000000000000000)
        by (nonlinear_arith)
        requires
            -0x8000000000000000 <= mid_y < 0x8000000000000000,
            0 <= width <= 0x100000,
    ;
    assert(-0x8000000000000000000000000000 <= t * (height - 1) <= 0x8000000000000000000000000000)
        by (nonlinear_arith)
        requires
            -0x8000000000000000000000 <= t <= 0x8000000000000000000000,
            0 <= height - 1 < 0x100000,
    ;
    assert(-0x8000000000000000000000000000 <= row * s <= 0x8000000000000000000000000000)
        by (nonlinear_arith)
        requires
            -0x8000000000000000000000 <= s <= 0x8000000000000000000000,
            0 <= row <= 0x100000,
    ;
}

/// Law: moving one row down advances the y numerator by the constant step
/// `bottom - top` (over `y_denom`); the row-to-coordinate mapping is affine.
pub proof fn lemma_y_step(zoom: int, mid_y: int, width: int, height: int, row: int)
    ensures
        y_numer(zoom, mid_y, width, height, row + 1)
            == y_numer(zoom, mid_y, width, height, row)
            + (bottom_numer(zoom, mid_y, width, height) - top_numer(zoom, mid_y, width, height)),
{
    lemma_mul_is_distributive_add_other_way(
        bottom_numer(zoom, mid_y, width, height) - top_numer(zoom, mid_y, width, height),
        row,
        1,
    );
}

/// The exact y numerators of all `height` pixel rows, top to bottom.
#[verifier::loop_isolation(false)]
pub fn y_coordinates(p: &FractalParams) -> (ys: Vec<i128>)
    requires
        p.wf(),
    ensures
        ys@.len() == p.height,
        forall|r: int| 0 <= r < p.height ==> #[trigger] ys@[r] == p.y_numer_at(r),
{
    let ghost zi: int = p.zoom as int;
    let ghost mi: int = p.mid_y as int;
    let ghost wi: int = p.width as int;
    let ghost hi: int = p.height as int;
    let zoom: i128 = p.zoom as i128;
    let mid_y: i128 = p.mid_y as i128;
    let w: i128 = p.width as i128;
    let h: i128 = p.height as i128;
    let hm1: i128 = (p.height - 1) as i128;
    proof {
        assert(-0x800000000000000000000 <= zoom * h <= 0x800000000000000000000)
            by (nonlinear_arith)
            requires
                -0x8000000000000000 <= zoom < 0x8000000000000000,
                0 <= h <= 0x100000,
        ;
        assert(-0x800000000000000000000 <= mid_y * w <= 0x800000000000000000000)
            by (nonlinear_arith)
            requires
                -0x8000000000000000 <= mid_y < 0x8000000000000000,
                0 <= w <= 0x100000,
        ;
    }
    let zh: i128 = zoom * h;
    let mw: i128 = mid_y * w;
    proof {
        assert(-0x800000000000000000000 <= zh <= 0x800000000000000000000);
        assert(-0x800000000000000000000 <= mw <= 0x800000000000000000000);
    }
    let seven_zh: i128 = 7 * zh;
    let four_mw: i128 = 4 * mw;
    let top_n: i128 = -seven_zh - four_mw;
    let step: i128 = 2 * seven_zh;
    proof {
        assert(-0x8000000000000000000000000000 <= top_n * hm1 <= 0x8000000000000000000000000000)
            by (nonlinear_arith)
            requires
                -0x8000000000000000000000 <= top_n <= 0x8000000000000000000000,
                0 <= hm1 < 0x100000,
        ;
    }
    let mut ys: Vec<i128> = Vec::new();
    let mut cur: i128 = top_n * hm1;
    let mut row: u32 = 0;
    while row < p.height
        invariant
            row <= p.height,
            ys@.len() == row,
            cur == y_numer(zi, mi, wi, hi, row as int),
            forall|r: int| 0 <= r < row ==> #[trigger] ys@[r] == p.y_numer_at(r),
        decreases p.height - row,
    {
        ys.push(cur);
        proof {
            lemma_y_step(zi, mi, wi, hi, row as int);
            lemma_y_numer_fits(zi, mi, wi, hi, row + 1);
        }
        cur = cur + step;
        row = row + 1;
    }
    ys
}

/// The positive denominator shared by all y numerators of a grid.
pub fn y_denominator(width: u32, height: u32) -> (d: i128)
    requires
        2 <= width,
        2 <= height,
    ensures
        d == y_denom(width as int, height as int),
        d > 0,
{
    let w: i128 = width as i128;
    let hm1: i128 = (height - 1) as i128;
    proof {
        assert(0 < 4 * (FIXED_ONE as int) * w < 0x100000000000000000) by (nonlinear_arith)
            requires
                1 <= w < 0x100000000,
                FIXED_ONE == 0x100000000,
        ;
        assert(0 < 4 * (FIXED_ONE as int) * w * hm1 < 0x100000000000000000000000000)
            by (nonlinear_arith)
            requires
                0 < 4 * (FIXED_ONE as int) * w < 0x100000000000000000,
                1 <= hm1 < 0x100000000,
        ;
    }
    4 * (FIXED_ONE as i128) * w * hm1
}

/// The full flattened coordinate grids, exactly as the renderer uploads
/// them: entry `i` of the first vector is the x numerator of column
/// `i % width`, entry `i` of the second the y numerator of row `i / width`.
#[verifier::loop_isolation(false)]
pub fn coordinate_grid(p: &FractalParams) -> (grids: (Vec<i128>, Vec<i128>))
    requires
        p.wf(),
    ensures
        grids.0@.len() == p.width * p.height,
        grids.1@.len() == p.width * p.height,
        forall|i: int|
            0 <= i < grids.0@.len() ==> #[trigger] grids.0@[i] == p.x_numer_at(
                i % (p.width as int),
            ),
        forall|i: int|
            0 <= i < grids.1@.len() ==> #[trigger] grids.1@[i] == p.y_numer_at(
                i / (p.width as int),
            ),
{
    let ghost wi: int = p.width as int;
    let xs = x_coordinates(p);
    let ys = y_coordinates(p);
    let mut gx: Vec<i128> = Vec::new();
    let mut gy: Vec<i128> = Vec::new();
    let mut row: u32 = 0;
    while row < p.height
        invariant
            row <= p.height,
            gx@.len() == wi * row,
            gy@.len() == wi * row,
            forall|i: int| 0 <= i < gx@.len() ==> #[trigger] gx@[i] == p.x_numer_at(i % wi),
            forall|i: int| 0 <= i < gy@.len() ==> #[trigger] gy@[i] == p.y_numer_at(i / wi),
        decreases p.height - row,
    {
        let mut col: u32 = 0;
        while col < p.width
            invariant
                col <= p.width,
                row < p.height,
                gx@.len() == wi * row + col,
                gy@.len() == wi * row + col,
                forall|i: int| 0 <= i < gx@.len() ==> #[trigger] gx@[i] == p.x_numer_at(i % wi),
                forall|i: int| 0 <= i < gy@.len() ==> #[trigger] gy@[i] == p.y_numer_at(i / wi),
            decreases p.width - col,
        {
            proof {
                lemma_mul_is_commutative(wi, row as int);
                lemma_fundamental_div_mod_converse(
                    wi * (row as int) + (col as int),
                    wi,
                    row as int,
                    col as int,
                );
            }
            gx.push(xs[col as usize]);
            gy.push(ys[row as usize]);
            col = col + 1;
        }
        proof {
            lemma_mul_is_distributive_add(wi, row as int, 1);
        }
        row = row + 1;
    }
    (gx, gy)
}

/// Law: the leftmost column lies exactly on the window's left edge, and the
/// rightmost column exactly on its right edge.
pub proof fn lemma_x_endpoints(zoom: int, mid_x: int, width: int)
    requires
        2 <= width,
    ensures
        x_numer(zoom, mid_x, width, 0) == left_numer(zoom, mid_x) * (width - 1),
        x_numer(zoom, mid_x, width, width - 1) == right_numer(zoom, mid_x) * (width - 1),
{
    let l = left_numer(zoom, mid_x);
    let r = right_numer(zoom, mid_x);
    lemma_mul_is_commutative(width - 1, r - l);
    lemma_mul_is_distributive_add_other_way(width - 1, l, r - l);
}

/// Law: the topmost row lies exactly on the window's top edge, and the
/// bottom row exactly on its bottom edge.
pub proof fn lemma_y_endpoints(zoom: int, mid_y: int, width: int, height: int)
    requires
        2 <= height,
    ensures
        y_numer(zoom, mid_y, width, height, 0) == top_numer(zoom, mid_y, width, height) * (height
            - 1),
        y_numer(zoom, mid_y, width, height, height - 1) == bottom_numer(
            zoom,
            mid_y,
            width,
            height,
        ) * (height - 1),
{
    let t = top_numer(zoom, mid_y, width, height);
    let b = bottom_numer(zoom, mid_y, width, height);
    lemma_mul_is_commutative(height - 1, b - t);
    lemma_mul_is_distributive_add_other_way(height - 1, t, b - t);
}

/// Law: when the grid has an exact middle column (odd width), that column's
/// coordinate is exactly the negated horizontal midpoint, -mid_x / FIXED_ONE.
/// Stated as an equality of the two rationals in cross-multiplied form.
pub proof fn lemma_center_column(zoom: int, mid_x: int, width: int, col: int)
    requires
        2 <= width,
        2 * col == width - 1,
    ensures
        x_numer(zoom, mid_x, width, col) * FIXED_ONE == -mid_x * x_denom(width),
{
    assert(((-7 * zoom - 4 * mid_x) * (width - 1) + col * ((7 * zoom - 4 * mid_x) - (-7 * zoom - 4
        * mid_x))) * (FIXED_ONE as int) == -mid_x * (4 * FIXED_ONE * (width - 1)))
        by (nonlinear_arith)
        requires
            2 * col == width - 1,
    ;
}

/// Law: when the grid has an exact middle row (odd height), that row's
/// coordinate is exactly the negated vertical midpoint, -mid_y / FIXED_ONE.
/// Stated as an equality of the two rationals in cross-multiplied form.
pub proof fn lemma_center_row(zoom: int, mid_y: int, width: int, height: int, row: int)
    requires
        2 <= height,
        2 * row == height - 1,
    ensures
        y_numer(zoom, mid_y, width, height, row) * FIXED_ONE == -mid_y * y_denom(width, height),
{
    assert(((-7 * (zoom * height) - 4 * (mid_y * width)) * (height - 1) + row * ((7 * (zoom
        * height) - 4 * (mid_y * width)) - (-7 * (zoom * height) - 4 * (mid_y * width)))) * (
    FIXED_ONE as int) == -mid_y * (4 * FIXED_ONE * width * (height - 1))) by (nonlinear_arith)
        requires
            2 * row == height - 1,
    ;
}

} // verus!

