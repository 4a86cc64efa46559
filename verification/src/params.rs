use vstd::prelude::*;

verus! {

/// One unit of the fixed-point encoding used for the pan midpoints and the
/// zoom factor: a raw value `v` stands for the real number `v / FIXED_ONE`.
pub const FIXED_ONE: i64 = 0x1_0000_0000;

/// Largest accepted image side length. Keeping both sides at or below this
/// bound keeps every exact coordinate numerator comfortably inside `i128`.
pub const MAX_DIM: u32 = 0x10_0000;

pub const DEFAULT_WIDTH: u32 = 1024;

pub const DEFAULT_HEIGHT: u32 = 600;

/// Default horizontal midpoint, 0.75 in fixed point.
pub const DEFAULT_MID_X: i64 = 0xC000_0000;

pub const DEFAULT_MID_Y: i64 = 0;

/// Default zoom factor, 1.0 in fixed point.
pub const DEFAULT_ZOOM: i64 = 0x1_0000_0000;

pub const DEFAULT_MAX_ITER: u32 = 25;

/// Parameters of one rendering run: the pixel grid size, the midpoint of the
/// window in the complex plane (`mid_x`, `mid_y`, fixed point), the zoom
/// factor (fixed point), and the escape-iteration cap handed to the kernel.
#[derive(Clone, Copy, Debug, PartialEq, Eq, Structural)]
pub struct FractalParams {
    pub width: u32,
    pub height: u32,
    pub mid_x: i64,
    pub mid_y: i64,
    pub zoom: i64,
    pub max_iter: u32,
}

impl FractalParams {
    /// Both sides have at least two pixel columns (the interpolation step
    /// divides by `side - 1`), stay within `MAX_DIM`, and the flattened grid
    /// fits in a `usize`-indexed vector.
    pub open spec fn wf(self) -> bool {
        &&& 2 <= self.width <= MAX_DIM
        &&& 2 <= self.height <= MAX_DIM
        &&& self.width * self.height <= usize::MAX
    }

    /// Builds the parameter set from optional inputs, filling each absent
    /// value with the same default the renderer has always used.
    pub fn from_options(
        width: Option<u32>,
        height: Option<u32>,
        mid_x: Option<i64>,
        mid_y: Option<i64>,
        zoom: Option<i64>,
        max_iter: Option<u32>,
    ) -> (p: FractalParams)
        ensures
            p.width == match width { Some(w) => w, None => DEFAULT_WIDTH },
            p.height == match height { Some(h) => h, None => DEFAULT_HEIGHT },
            p.mid_x == match mid_x { Some(x) => x, None => DEFAULT_MID_X },
            p.mid_y == match mid_y { Some(y) => y, None => DEFAULT_MID_Y },
            p.zoom == match zoom { Some(z) => z, None => DEFAULT_ZOOM },
            p.max_iter == match max_iter { Some(m) => m, None => DEFAULT_MAX_ITER },
    {
        FractalParams {
            width: match width { Some(w) => w, None => DEFAULT_WIDTH },
            height: match height { Some(h) => h, None => DEFAULT_HEIGHT },
            mid_x: match mid_x { Some(x) => x, None => DEFAULT_MID_X },
            mid_y: match mid_y { Some(y) => y, None => DEFAULT_MID_Y },
            zoom: match zoom { Some(z) => z, None => DEFAULT_ZOOM },
            max_iter: match max_iter { Some(m) => m, None => DEFAULT_MAX_ITER },
        }
    }

    /// Run-time check of `wf`, for callers that take the sizes from outside.
    pub fn is_well_formed(&self) -> (r: bool)
        ensures
            r == self.wf(),
    {
        proof {
            assert((self.width as u64) * (self.height as u64) <= u64::MAX) by (nonlinear_arith)
                requires
                    self.width <= u32::MAX,
                    self.height <= u32::MAX,
            ;
        }
        self.width >= 2 && self.width <= MAX_DIM && self.height >= 2 && self.height <= MAX_DIM
            && (self.width as u64) * (self.height as u64) <= (usize::MAX as u64)
    }

    /// Number of pixels in the grid.
    pub fn pixel_count(&self) -> (n: usize)
        requires
            self.wf(),
        ensures
            n == self.width * self.height,
    {
        (self.width as usize) * (self.height as usize)
    }
}

} // verus!
