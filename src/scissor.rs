use vstd::prelude::*;

verus! {

/// Fixed-point resolution of logical coordinates and of the display scale factor:
/// a value `v` stands for `v / SUBPIXELS`.
pub const SUBPIXELS: i64 = 65536;

/// `SUBPIXELS * SUBPIXELS`: the denominator of a logical coordinate times a scale factor.
pub open spec fn unit() -> int {
    4294967296
}

/// Viewport size in physical pixels.
#[derive(Clone, Copy, PartialEq, Eq, Structural, Debug)]
pub struct Size {
    pub width: u32,
    pub height: u32,
}

/// Clip rectangle of a mesh in logical units, in fixed point (see [`SUBPIXELS`]).
#[derive(Clone, Copy, PartialEq, Eq, Structural, Debug)]
pub struct ClipRect {
    pub min_x: i64,
    pub min_y: i64,
    pub max_x: i64,
    pub max_y: i64,
}

/// Integer pixel rectangle restricting where a draw command may write.
#[derive(Clone, Copy, PartialEq, Eq, Structural, Debug)]
pub struct Scissor {
    pub x: u32,
    pub y: u32,
    pub width: u32,
    pub height: u32,
}

pub open spec fn clamp(v: int, lo: int, hi: int) -> int {
    if v < lo {
        lo
    } else if v > hi {
        hi
    } else {
        v
    }
}

/// Nearest whole pixel of a non-negative value in units of `1 / unit()` pixel, halves
/// rounded up.
pub open spec fn round_px(v: int) -> int {
    (v + unit() / 2) / unit()
}

/// Lower bound scaled to pixels and clamped to `[0, extent]` (units of `1 / unit()`).
pub open spec fn scaled_low(lo: int, scale: int, extent: int) -> int {
    clamp(lo * scale, 0, extent * unit())
}

/// Upper bound scaled to pixels and clamped to `[scaled_low, extent]`.
pub open spec fn scaled_high(lo: int, hi: int, scale: int, extent: int) -> int {
    clamp(hi * scale, scaled_low(lo, scale, extent), extent * unit())
}

/// First pixel of the clipped span along one axis.
pub open spec fn axis_origin(lo: int, scale: int, extent: int) -> int {
    round_px(scaled_low(lo, scale, extent))
}

/// Length of the clipped span along one axis: the rounded upper bound minus the rounded
/// lower bound.
pub open spec fn axis_length(lo: int, hi: int, scale: int, extent: int) -> int {
    round_px(scaled_high(lo, hi, scale, extent)) - round_px(scaled_low(lo, scale, extent))
}

/// The scissor of a mesh whose clip rectangle is `clip`, drawn at display scale
/// `scale / SUBPIXELS` into a viewport of `viewport` pixels.
pub open spec fn scissor_of(viewport: Size, scale: u32, clip: ClipRect) -> Scissor {
    Scissor {
        x: axis_origin(clip.min_x as int, scale as int, viewport.width as int) as u32,
        y: axis_origin(clip.min_y as int, scale as int, viewport.height as int) as u32,
        width: axis_length(clip.min_x as int, clip.max_x as int, scale as int, viewport.width as int) as u32,
        height: axis_length(clip.min_y as int, clip.max_y as int, scale as int, viewport.height as int) as u32,
    }
}

/// Clipped span `(origin, length)` along one axis.
fn scissor_axis(lo: i64, hi: i64, scale: u32, extent: u32) -> (r: (u32, u32))
    ensures
        r.0 == axis_origin(lo as int, scale as int, extent as int),
        r.1 == axis_length(lo as int, hi as int, scale as int, extent as int),
        r.0 + r.1 <= extent,
{
    let full: i128 = extent as i128 * 4294967296;
    assert(-0x8000_0000_0000_0000_0000_0000 <= lo as int * scale as int <= 0x8000_0000_0000_0000_0000_0000)
        by (nonlinear_arith)
        requires
            -0x8000_0000_0000_0000 <= lo as int <= 0x8000_0000_0000_0000,
            0 <= scale as int <= 0x1_0000_0000,
    ;
    assert(-0x8000_0000_0000_0000_0000_0000 <= hi as int * scale as int <= 0x8000_0000_0000_0000_0000_0000)
        by (nonlinear_arith)
        requires
            -0x8000_0000_0000_0000 <= hi as int <= 0x8000_0000_0000_0000,
            0 <= scale as int <= 0x1_0000_0000,
    ;
    let lo_s: i128 = lo as i128 * scale as i128;
    let lo_p: i128 = if lo_s < 0 {
        0
    } else if lo_s > full {
        full
    } else {
        lo_s
    };
    let hi_s: i128 = hi as i128 * scale as i128;
    let hi_p: i128 = if hi_s < lo_p {
        lo_p
    } else if hi_s > full {
        full
    } else {
        hi_s
    };
    let origin: i128 = (lo_p + 2147483648) / 4294967296;
    let hi_r: i128 = (hi_p + 2147483648) / 4294967296;
    assert(origin <= extent) by (nonlinear_arith)
        requires
            origin == (lo_p + 2147483648) / 4294967296,
            0 <= lo_p <= extent as int * 4294967296,
    ;
    assert(hi_r <= extent) by (nonlinear_arith)
        requires
            hi_r == (hi_p + 2147483648) / 4294967296,
            0 <= hi_p <= extent as int * 4294967296,
    ;
    assert(0 <= hi_r) by (nonlinear_arith)
        requires
            hi_r == (hi_p + 2147483648) / 4294967296,
            0 <= hi_p,
    ;
    assert(origin <= hi_r) by (nonlinear_arith)
        requires
            origin == (lo_p + 2147483648) / 4294967296,
            hi_r == (hi_p + 2147483648) / 4294967296,
            lo_p <= hi_p,
    ;
    let len: i128 = hi_r - origin;
    (origin as u32, len as u32)
}

/// Pixel scissor of a mesh: its clip rectangle scaled by the display scale factor, clamped
/// to the viewport with the lower corner kept below the upper, and both corners rounded to
/// whole pixels.
pub fn scissor_for(viewport: Size, scale: u32, clip: ClipRect) -> (r: Scissor)
    ensures
        r == scissor_of(viewport, scale, clip),
        r.x + r.width <= viewport.width,
        r.y + r.height <= viewport.height,
{
    let (x, width) = scissor_axis(clip.min_x, clip.max_x, scale, viewport.width);
    let (y, height) = scissor_axis(clip.min_y, clip.max_y, scale, viewport.height);
    Scissor { x, y, width, height }
}

} // verus!
