//! Logical to physical coordinate conversion.
use vstd::prelude::*;

verus! {

/// The DPI at which one logical unit is one physical pixel.
pub const BASE_DPI: u32 = 96;

/// `n / d` rounded to the nearest integer, halves away from zero.
pub open spec fn round_div(n: int, d: int) -> int
    recommends
        d > 0,
{
    if n >= 0 {
        (2 * n + d) / (2 * d)
    } else {
        -((-2 * n + d) / (2 * d))
    }
}

/// `v` logical units at `dpi`: `v * (dpi / 96)`, rounded to the nearest pixel.
pub open spec fn physical(v: int, dpi: int) -> int {
    round_div(v * dpi, BASE_DPI as int)
}

/// A physical length: negative lengths become zero, overlong ones saturate.
pub open spec fn physical_length(v: int, dpi: int) -> int {
    let p = physical(v, dpi);
    if p < 0 {
        0
    } else if p > u32::MAX {
        u32::MAX as int
    } else {
        p
    }
}

/// `a - b`, held within the range of `i32`.
pub open spec fn saturating_diff(a: int, b: int) -> int {
    if a - b > i32::MAX {
        i32::MAX as int
    } else if a - b < i32::MIN {
        i32::MIN as int
    } else {
        a - b
    }
}

/// A rectangle as the shell reports it, in logical units.
#[derive(Clone, Copy, Debug, PartialEq, Eq)]
pub struct LogicalRect {
    pub left: i32,
    pub top: i32,
    pub right: i32,
    pub bottom: i32,
}

#[derive(Clone, Copy, Debug, PartialEq, Eq)]
pub struct PhysicalPosition {
    pub x: i64,
    pub y: i64,
}

#[derive(Clone, Copy, Debug, PartialEq, Eq)]
pub struct PhysicalSize {
    pub width: u32,
    pub height: u32,
}

/// Position and size of the tray slot in physical pixels.
#[derive(Clone, Copy, Debug, PartialEq, Eq)]
pub struct Rect {
    pub position: PhysicalPosition,
    pub size: PhysicalSize,
}

impl Rect {
    /// The physical rectangle of `r` at `dpi`: corner scaled, width and height
    /// taken as saturating differences and scaled.
    pub open spec fn is_physical_of(self, r: LogicalRect, dpi: int) -> bool {
        &&& self.position.x == physical(r.left as int, dpi)
        &&& self.position.y == physical(r.top as int, dpi)
        &&& self.size.width == physical_length(saturating_diff(r.right as int, r.left as int), dpi)
        &&& self.size.height == physical_length(saturating_diff(r.bottom as int, r.top as int), dpi)
    }
}

/// Scales one logical coordinate to physical pixels.
pub fn scale_to_physical(v: i32, dpi: u32) -> (r: i64)
    ensures
        r == physical(v as int, dpi as int),
{
    proof {
        assert(-0x8000_0000_0000_0000 < (v as int) * (dpi as int) < 0x8000_0000_0000_0000)
            by (nonlinear_arith)
            requires
                i32::MIN <= v <= i32::MAX,
                0 <= dpi <= u32::MAX,
        ;
    }
    let n: i128 = (v as i128) * (dpi as i128);
    assert(physical(v as int, dpi as int) == round_div(n as int, 96));
    if n >= 0 {
        let q: i128 = (2 * n + 96) / 192;
        assert(0 <= q < 0x8000_0000_0000_0000) by (nonlinear_arith)
            requires
                q == (2 * n + 96) / 192,
                0 <= n < 0x8000_0000_0000_0000,
        ;
        q as i64
    } else {
        let m: i128 = 0 - n;
        let q: i128 = (2 * m + 96) / 192;
        assert(0 <= q < 0x8000_0000_0000_0000) by (nonlinear_arith)
            requires
                q == (2 * m + 96) / 192,
                0 < m < 0x8000_0000_0000_0000,
        ;
        -(q as i64)
    }
}

/// Scales one logical length to physical pixels, as an unsigned size.
pub fn size_to_physical(v: i32, dpi: u32) -> (r: u32)
    ensures
        r == physical_length(v as int, dpi as int),
{
    let p: i64 = scale_to_physical(v, dpi);
    if p < 0 {
        0
    } else if p > u32::MAX as i64 {
        u32::MAX
    } else {
        p as u32
    }
}

fn saturating_sub_i32(a: i32, b: i32) -> (r: i32)
    ensures
        r == saturating_diff(a as int, b as int),
{
    let d: i64 = a as i64 - b as i64;
    if d > i32::MAX as i64 {
        i32::MAX
    } else if d < i32::MIN as i64 {
        i32::MIN
    } else {
        d as i32
    }
}

/// A logical point at `dpi`, in physical pixels.
pub fn position_to_physical(x: i32, y: i32, dpi: u32) -> (r: PhysicalPosition)
    ensures
        r.x == physical(x as int, dpi as int),
        r.y == physical(y as int, dpi as int),
{
    PhysicalPosition { x: scale_to_physical(x, dpi), y: scale_to_physical(y, dpi) }
}

/// The tray slot's rectangle at `dpi`, in physical pixels.
pub fn rect_to_physical(r: LogicalRect, dpi: u32) -> (p: Rect)
    ensures
        p.is_physical_of(r, dpi as int),
        p.size.width >= 0 && p.size.height >= 0,
{
    let width: i32 = saturating_sub_i32(r.right, r.left);
    let height: i32 = saturating_sub_i32(r.bottom, r.top);
    Rect {
        position: position_to_physical(r.left, r.top, dpi),
        size: PhysicalSize {
            width: size_to_physical(width, dpi),
            height: size_to_physical(height, dpi),
        },
    }
}

} // verus!
