//! Integer rectangle geometry in device pixels.
//!
//! Coordinates are `i32` values in viewport space.  Every operation is
//! total: an intersection with no overlap, a degenerate transform, or a
//! transformed corner that leaves the coordinate range all collapse to the
//! canonical zero-area rectangle, matching the policy that degenerate
//! geometry silently discards a candidate.

use vstd::prelude::*;

verus! {

/// An axis-aligned rectangle given by its minimum corner `(x0, y0)` and its
/// maximum corner `(x1, y1)`.
#[derive(Clone, Copy, Debug, PartialEq, Eq, Structural)]
pub struct Rect {
    pub x0: i32,
    pub y0: i32,
    pub x1: i32,
    pub y1: i32,
}

/// A point in device pixels.
#[derive(Clone, Copy, Debug, PartialEq, Eq, Structural)]
pub struct Point {
    pub x: i32,
    pub y: i32,
}

/// A viewport extent in device pixels.
#[derive(Clone, Copy, Debug, PartialEq, Eq, Structural)]
pub struct Size {
    pub width: i32,
    pub height: i32,
}

pub open spec fn spec_min(a: int, b: int) -> int {
    if a <= b {
        a
    } else {
        b
    }
}

pub open spec fn spec_max(a: int, b: int) -> int {
    if a >= b {
        a
    } else {
        b
    }
}

pub open spec fn spec_min4(a: int, b: int, c: int, d: int) -> int {
    spec_min(spec_min(a, b), spec_min(c, d))
}

pub open spec fn spec_max4(a: int, b: int, c: int, d: int) -> int {
    spec_max(spec_max(a, b), spec_max(c, d))
}

impl Rect {
    /// A rectangle encloses no area when a maximum corner does not exceed
    /// the corresponding minimum corner.
    pub open spec fn spec_is_empty(self) -> bool {
        self.x1 <= self.x0 || self.y1 <= self.y0
    }

    /// The enclosed area in pixels squared; empty rectangles have area zero.
    pub open spec fn spec_area(self) -> int {
        if self.spec_is_empty() {
            0
        } else {
            (self.x1 - self.x0) * (self.y1 - self.y0)
        }
    }

    /// The canonical zero-area rectangle.
    pub open spec fn spec_zero() -> Rect {
        Rect { x0: 0, y0: 0, x1: 0, y1: 0 }
    }

    /// The intersection of two rectangles; the canonical zero rectangle when
    /// they do not overlap in positive area.
    pub open spec fn spec_intersect(a: Rect, b: Rect) -> Rect {
        let r = Rect {
            x0: spec_max(a.x0 as int, b.x0 as int) as i32,
            y0: spec_max(a.y0 as int, b.y0 as int) as i32,
            x1: spec_min(a.x1 as int, b.x1 as int) as i32,
            y1: spec_min(a.y1 as int, b.y1 as int) as i32,
        };
        if r.spec_is_empty() {
            Rect::spec_zero()
        } else {
            r
        }
    }

    /// The rectangle anchored at the origin with the given extent.
    pub open spec fn spec_from_size(size: Size) -> Rect {
        Rect { x0: 0, y0: 0, x1: size.width, y1: size.height }
    }

    pub fn zero() -> (r: Rect)
        ensures
            r == Rect::spec_zero(),
    {
        Rect { x0: 0, y0: 0, x1: 0, y1: 0 }
    }

    pub fn from_size(size: Size) -> (r: Rect)
        ensures
            r == Rect::spec_from_size(size),
    {
        Rect { x0: 0, y0: 0, x1: size.width, y1: size.height }
    }

    pub fn is_empty(&self) -> (r: bool)
        ensures
            r == self.spec_is_empty(),
    {
        self.x1 <= self.x0 || self.y1 <= self.y0
    }

    /// The enclosed area.  A difference of two `i32` coordinates is below
    /// `2^32` in magnitude, so the product of the two side lengths always
    /// fits in a `u64`.
    pub fn area(&self) -> (r: u64)
        ensures
            r == self.spec_area(),
    {
        if self.x1 <= self.x0 || self.y1 <= self.y0 {
            0
        } else {
            let w: i64 = (self.x1 as i64) - (self.x0 as i64);
            let h: i64 = (self.y1 as i64) - (self.y0 as i64);
            proof {
                lemma_mul_bound(w as int, h as int, 0xFFFF_FFFF, 0xFFFF_FFFF);
            }
            (w as u64) * (h as u64)
        }
    }

    pub fn intersection(&self, other: &Rect) -> (r: Rect)
        ensures
            r == Rect::spec_intersect(*self, *other),
    {
        let x0: i32 = if self.x0 >= other.x0 {
            self.x0
        } else {
            other.x0
        };
        let y0: i32 = if self.y0 >= other.y0 {
            self.y0
        } else {
            other.y0
        };
        let x1: i32 = if self.x1 <= other.x1 {
            self.x1
        } else {
            other.x1
        };
        let y1: i32 = if self.y1 <= other.y1 {
            self.y1
        } else {
            other.y1
        };
        if x1 <= x0 || y1 <= y0 {
            Rect { x0: 0, y0: 0, x1: 0, y1: 0 }
        } else {
            Rect { x0, y0, x1, y1 }
        }
    }
}

/// `|a| <= m` and `|b| <= n` bound the product `a * b` by `m * n`.
pub proof fn lemma_mul_bound(a: int, b: int, m: int, n: int)
    by (nonlinear_arith)
    requires
        -m <= a <= m,
        -n <= b <= n,
        0 <= m,
        0 <= n,
    ensures
        -(m * n) <= a * b <= m * n,
{
}

/// The coefficients of an affine map on the plane, in row-vector
/// convention: a point `(x, y)` maps to
/// `(m11*x + m21*y + m31, m12*x + m22*y + m32)`.
#[derive(Clone, Copy, Debug, PartialEq, Eq, Structural)]
pub struct AffineTransform {
    pub m11: i32,
    pub m12: i32,
    pub m21: i32,
    pub m22: i32,
    pub m31: i32,
    pub m32: i32,
}

/// The geometric transform of a reference frame.  A transform under which
/// the transformed shape has no two-dimensional bounding box is recorded as
/// `Degenerate`; applying it collapses any rectangle to zero area.
#[derive(Clone, Copy, Debug, PartialEq, Eq, Structural)]
pub enum FrameTransform {
    Affine(AffineTransform),
    Degenerate,
}

/// The x coordinate of the image of `(x, y)`.
pub open spec fn spec_map_x(t: AffineTransform, x: int, y: int) -> int {
    t.m11 * x + t.m21 * y + t.m31
}

/// The y coordinate of the image of `(x, y)`.
pub open spec fn spec_map_y(t: AffineTransform, x: int, y: int) -> int {
    t.m12 * x + t.m22 * y + t.m32
}

pub open spec fn in_coord_range(v: int) -> bool {
    i32::MIN <= v <= i32::MAX
}

/// The outer bounding box of a rectangle under a reference frame: the four
/// corners are mapped by the affine transform and translated by the frame's
/// origin, and the result is their bounding box.  A degenerate transform,
/// or a bounding box leaving the `i32` coordinate range, yields the zero
/// rectangle.
pub open spec fn spec_apply_frame(origin: Point, t: FrameTransform, r: Rect) -> Rect {
    match t {
        FrameTransform::Degenerate => Rect::spec_zero(),
        FrameTransform::Affine(a) => {
            let xa = spec_map_x(a, r.x0 as int, r.y0 as int) + origin.x;
            let xb = spec_map_x(a, r.x1 as int, r.y0 as int) + origin.x;
            let xc = spec_map_x(a, r.x0 as int, r.y1 as int) + origin.x;
            let xd = spec_map_x(a, r.x1 as int, r.y1 as int) + origin.x;
            let ya = spec_map_y(a, r.x0 as int, r.y0 as int) + origin.y;
            let yb = spec_map_y(a, r.x1 as int, r.y0 as int) + origin.y;
            let yc = spec_map_y(a, r.x0 as int, r.y1 as int) + origin.y;
            let yd = spec_map_y(a, r.x1 as int, r.y1 as int) + origin.y;
            let nx0 = spec_min4(xa, xb, xc, xd);
            let nx1 = spec_max4(xa, xb, xc, xd);
            let ny0 = spec_min4(ya, yb, yc, yd);
            let ny1 = spec_max4(ya, yb, yc, yd);
            if in_coord_range(nx0) && in_coord_range(nx1) && in_coord_range(ny0)
                && in_coord_range(ny1) {
                Rect { x0: nx0 as i32, y0: ny0 as i32, x1: nx1 as i32, y1: ny1 as i32 }
            } else {
                Rect::spec_zero()
            }
        },
    }
}

/// Maps one corner, in `i128` arithmetic: both factors of each product are
/// `i32` values, so every intermediate stays far inside the `i128` range.
fn map_corner_x(a: &AffineTransform, origin: &Point, x: i32, y: i32) -> (r: i128)
    ensures
        r == spec_map_x(*a, x as int, y as int) + origin.x,
{
    proof {
        lemma_mul_bound(a.m11 as int, x as int, 0x8000_0000, 0x8000_0000);
        lemma_mul_bound(a.m21 as int, y as int, 0x8000_0000, 0x8000_0000);
    }
    (a.m11 as i128) * (x as i128) + (a.m21 as i128) * (y as i128) + (a.m31 as i128) + (
    origin.x as i128)
}

fn map_corner_y(a: &AffineTransform, origin: &Point, x: i32, y: i32) -> (r: i128)
    ensures
        r == spec_map_y(*a, x as int, y as int) + origin.y,
{
    proof {
        lemma_mul_bound(a.m12 as int, x as int, 0x8000_0000, 0x8000_0000);
        lemma_mul_bound(a.m22 as int, y as int, 0x8000_0000, 0x8000_0000);
    }
    (a.m12 as i128) * (x as i128) + (a.m22 as i128) * (y as i128) + (a.m32 as i128) + (
    origin.y as i128)
}

fn min4(a: i128, b: i128, c: i128, d: i128) -> (r: i128)
    ensures
        r == spec_min4(a as int, b as int, c as int, d as int),
{
    let ab: i128 = if a <= b {
        a
    } else {
        b
    };
    let cd: i128 = if c <= d {
        c
    } else {
        d
    };
    if ab <= cd {
        ab
    } else {
        cd
    }
}

fn max4(a: i128, b: i128, c: i128, d: i128) -> (r: i128)
    ensures
        r == spec_max4(a as int, b as int, c as int, d as int),
{
    let ab: i128 = if a >= b {
        a
    } else {
        b
    };
    let cd: i128 = if c >= d {
        c
    } else {
        d
    };
    if ab >= cd {
        ab
    } else {
        cd
    }
}

/// Applies a reference frame's transform and origin to a rectangle.
pub fn apply_frame(origin: &Point, t: &FrameTransform, r: &Rect) -> (res: Rect)
    ensures
        res == spec_apply_frame(*origin, *t, *r),
{
    match t {
        FrameTransform::Degenerate => Rect::zero(),
        FrameTransform::Affine(a) => {
            let xa = map_corner_x(a, origin, r.x0, r.y0);
            let xb = map_corner_x(a, origin, r.x1, r.y0);
            let xc = map_corner_x(a, origin, r.x0, r.y1);
            let xd = map_corner_x(a, origin, r.x1, r.y1);
            let ya = map_corner_y(a, origin, r.x0, r.y0);
            let yb = map_corner_y(a, origin, r.x1, r.y0);
            let yc = map_corner_y(a, origin, r.x0, r.y1);
            let yd = map_corner_y(a, origin, r.x1, r.y1);
            let nx0 = min4(xa, xb, xc, xd);
            let nx1 = max4(xa, xb, xc, xd);
            let ny0 = min4(ya, yb, yc, yd);
            let ny1 = max4(ya, yb, yc, yd);
            let lo: i128 = i32::MIN as i128;
            let hi: i128 = i32::MAX as i128;
            if lo <= nx0 && nx0 <= hi && lo <= nx1 && nx1 <= hi && lo <= ny0 && ny0 <= hi && lo
                <= ny1 && ny1 <= hi {
                Rect { x0: nx0 as i32, y0: ny0 as i32, x1: nx1 as i32, y1: ny1 as i32 }
            } else {
                Rect::zero()
            }
        },
    }
}

} // verus!
