//! Rectangles and 2D affine transforms over fixed-point scalars.
//!
//! A transform is the matrix `[a c e; b d f]` acting on column points:
//! `x' = a*x + c*y + e`, `y' = b*x + d*y + f`. Every stored entry is a
//! micro-unit scalar; entry products go through `fixed::spec_fmul`.

use vstd::prelude::*;
use crate::fixed::{coord_valid, fmul, isqrt, spec_fmul, sqrt_floor, MUL_ARG};

verus! {

/// An axis-aligned rectangle in micro-units.
#[derive(Clone, Copy, PartialEq, Eq, Structural, Debug)]
pub struct Rect {
    pub x: i64,
    pub y: i64,
    pub w: i64,
    pub h: i64,
}

impl Rect {
    /// A rectangle the library accepts: bounded coordinates, non-negative size.
    pub open spec fn wf(self) -> bool {
        &&& coord_valid(self.x)
        &&& coord_valid(self.y)
        &&& coord_valid(self.w)
        &&& coord_valid(self.h)
        &&& self.w >= 0
        &&& self.h >= 0
    }
}

/// The unbounded mathematical value of a transform, entry by entry.
pub struct Affine {
    pub a: int,
    pub b: int,
    pub c: int,
    pub d: int,
    pub e: int,
    pub f: int,
}

/// A 2D affine transform in micro-units.
#[derive(Clone, Copy, PartialEq, Eq, Structural, Debug)]
pub struct Transform {
    pub a: i64,
    pub b: i64,
    pub c: i64,
    pub d: i64,
    pub e: i64,
    pub f: i64,
}

/// The matrix product `m1 * m2` (so `m2` acts on points first).
pub open spec fn mul_aff(m1: Affine, m2: Affine) -> Affine {
    Affine {
        a: spec_fmul(m1.a, m2.a) + spec_fmul(m1.c, m2.b),
        b: spec_fmul(m1.b, m2.a) + spec_fmul(m1.d, m2.b),
        c: spec_fmul(m1.a, m2.c) + spec_fmul(m1.c, m2.d),
        d: spec_fmul(m1.b, m2.c) + spec_fmul(m1.d, m2.d),
        e: spec_fmul(m1.a, m2.e) + spec_fmul(m1.c, m2.f) + m1.e,
        f: spec_fmul(m1.b, m2.e) + spec_fmul(m1.d, m2.f) + m1.f,
    }
}

/// `m` followed by a translation acting on points first.
pub open spec fn translate_aff(m: Affine, x: int, y: int) -> Affine {
    Affine {
        e: m.e + spec_fmul(m.a, x) + spec_fmul(m.c, y),
        f: m.f + spec_fmul(m.b, x) + spec_fmul(m.d, y),
        ..m
    }
}

/// `m` followed by an axis scale acting on points first.
pub open spec fn scale_aff(m: Affine, sx: int, sy: int) -> Affine {
    Affine {
        a: spec_fmul(m.a, sx),
        b: spec_fmul(m.b, sx),
        c: spec_fmul(m.c, sy),
        d: spec_fmul(m.d, sy),
        ..m
    }
}

/// The transform that maps the unit square onto `bbox`.
pub open spec fn from_bbox_aff(bbox: Rect) -> Affine {
    Affine {
        a: bbox.w as int,
        b: 0,
        c: 0,
        d: bbox.h as int,
        e: bbox.x as int,
        f: bbox.y as int,
    }
}

/// Where `m` sends the point `(x, y)`.
pub open spec fn apply_aff_x(m: Affine, x: int, y: int) -> int {
    spec_fmul(m.a, x) + spec_fmul(m.c, y) + m.e
}

/// Where `m` sends the point `(x, y)`.
pub open spec fn apply_aff_y(m: Affine, x: int, y: int) -> int {
    spec_fmul(m.b, x) + spec_fmul(m.d, y) + m.f
}

/// The x scale factor a transform applies, ignoring rotation:
/// the length of the image of the x unit vector.
pub open spec fn scale_factor_x(t: Transform) -> int {
    sqrt_floor((t.a * t.a + t.b * t.b) as nat) as int
}

/// The y scale factor, as the length of the image of the y unit vector.
pub open spec fn scale_factor_y(t: Transform) -> int {
    sqrt_floor((t.c * t.c + t.d * t.d) as nat) as int
}

impl Transform {
    /// The mathematical value of this transform.
    pub open spec fn aff(self) -> Affine {
        Affine {
            a: self.a as int,
            b: self.b as int,
            c: self.c as int,
            d: self.d as int,
            e: self.e as int,
            f: self.f as int,
        }
    }

    /// A transform the library accepts as input: every entry bounded.
    pub open spec fn valid(self) -> bool {
        &&& coord_valid(self.a)
        &&& coord_valid(self.b)
        &&& coord_valid(self.c)
        &&& coord_valid(self.d)
        &&& coord_valid(self.e)
        &&& coord_valid(self.f)
    }

    /// The identity transform.
    pub fn identity() -> (r: Transform)
        ensures
            r == (Transform { a: crate::fixed::SCALE, b: 0, c: 0, d: crate::fixed::SCALE, e: 0, f: 0 }),
    {
        Transform { a: crate::fixed::SCALE, b: 0, c: 0, d: crate::fixed::SCALE, e: 0, f: 0 }
    }

    /// The transform that maps the unit square onto `bbox`.
    pub fn from_bbox(bbox: &Rect) -> (r: Transform)
        ensures
            r.aff() == from_bbox_aff(*bbox),
            bbox.wf() ==> r.valid(),
    {
        Transform { a: bbox.w, b: 0, c: 0, d: bbox.h, e: bbox.x, f: bbox.y }
    }

    /// Matrix product with `other`, which then acts on points first.
    pub fn append(&self, other: &Transform) -> (r: Transform)
        requires
            self.valid(),
            other.valid(),
        ensures
            r.aff() == mul_aff(self.aff(), other.aff()),
    {
        Transform {
            a: fmul(self.a, other.a) + fmul(self.c, other.b),
            b: fmul(self.b, other.a) + fmul(self.d, other.b),
            c: fmul(self.a, other.c) + fmul(self.c, other.d),
            d: fmul(self.b, other.c) + fmul(self.d, other.d),
            e: fmul(self.a, other.e) + fmul(self.c, other.f) + self.e,
            f: fmul(self.b, other.e) + fmul(self.d, other.f) + self.f,
        }
    }

    /// Appends a translation by `(x, y)`, acting on points first.
    pub fn translate(&self, x: i64, y: i64) -> (r: Transform)
        requires
            self.valid(),
            coord_valid(x),
            coord_valid(y),
        ensures
            r.aff() == translate_aff(self.aff(), x as int, y as int),
    {
        Transform {
            e: self.e + fmul(self.a, x) + fmul(self.c, y),
            f: self.f + fmul(self.b, x) + fmul(self.d, y),
            ..*self
        }
    }

    /// Appends an axis scale by `(sx, sy)`, acting on points first.
    /// The linear entries may exceed plain input bounds (a derived scale
    /// factor can reach `MUL_ARG`); the translation entries pass through.
    pub fn scale_axes(&self, sx: i64, sy: i64) -> (r: Transform)
        requires
            -MUL_ARG <= self.a <= MUL_ARG,
            -MUL_ARG <= self.b <= MUL_ARG,
            -MUL_ARG <= self.c <= MUL_ARG,
            -MUL_ARG <= self.d <= MUL_ARG,
            coord_valid(sx),
            coord_valid(sy),
        ensures
            r.aff() == scale_aff(self.aff(), sx as int, sy as int),
    {
        Transform {
            a: fmul(self.a, sx),
            b: fmul(self.b, sx),
            c: fmul(self.c, sy),
            d: fmul(self.d, sy),
            ..*self
        }
    }

    /// Where this transform sends the point `(x, y)`.
    pub fn apply(&self, x: i64, y: i64) -> (r: (i64, i64))
        requires
            self.valid(),
            coord_valid(x),
            coord_valid(y),
        ensures
            r.0 == apply_aff_x(self.aff(), x as int, y as int),
            r.1 == apply_aff_y(self.aff(), x as int, y as int),
    {
        (
            fmul(self.a, x) + fmul(self.c, y) + self.e,
            fmul(self.b, x) + fmul(self.d, y) + self.f,
        )
    }

    /// The independent x/y scale factors of this transform
    /// (rotation and skew are ignored for sizing).
    pub fn get_scale(&self) -> (r: (i64, i64))
        requires
            self.valid(),
        ensures
            r.0 == scale_factor_x(*self),
            r.1 == scale_factor_y(*self),
            0 <= r.0 <= 2_900_000_000_000,
            0 <= r.1 <= 2_900_000_000_000,
    {
        proof {
            assert(0 <= self.a * self.a <= 4_000_000_000_000_000_000_000_000int
                && 0 <= self.b * self.b <= 4_000_000_000_000_000_000_000_000int
                && 0 <= self.c * self.c <= 4_000_000_000_000_000_000_000_000int
                && 0 <= self.d * self.d <= 4_000_000_000_000_000_000_000_000int)
                by (nonlinear_arith)
                requires
                    coord_valid(self.a),
                    coord_valid(self.b),
                    coord_valid(self.c),
                    coord_valid(self.d);
        }
        let nx: u128 = ((self.a as i128) * (self.a as i128) + (self.b as i128) * (self.b as i128)) as u128;
        let ny: u128 = ((self.c as i128) * (self.c as i128) + (self.d as i128) * (self.d as i128)) as u128;
        let sx: u64 = isqrt(nx);
        let sy: u64 = isqrt(ny);
        proof {
            assert(sx as int <= 2_900_000_000_000int) by (nonlinear_arith)
                requires
                    0 <= sx as int,
                    (sx as int) * (sx as int) <= 8_000_000_000_000_000_000_000_000int;
            assert(sy as int <= 2_900_000_000_000int) by (nonlinear_arith)
                requires
                    0 <= sy as int,
                    (sy as int) * (sy as int) <= 8_000_000_000_000_000_000_000_000int;
        }
        (sx as i64, sy as i64)
    }
}

} // verus!
