//! Vectors, quaternions, matrices and rectangles of [`Scalar`]s.
//!
//! These are values that the library stores and hands on. The only reading it
//! does of them is by comparison.

use crate::scalar::{Scalar, INFINITY_BITS, ONE_BITS, SIGN_BIT};
use vstd::prelude::*;

verus! {

/// A vector of three numbers.
#[derive(Clone, Copy, Debug, PartialEq, Eq, Structural)]
pub struct Vec3 {
    pub x: Scalar,
    pub y: Scalar,
    pub z: Scalar,
}

/// A vector of four numbers.
#[derive(Clone, Copy, Debug, PartialEq, Eq, Structural)]
pub struct Vec4 {
    pub x: Scalar,
    pub y: Scalar,
    pub z: Scalar,
    pub w: Scalar,
}

/// A quaternion, with `w` as its real part.
#[derive(Clone, Copy, Debug, PartialEq, Eq, Structural)]
pub struct Quat {
    pub x: Scalar,
    pub y: Scalar,
    pub z: Scalar,
    pub w: Scalar,
}

/// A 4x4 matrix, held by its columns.
#[derive(Clone, Copy, Debug, PartialEq, Eq, Structural)]
pub struct Matrix4 {
    pub x_axis: Vec4,
    pub y_axis: Vec4,
    pub z_axis: Vec4,
    pub w_axis: Vec4,
}

/// A rectangle in pixels, from its least corner to its greatest.
#[derive(Clone, Copy, Debug, PartialEq, Eq, Structural)]
pub struct Viewport {
    pub min_x: Scalar,
    pub min_y: Scalar,
    pub max_x: Scalar,
    pub max_y: Scalar,
}

/// The scale, rotation and translation that a model matrix is made of.
#[derive(Clone, Copy, Debug, PartialEq, Eq, Structural)]
pub struct Transform {
    pub scale: Vec3,
    pub rotation: Quat,
    pub translation: Vec3,
}

impl Vec3 {
    /// The vector with every component `v`.
    pub open spec fn spec_splat(v: Scalar) -> Vec3 {
        Vec3 { x: v, y: v, z: v }
    }

    /// The vector with every component `v`.
    #[verifier::when_used_as_spec(spec_splat)]
    pub fn splat(v: Scalar) -> (r: Vec3)
        ensures
            r == Vec3::spec_splat(v),
    {
        Vec3 { x: v, y: v, z: v }
    }
}

impl Quat {
    /// The rotation that turns nothing: `(0, 0, 0, 1)`.
    pub open spec fn spec_identity() -> Quat {
        Quat {
            x: Scalar { bits: 0 },
            y: Scalar { bits: 0 },
            z: Scalar { bits: 0 },
            w: Scalar { bits: ONE_BITS },
        }
    }

    /// The rotation that turns nothing: `(0, 0, 0, 1)`.
    #[verifier::when_used_as_spec(spec_identity)]
    pub fn identity() -> (r: Quat)
        ensures
            r == Quat::spec_identity(),
    {
        let zero = Scalar::from_bits(0);
        Quat { x: zero, y: zero, z: zero, w: Scalar::from_bits(ONE_BITS) }
    }
}

impl Matrix4 {
    /// The matrix with ones on its diagonal and zeros elsewhere.
    pub open spec fn spec_identity() -> Matrix4 {
        let o = Scalar { bits: 0 };
        let l = Scalar { bits: ONE_BITS };
        Matrix4 {
            x_axis: Vec4 { x: l, y: o, z: o, w: o },
            y_axis: Vec4 { x: o, y: l, z: o, w: o },
            z_axis: Vec4 { x: o, y: o, z: l, w: o },
            w_axis: Vec4 { x: o, y: o, z: o, w: l },
        }
    }

    /// The matrix with ones on its diagonal and zeros elsewhere.
    #[verifier::when_used_as_spec(spec_identity)]
    pub fn identity() -> (r: Matrix4)
        ensures
            r == Matrix4::spec_identity(),
    {
        let o = Scalar::from_bits(0);
        let l = Scalar::from_bits(ONE_BITS);
        Matrix4 {
            x_axis: Vec4 { x: l, y: o, z: o, w: o },
            y_axis: Vec4 { x: o, y: l, z: o, w: o },
            z_axis: Vec4 { x: o, y: o, z: l, w: o },
            w_axis: Vec4 { x: o, y: o, z: o, w: l },
        }
    }
}

impl Viewport {
    /// The rectangle that holds nothing: from positive infinity to negative
    /// infinity on both axes.
    pub open spec fn spec_nothing() -> Viewport {
        let high = Scalar { bits: INFINITY_BITS };
        let low = Scalar { bits: (SIGN_BIT + INFINITY_BITS) as u64 };
        Viewport { min_x: high, min_y: high, max_x: low, max_y: low }
    }

    /// The rectangle that holds nothing: from positive infinity to negative
    /// infinity on both axes.
    #[verifier::when_used_as_spec(spec_nothing)]
    pub fn nothing() -> (r: Viewport)
        ensures
            r == Viewport::spec_nothing(),
            r.negative(),
            r.empty(),
    {
        let high = Scalar::from_bits(INFINITY_BITS);
        let low = Scalar::from_bits(SIGN_BIT + INFINITY_BITS);
        Viewport { min_x: high, min_y: high, max_x: low, max_y: low }
    }

    /// Whether the rectangle has nothing to show: on some axis the greatest
    /// corner lies before the least one or on it, so that the width or the
    /// height is below zero or zero.
    pub open spec fn empty(self) -> bool {
        self.max_x.le(self.min_x) || self.max_y.le(self.min_y)
    }

    /// Whether the width or the height is below zero or zero.
    pub fn is_empty(&self) -> (r: bool)
        ensures
            r == self.empty(),
    {
        self.max_x.at_most(&self.min_x) || self.max_y.at_most(&self.min_y)
    }

    /// Whether the width or the height is below zero: the greatest corner
    /// lies before the least one on some axis. Such a rectangle is empty.
    pub open spec fn negative(self) -> bool {
        self.max_x.lt(self.min_x) || self.max_y.lt(self.min_y)
    }

    /// Whether the width or the height is below zero.
    pub fn is_negative(&self) -> (r: bool)
        ensures
            r == self.negative(),
    {
        self.max_x.less_than(&self.min_x) || self.max_y.less_than(&self.min_y)
    }
}

} // verus!
