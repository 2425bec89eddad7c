//! Two-dimensional vectors over fixed-point components.

use vstd::prelude::*;
use crate::fixed::{Fixed, integer_root, lemma_product_bound, root, saturate};

verus! {

/// A velocity-like pair of fixed-point components.
#[derive(Copy, Clone, Debug, PartialEq, Eq, Structural)]
pub struct PaddedVec2 {
    pub x: Fixed,
    pub y: Fixed,
}

impl PaddedVec2 {
    /// The vector with the given components.
    pub open spec fn new_spec(x: Fixed, y: Fixed) -> PaddedVec2 {
        PaddedVec2 { x, y }
    }

    /// The zero vector.
    pub open spec fn zeros_spec() -> PaddedVec2 {
        PaddedVec2 { x: Fixed { micros: 0 }, y: Fixed { micros: 0 } }
    }

    /// The component-wise sum.
    pub open spec fn add_spec(self, rhs: PaddedVec2) -> PaddedVec2 {
        PaddedVec2 { x: self.x.add_spec(rhs.x), y: self.y.add_spec(rhs.y) }
    }

    /// The component-wise difference.
    pub open spec fn sub_spec(self, rhs: PaddedVec2) -> PaddedVec2 {
        PaddedVec2 { x: self.x.sub_spec(rhs.x), y: self.y.sub_spec(rhs.y) }
    }

    /// Both components multiplied by `factor`.
    pub open spec fn scale_spec(self, factor: Fixed) -> PaddedVec2 {
        PaddedVec2 { x: self.x.mul_spec(factor), y: self.y.mul_spec(factor) }
    }

    /// The Euclidean length, rounded down to a millionth and saturated.
    #[verifier::opaque]
    pub open spec fn magnitude_spec(self) -> Fixed {
        Fixed {
            micros: saturate(
                root(self.x.micros * self.x.micros + self.y.micros * self.y.micros),
            ) as i64,
        }
    }

    /// The vector with the given components.
    pub fn new(x: Fixed, y: Fixed) -> (r: PaddedVec2)
        ensures
            r == PaddedVec2::new_spec(x, y),
    {
        PaddedVec2 { x, y }
    }

    /// The zero vector.
    pub fn zeros() -> (r: PaddedVec2)
        ensures
            r == PaddedVec2::zeros_spec(),
    {
        PaddedVec2 { x: Fixed::zero(), y: Fixed::zero() }
    }

    /// Component-wise saturating sum.
    pub fn add(self, rhs: PaddedVec2) -> (r: PaddedVec2)
        ensures
            r == self.add_spec(rhs),
    {
        PaddedVec2 { x: self.x.add(rhs.x), y: self.y.add(rhs.y) }
    }

    /// Component-wise saturating difference.
    pub fn sub(self, rhs: PaddedVec2) -> (r: PaddedVec2)
        ensures
            r == self.sub_spec(rhs),
    {
        PaddedVec2 { x: self.x.sub(rhs.x), y: self.y.sub(rhs.y) }
    }

    /// Both components multiplied by `factor`.
    pub fn scale(self, factor: Fixed) -> (r: PaddedVec2)
        ensures
            r == self.scale_spec(factor),
    {
        PaddedVec2 { x: self.x.mul(factor), y: self.y.mul(factor) }
    }

    /// The Euclidean length.
    pub fn magnitude(self) -> (r: Fixed)
        ensures
            r == self.magnitude_spec(),
    {
        proof {
            reveal(PaddedVec2::magnitude_spec);
            lemma_product_bound(self.x.micros as int, self.x.micros as int);
            lemma_product_bound(self.y.micros as int, self.y.micros as int);
            assert(self.x.micros * self.x.micros >= 0) by (nonlinear_arith);
            assert(self.y.micros * self.y.micros >= 0) by (nonlinear_arith);
        }
        let xx: i128 = (self.x.micros as i128) * (self.x.micros as i128);
        let yy: i128 = (self.y.micros as i128) * (self.y.micros as i128);
        let sum: u128 = xx as u128 + yy as u128;
        let r: u128 = integer_root(sum);
        if r > i64::MAX as u128 {
            Fixed { micros: i64::MAX }
        } else {
            Fixed { micros: r as i64 }
        }
    }
}

} // verus!
