//! Homogeneous tuples: four scalars `(x, y, z, w)`, a point where `w` is one
//! and a free vector where `w` is zero.

use vstd::prelude::*;
use crate::scalar::Scalar;

verus! {

/// A homogeneous tuple. Nothing forces `w` to be zero or one: the kind of a
/// tuple is read off with [`Geo::is_point`] and [`Geo::is_vector`].
#[derive(Clone, Copy, Debug)]
pub struct Geo {
    pub x: Scalar,
    pub y: Scalar,
    pub z: Scalar,
    pub w: Scalar,
}

impl Geo {
    /// Whether `w` has the value one.
    pub open spec fn spec_is_point(self) -> bool {
        self.w.spec_same_value(Scalar::one())
    }

    /// Whether `w` has the value zero, of either sign.
    pub open spec fn spec_is_vector(self) -> bool {
        self.w.spec_same_value(Scalar::zero())
    }

    /// The tuple with every component negated.
    pub open spec fn spec_neg(self) -> Geo {
        Geo {
            x: self.x.spec_neg(),
            y: self.y.spec_neg(),
            z: self.z.spec_neg(),
            w: self.w.spec_neg(),
        }
    }

    /// The tuple `(x, y, z, w)`.
    pub fn new(x: Scalar, y: Scalar, z: Scalar, w: Scalar) -> (r: Geo)
        ensures
            r == (Geo { x, y, z, w }),
    {
        Geo { x, y, z, w }
    }

    /// The point `(x, y, z)`.
    pub fn point(x: Scalar, y: Scalar, z: Scalar) -> (r: Geo)
        ensures
            r == (Geo { x, y, z, w: Scalar::one() }),
            r.spec_is_point(),
            !r.spec_is_vector(),
    {
        Geo { x, y, z, w: Scalar::one() }
    }

    /// The vector `(x, y, z)`.
    pub fn vector(x: Scalar, y: Scalar, z: Scalar) -> (r: Geo)
        ensures
            r == (Geo { x, y, z, w: Scalar::zero() }),
            r.spec_is_vector(),
            !r.spec_is_point(),
    {
        Geo { x, y, z, w: Scalar::zero() }
    }

    /// Whether the tuple is a point.
    pub fn is_point(&self) -> (r: bool)
        ensures
            r == self.spec_is_point(),
    {
        self.w.same_value(Scalar::one())
    }

    /// Whether the tuple is a vector.
    pub fn is_vector(&self) -> (r: bool)
        ensures
            r == self.spec_is_vector(),
    {
        self.w.same_value(Scalar::zero())
    }

    /// The tuple with every component negated.
    pub fn neg(self) -> (r: Geo)
        ensures
            r == self.spec_neg(),
    {
        Geo { x: self.x.neg(), y: self.y.neg(), z: self.z.neg(), w: self.w.neg() }
    }
}

/// No tuple is both a point and a vector.
pub proof fn lemma_point_or_vector(g: Geo)
    ensures
        !(g.spec_is_point() && g.spec_is_vector()),
{
}

/// Negation turns a vector into a vector, and back into itself when applied
/// twice.
pub proof fn lemma_neg_keeps_vectors(g: Geo)
    ensures
        g.spec_neg().spec_is_vector() == g.spec_is_vector(),
        g.spec_neg().spec_neg() == g,
{
}

} // verus!
