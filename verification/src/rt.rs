//! Homogeneous tuples as plain 4-tuples `(x, y, z, w)`.

use vstd::prelude::*;
use crate::scalar::Scalar;

verus! {

/// The point `(x, y, z)`: its last component is one.
pub fn point(x: Scalar, y: Scalar, z: Scalar) -> (r: (Scalar, Scalar, Scalar, Scalar))
    ensures
        r == (x, y, z, Scalar::one()),
{
    (x, y, z, Scalar::one())
}

/// The vector `(x, y, z)`: its last component is zero.
pub fn vector(x: Scalar, y: Scalar, z: Scalar) -> (r: (Scalar, Scalar, Scalar, Scalar))
    ensures
        r == (x, y, z, Scalar::zero()),
{
    (x, y, z, Scalar::zero())
}

/// Whether the last component has the value one.
pub fn is_point(p: (Scalar, Scalar, Scalar, Scalar)) -> (r: bool)
    ensures
        r == p.3.spec_same_value(Scalar::one()),
{
    p.3.same_value(Scalar::one())
}

/// Whether the last component has the value zero, of either sign.
pub fn is_vector(p: (Scalar, Scalar, Scalar, Scalar)) -> (r: bool)
    ensures
        r == p.3.spec_same_value(Scalar::zero()),
{
    p.3.same_value(Scalar::zero())
}

/// The tuple with every component negated.
pub fn neg(t: (Scalar, Scalar, Scalar, Scalar)) -> (r: (Scalar, Scalar, Scalar, Scalar))
    ensures
        r == (t.0.spec_neg(), t.1.spec_neg(), t.2.spec_neg(), t.3.spec_neg()),
{
    (t.0.neg(), t.1.neg(), t.2.neg(), t.3.neg())
}

} // verus!
