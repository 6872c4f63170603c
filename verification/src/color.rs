//! Colors: a red, a green and a blue scalar, meaningful between zero and one
//! but not held to that range.

use vstd::prelude::*;
use crate::scalar::Scalar;

verus! {

/// An RGB triple.
#[derive(Clone, Copy, Debug)]
pub struct Color {
    pub red: Scalar,
    pub green: Scalar,
    pub blue: Scalar,
}

impl Color {
    /// The color with all three components zero.
    pub open spec fn spec_black() -> Color {
        Color { red: Scalar::zero(), green: Scalar::zero(), blue: Scalar::zero() }
    }

    /// The sample that stands for a component: `scale_factor` for a value of
    /// one or more, 0 for a value of zero or less, and `between` for the
    /// values in between and for what is not a number.
    pub open spec fn spec_scale_color(color_value: Scalar, scale_factor: i32, between: i32) -> i32 {
        if Scalar::one().spec_le(color_value) {
            scale_factor
        } else if color_value.spec_le(Scalar::zero()) {
            0
        } else {
            between
        }
    }

    /// The color with the given components.
    pub fn new(red: Scalar, green: Scalar, blue: Scalar) -> (r: Color)
        ensures
            r == (Color { red, green, blue }),
    {
        Color { red, green, blue }
    }

    /// Clamps a component to the range of samples.
    ///
    /// `between` is the sample of a value strictly between zero and one: the
    /// value times `scale_factor`, cut off to an integer.
    #[verifier::when_used_as_spec(spec_scale_color)]
    pub fn scale_color(color_value: Scalar, scale_factor: i32, between: i32) -> (r: i32)
        ensures
            r == Color::spec_scale_color(color_value, scale_factor, between),
    {
        if Scalar::one().le(color_value) {
            scale_factor
        } else if color_value.le(Scalar::zero()) {
            0
        } else {
            between
        }
    }

    /// The color with all three components zero.
    #[verifier::when_used_as_spec(spec_black)]
    pub fn black() -> (r: Color)
        ensures
            r == Color::spec_black(),
    {
        Color { red: Scalar::zero(), green: Scalar::zero(), blue: Scalar::zero() }
    }
}

} // verus!
