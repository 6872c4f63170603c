//! A point light, and the rule that says which contributions of the Phong
//! model a surface point receives from it.

use vstd::prelude::*;
use crate::color::Color;
use crate::geo::Geo;
use crate::scalar::Scalar;

verus! {

/// A point light without falloff.
#[derive(Clone, Copy, Debug)]
pub struct Light {
    pub intensity: Color,
    pub position: Geo,
}

impl Light {
    /// The light of the given intensity at the given position.
    pub fn point(intensity: Color, position: Geo) -> (r: Light)
        ensures
            r == (Light { intensity, position }),
    {
        Light { intensity, position }
    }
}

/// The contributions that reach a surface point.
#[derive(Clone, Copy, Debug, PartialEq, Eq, Structural)]
pub enum Shading {
    /// The light is behind the surface: ambient light only.
    Ambient,
    /// The light is in front, its reflection points away from the eye:
    /// ambient and diffuse light.
    Diffuse,
    /// The light is in front and its reflection reaches the eye: ambient,
    /// diffuse and specular light.
    Specular,
}

impl Shading {
    /// The diffuse contribution: `lit` where diffuse light arrives, black
    /// where it does not.
    pub open spec fn spec_diffuse(self, lit: Color) -> Color {
        if self == Shading::Ambient {
            Color::black()
        } else {
            lit
        }
    }

    /// The specular contribution: `lit` where specular light arrives, black
    /// where it does not.
    pub open spec fn spec_specular(self, lit: Color) -> Color {
        if self == Shading::Specular {
            lit
        } else {
            Color::black()
        }
    }

    /// The diffuse contribution of a surface point whose diffuse term, were
    /// it lit, is `lit`.
    #[verifier::when_used_as_spec(spec_diffuse)]
    pub fn diffuse(self, lit: Color) -> (r: Color)
        ensures
            r == self.spec_diffuse(lit),
    {
        match self {
            Shading::Ambient => Color::black(),
            Shading::Diffuse => lit,
            Shading::Specular => lit,
        }
    }

    /// The specular contribution of a surface point whose specular term,
    /// were it lit, is `lit`.
    #[verifier::when_used_as_spec(spec_specular)]
    pub fn specular(self, lit: Color) -> (r: Color)
        ensures
            r == self.spec_specular(lit),
    {
        match self {
            Shading::Ambient => Color::black(),
            Shading::Diffuse => Color::black(),
            Shading::Specular => lit,
        }
    }
}

/// The contributions for a light direction that makes the cosine
/// `light_dot_normal` with the surface normal, and whose reflection makes the
/// cosine `reflect_dot_eye` with the direction to the eye.
pub open spec fn spec_shading(light_dot_normal: Scalar, reflect_dot_eye: Scalar) -> Shading {
    if light_dot_normal.spec_lt(Scalar::zero()) {
        Shading::Ambient
    } else if reflect_dot_eye.spec_le(Scalar::zero()) {
        Shading::Diffuse
    } else {
        Shading::Specular
    }
}

/// Decides which contributions a surface point receives.
///
/// Diffuse and specular light vanish where `light_dot_normal` is below zero;
/// specular light alone vanishes where `reflect_dot_eye` is zero or below.
pub fn shading(light_dot_normal: Scalar, reflect_dot_eye: Scalar) -> (r: Shading)
    ensures
        r == spec_shading(light_dot_normal, reflect_dot_eye),
{
    if light_dot_normal.lt(Scalar::zero()) {
        Shading::Ambient
    } else if reflect_dot_eye.le(Scalar::zero()) {
        Shading::Diffuse
    } else {
        Shading::Specular
    }
}

/// With the light behind the surface both the diffuse and the specular
/// contribution are black; with its reflection turned away from the eye the
/// specular one is.
pub proof fn lemma_unlit_terms_are_black(
    light_dot_normal: Scalar,
    reflect_dot_eye: Scalar,
    diffuse: Color,
    specular: Color,
)
    ensures
        light_dot_normal.spec_lt(Scalar::zero()) ==> {
            &&& spec_shading(light_dot_normal, reflect_dot_eye).diffuse(diffuse) == Color::black()
            &&& spec_shading(light_dot_normal, reflect_dot_eye).specular(specular)
                == Color::black()
        },
        reflect_dot_eye.spec_le(Scalar::zero()) ==> spec_shading(
            light_dot_normal,
            reflect_dot_eye,
        ).specular(specular) == Color::black(),
        !light_dot_normal.spec_lt(Scalar::zero()) ==> spec_shading(
            light_dot_normal,
            reflect_dot_eye,
        ).diffuse(diffuse) == diffuse,
{
}

} // verus!
