//! Surface materials for the Phong reflection model.

use vstd::prelude::*;
use crate::color::Color;
use crate::scalar::Scalar;

verus! {

/// The word of `0.1`, the default ambient weight.
pub const DEFAULT_AMBIENT_BITS: u64 = 0x3FB9_9999_9999_999A;

/// The word of `0.9`, the default diffuse and specular weight.
pub const DEFAULT_DIFFUSE_BITS: u64 = 0x3FEC_CCCC_CCCC_CCCD;

/// The word of `200.0`, the default shininess.
pub const DEFAULT_SHININESS_BITS: u64 = 0x4069_0000_0000_0000;

/// A base color, the weights of the ambient, diffuse and specular
/// contributions, and the exponent of the specular highlight.
#[derive(Clone, Copy, Debug)]
pub struct Material {
    pub color: Color,
    pub ambient: Scalar,
    pub diffuse: Scalar,
    pub specular: Scalar,
    pub shininess: Scalar,
}

impl Material {
    /// The default material: white, ambient 0.1, diffuse 0.9, specular 0.9,
    /// shininess 200.
    pub open spec fn spec_default() -> Material {
        Material {
            color: Color { red: Scalar::one(), green: Scalar::one(), blue: Scalar::one() },
            ambient: Scalar { bits: DEFAULT_AMBIENT_BITS },
            diffuse: Scalar { bits: DEFAULT_DIFFUSE_BITS },
            specular: Scalar { bits: DEFAULT_DIFFUSE_BITS },
            shininess: Scalar { bits: DEFAULT_SHININESS_BITS },
        }
    }

    /// The default material: white, ambient 0.1, diffuse 0.9, specular 0.9,
    /// shininess 200.
    #[verifier::when_used_as_spec(spec_default)]
    pub fn default() -> (r: Material)
        ensures
            r == Material::spec_default(),
    {
        Material {
            color: Color::new(Scalar::one(), Scalar::one(), Scalar::one()),
            ambient: Scalar::from_bits(DEFAULT_AMBIENT_BITS),
            diffuse: Scalar::from_bits(DEFAULT_DIFFUSE_BITS),
            specular: Scalar::from_bits(DEFAULT_DIFFUSE_BITS),
            shininess: Scalar::from_bits(DEFAULT_SHININESS_BITS),
        }
    }
}

} // verus!
