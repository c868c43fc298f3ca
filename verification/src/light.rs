//! Light sources.

use vstd::prelude::*;
use crate::ColorValue;

verus! {

/// A point light source.
#[derive(Clone, Copy, Debug, PartialEq)]
pub struct PointSource<S> {
    /// Boolean flag to enable/disable the light.
    pub active: bool,
    /// Kind of the light.
    pub kind: Kind,
    /// Color.
    pub color: ColorValue,
    /// Attenuation type.
    pub attenuation: Attenuation<S>,
    /// Homogeneous world position.
    pub position: [S; 4],
    /// View transformation, column by column.
    pub view: [[S; 4]; 4],
}

/// Attenuation type of the light.
#[derive(Clone, Copy, Debug, PartialEq)]
pub enum Attenuation<S> {
    /// No attenuation with distance.
    Constant {
        /// Constant intensity.
        intensity: S,
    },
    /// Quadratic attenuation.
    Quadratic {
        /// Constant term.
        k0: S,
        /// Linear term.
        k1: S,
        /// Quadratic term.
        k2: S,
    },
    /// Spherical attenuation, limited at a distance.
    Spherical {
        /// Base intensity.
        intensity: S,
        /// Distance limit.
        distance: S,
    },
}

/// A coefficient of the attenuation of a light. The library does no
/// arithmetic on scalars: it tells which number is meant, and whoever uploads
/// the light computes it.
#[derive(Clone, Copy, Debug, PartialEq)]
pub enum Coefficient<S> {
    /// `0`.
    Zero,
    /// The scalar itself.
    Value(S),
    /// `1 / x`.
    Inverse(S),
    /// `2 / x`.
    TwoOver(S),
    /// `1 / (x * x)`.
    InverseSquare(S),
}

impl<S: Copy> Attenuation<S> {
    /// The four coefficients that a shader gets for the attenuation: the
    /// constant, the linear and the quadratic one, and a fourth that is
    /// always zero.
    pub open spec fn coefficients_of(self) -> [Coefficient<S>; 4] {
        match self {
            Attenuation::Constant { intensity } => [
                Coefficient::Inverse(intensity),
                Coefficient::Zero,
                Coefficient::Zero,
                Coefficient::Zero,
            ],
            Attenuation::Quadratic { k0, k1, k2 } => [
                Coefficient::Value(k0),
                Coefficient::Value(k1),
                Coefficient::Value(k2),
                Coefficient::Zero,
            ],
            Attenuation::Spherical { intensity, distance } => [
                Coefficient::Inverse(intensity),
                Coefficient::TwoOver(distance),
                Coefficient::InverseSquare(distance),
                Coefficient::Zero,
            ],
        }
    }

    /// Tells the coefficients of the attenuation.
    pub fn coefficients(&self) -> (c: [Coefficient<S>; 4])
        ensures
            c == self.coefficients_of(),
    {
        let c = match self {
            Attenuation::Constant { intensity } => [
                Coefficient::Inverse(*intensity),
                Coefficient::Zero,
                Coefficient::Zero,
                Coefficient::Zero,
            ],
            Attenuation::Quadratic { k0, k1, k2 } => [
                Coefficient::Value(*k0),
                Coefficient::Value(*k1),
                Coefficient::Value(*k2),
                Coefficient::Zero,
            ],
            Attenuation::Spherical { intensity, distance } => [
                Coefficient::Inverse(*intensity),
                Coefficient::TwoOver(*distance),
                Coefficient::InverseSquare(*distance),
                Coefficient::Zero,
            ],
        };
        assert(c =~= self.coefficients_of());
        c
    }
}

/// Kind of the light source.
#[derive(Clone, Copy, Debug, PartialEq, Eq, Hash, Structural)]
pub enum Kind {
    /// Omni-directional light.
    Omni,
    /// Hemi-spherical light.
    Hemi,
    /// Directed (cone shape) light.
    Directed,
}

} // verus!
