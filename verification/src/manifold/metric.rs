//! Geometry kinds and the default metric of each.

use crate::math::Ratio;
use vstd::prelude::*;

verus! {

/// Kind of geometry that governs a region of space.
#[derive(Debug, Clone, Copy, PartialEq, Eq, Structural)]
pub enum GeometryType {
    /// Flat space, zero curvature.
    Euclidean,
    /// Positive curvature: the surface of a sphere.
    Spherical,
    /// Negative curvature: the Poincare disk.
    Hyperbolic,
    /// A metric supplied by the user.
    Custom,
}

/// Parameters that define a metric.
#[derive(Debug, Clone, Copy, PartialEq, Eq, Structural)]
pub struct MetricParameters {
    /// Scalar curvature of the space.
    pub curvature: Ratio,
    /// Radius of the sphere for spherical geometry; one elsewhere.
    pub radius: u32,
}

/// Metric of a region of space.
#[derive(Debug, Clone, Copy, PartialEq, Eq, Structural)]
pub struct Metric {
    pub geometry: GeometryType,
    pub scale: u32,
    pub parameters: MetricParameters,
}

impl Metric {
    /// Radius that a geometry gets by default: ten for the sphere, one elsewhere.
    pub open spec fn default_radius(geometry: GeometryType) -> u32 {
        if geometry == GeometryType::Spherical {
            10
        } else {
            1
        }
    }

    /// Curvature that a geometry gets by default: zero for flat and custom
    /// space, minus one for hyperbolic space, and two over the squared radius
    /// for the sphere.
    pub open spec fn default_curvature(geometry: GeometryType) -> Ratio {
        match geometry {
            GeometryType::Euclidean => Ratio { numer: 0, denom: 1 },
            GeometryType::Spherical => Ratio { numer: 2, denom: 100 },
            GeometryType::Hyperbolic => Ratio { numer: -1i32, denom: 1 },
            GeometryType::Custom => Ratio { numer: 0, denom: 1 },
        }
    }

    /// The metric that `from_geometry` builds.
    pub open spec fn default_for(geometry: GeometryType) -> Metric {
        Metric {
            geometry,
            scale: 1,
            parameters: MetricParameters {
                curvature: Self::default_curvature(geometry),
                radius: Self::default_radius(geometry),
            },
        }
    }

    /// A metric is well formed when its numbers are: a positive scale and
    /// radius, and a curvature with a positive denominator.
    pub open spec fn wf(self) -> bool {
        &&& self.scale > 0
        &&& self.parameters.radius > 0
        &&& self.parameters.curvature.wf()
    }

    /// Creates the default metric of a geometry.
    pub fn from_geometry(geometry: GeometryType) -> (m: Metric)
        ensures
            m == Self::default_for(geometry),
            m.wf(),
    {
        let parameters = match geometry {
            GeometryType::Euclidean => MetricParameters { curvature: Ratio::whole(0), radius: 1 },
            GeometryType::Spherical => MetricParameters {
                curvature: Ratio { numer: 2, denom: 100 },
                radius: 10,
            },
            GeometryType::Hyperbolic => MetricParameters { curvature: Ratio::whole(-1), radius: 1 },
            GeometryType::Custom => MetricParameters { curvature: Ratio::whole(0), radius: 1 },
        };
        Metric { geometry, scale: 1, parameters }
    }
}

/// The default curvature of the sphere is two over the square of its default
/// radius; flat and custom space have curvature zero; hyperbolic space has
/// curvature minus one. The sign of the curvature tells the three classic
/// geometries apart.
pub proof fn lemma_default_curvature(geometry: GeometryType)
    ensures
        Metric::default_curvature(geometry).wf(),
        geometry == GeometryType::Spherical ==> Metric::default_curvature(geometry).denotes(
            2,
            Metric::default_radius(geometry) * Metric::default_radius(geometry),
        ),
        geometry == GeometryType::Hyperbolic ==> Metric::default_curvature(geometry).denotes(-1, 1),
        geometry == GeometryType::Euclidean || geometry == GeometryType::Custom
            ==> Metric::default_curvature(geometry).denotes(0, 1),
        Metric::default_curvature(geometry).signum() == match geometry {
            GeometryType::Euclidean => 0int,
            GeometryType::Spherical => 1int,
            GeometryType::Hyperbolic => -1int,
            GeometryType::Custom => 0int,
        },
{
}

} // verus!
