//! Coordinate charts: the patches a manifold is made of.

use crate::manifold::metric::{GeometryType, Metric};
use vstd::prelude::*;

verus! {

/// Unique identifier of a chart.
#[derive(Debug, Clone, Copy, PartialEq, Eq, Hash, Structural)]
pub struct ChartId(pub u32);

/// What happens to coordinates at the boundary of a chart.
#[derive(Debug, Clone, Copy, PartialEq, Eq, Structural)]
pub enum WrapMode {
    /// No wrapping.
    NoWrap,
    /// Wrap like a torus.
    Periodic,
    /// Wrap on a sphere.
    Spherical,
    /// Stay inside the Poincare disk.
    Hyperbolic,
}

/// A corner of a chart's bounding box, in whole coordinate units.
#[derive(Debug, Clone, Copy, PartialEq, Eq, Structural)]
pub struct Corner {
    pub x: i32,
    pub y: i32,
    pub z: i32,
}

/// Bounds of a chart in its local coordinates.
#[derive(Debug, Clone, Copy, PartialEq, Eq, Structural)]
pub struct ChartBounds {
    pub min: Corner,
    pub max: Corner,
    pub wrap_mode: WrapMode,
}

impl ChartBounds {
    /// Half the side lengths of the box that a geometry gets by default.
    pub open spec fn default_half_extent(geometry: GeometryType) -> Corner {
        match geometry {
            GeometryType::Euclidean => Corner { x: 1000, y: 1000, z: 1000 },
            GeometryType::Spherical => Corner { x: 1, y: 1, z: 1 },
            GeometryType::Hyperbolic => Corner { x: 1, y: 1, z: 10 },
            GeometryType::Custom => Corner { x: 100, y: 100, z: 100 },
        }
    }

    /// Wrap mode that a geometry gets by default.
    pub open spec fn default_wrap_mode(geometry: GeometryType) -> WrapMode {
        match geometry {
            GeometryType::Euclidean => WrapMode::NoWrap,
            GeometryType::Spherical => WrapMode::Spherical,
            GeometryType::Hyperbolic => WrapMode::Hyperbolic,
            GeometryType::Custom => WrapMode::NoWrap,
        }
    }

    /// The bounds that a chart of the given geometry starts with: a box
    /// centred on the origin, with the default half side lengths, and the
    /// wrap mode that fits the geometry.
    pub open spec fn default_for(geometry: GeometryType) -> ChartBounds {
        let half = Self::default_half_extent(geometry);
        ChartBounds {
            min: Corner { x: (0 - half.x) as i32, y: (0 - half.y) as i32, z: (0 - half.z) as i32 },
            max: half,
            wrap_mode: Self::default_wrap_mode(geometry),
        }
    }

    /// Creates the default bounds of a geometry.
    pub fn for_geometry(geometry: GeometryType) -> (b: ChartBounds)
        ensures
            b == Self::default_for(geometry),
    {
        match geometry {
            GeometryType::Euclidean => ChartBounds {
                min: Corner { x: -1000, y: -1000, z: -1000 },
                max: Corner { x: 1000, y: 1000, z: 1000 },
                wrap_mode: WrapMode::NoWrap,
            },
            GeometryType::Spherical => ChartBounds {
                min: Corner { x: -1, y: -1, z: -1 },
                max: Corner { x: 1, y: 1, z: 1 },
                wrap_mode: WrapMode::Spherical,
            },
            GeometryType::Hyperbolic => ChartBounds {
                min: Corner { x: -1, y: -1, z: -10 },
                max: Corner { x: 1, y: 1, z: 10 },
                wrap_mode: WrapMode::Hyperbolic,
            },
            GeometryType::Custom => ChartBounds {
                min: Corner { x: -100, y: -100, z: -100 },
                max: Corner { x: 100, y: 100, z: 100 },
                wrap_mode: WrapMode::NoWrap,
            },
        }
    }
}

/// What a chart is, as a plain record.
pub struct ChartView {
    pub id: ChartId,
    pub geometry: GeometryType,
    pub metric: Metric,
    pub bounds: ChartBounds,
}

/// A chart: one local coordinate patch of the manifold.
///
/// Its geometry, metric and bounds are fixed when it is made.
#[derive(Debug, Clone)]
pub struct Chart {
    id: ChartId,
    geometry: GeometryType,
    metric: Metric,
    bounds: ChartBounds,
}

impl View for Chart {
    type V = ChartView;

    closed spec fn view(&self) -> ChartView {
        ChartView {
            id: self.id,
            geometry: self.geometry,
            metric: self.metric,
            bounds: self.bounds,
        }
    }
}

impl Chart {
    /// The chart that `new` makes of an identifier and a geometry: it has
    /// the default metric of the geometry and its default bounds.
    pub open spec fn model(id: ChartId, geometry: GeometryType) -> ChartView {
        ChartView {
            id,
            geometry,
            metric: Metric::default_for(geometry),
            bounds: ChartBounds::default_for(geometry),
        }
    }

    /// Creates a chart with the given geometry.
    pub fn new(id: ChartId, geometry: GeometryType) -> (chart: Chart)
        ensures
            chart@ == Self::model(id, geometry),
    {
        Chart {
            id,
            geometry,
            metric: Metric::from_geometry(geometry),
            bounds: ChartBounds::for_geometry(geometry),
        }
    }

    /// The chart's identifier.
    pub fn id(&self) -> (id: ChartId)
        ensures
            id == self@.id,
    {
        self.id
    }

    /// The chart's geometry.
    pub fn geometry(&self) -> (geometry: GeometryType)
        ensures
            geometry == self@.geometry,
    {
        self.geometry
    }

    /// The chart's metric.
    pub fn metric(&self) -> (metric: &Metric)
        ensures
            *metric == self@.metric,
    {
        &self.metric
    }

    /// The chart's bounds.
    pub fn bounds(&self) -> (bounds: &ChartBounds)
        ensures
            *bounds == self@.bounds,
    {
        &self.bounds
    }
}

} // verus!
