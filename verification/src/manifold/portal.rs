//! Portals: directed connections between charts.

use crate::manifold::chart::ChartId;
use vstd::prelude::*;

verus! {

/// Unique identifier of a portal.
#[derive(Debug, Clone, Copy, PartialEq, Eq, Hash, Structural)]
pub struct PortalId(pub u32);

/// Record of a portal's endpoints, kept by the manifold in creation order.
#[derive(Debug, Clone, Copy, PartialEq, Eq, Structural)]
pub struct PortalConnection {
    pub portal_id: PortalId,
    pub from_chart: ChartId,
    pub to_chart: ChartId,
}

/// Outline of a portal's opening.
#[derive(Debug, Clone, Copy, PartialEq, Eq, Structural)]
pub enum PortalShape {
    Rectangular,
    Circular,
    Custom,
}

/// Width of the opening of a new portal.
pub const DEFAULT_WIDTH: u32 = 2;

/// Height of the opening of a new portal.
pub const DEFAULT_HEIGHT: u32 = 3;

/// What a portal is, as a plain record.
pub struct PortalView {
    pub id: PortalId,
    pub from_chart: ChartId,
    pub to_chart: ChartId,
    pub shape: PortalShape,
    pub active: bool,
    pub bidirectional: bool,
}

impl PortalView {
    /// The portal that `Portal::new` makes: rectangular, active and
    /// bidirectional.
    pub open spec fn fresh(id: PortalId, from_chart: ChartId, to_chart: ChartId) -> PortalView {
        PortalView {
            id,
            from_chart,
            to_chart,
            shape: PortalShape::Rectangular,
            active: true,
            bidirectional: true,
        }
    }

    /// The portal that leads back: endpoints swapped, under a new identifier,
    /// with the same shape and flags.
    pub open spec fn reversed(self, id: PortalId) -> PortalView {
        PortalView { id, from_chart: self.to_chart, to_chart: self.from_chart, ..self }
    }

    /// The connection record that the manifold keeps for this portal.
    pub open spec fn connection(self) -> PortalConnection {
        PortalConnection { portal_id: self.id, from_chart: self.from_chart, to_chart: self.to_chart }
    }
}

/// A portal: a directed edge from one chart to another.
#[derive(Debug, Clone)]
pub struct Portal {
    id: PortalId,
    from_chart: ChartId,
    to_chart: ChartId,
    shape: PortalShape,
    active: bool,
    bidirectional: bool,
}

impl View for Portal {
    type V = PortalView;

    closed spec fn view(&self) -> PortalView {
        PortalView {
            id: self.id,
            from_chart: self.from_chart,
            to_chart: self.to_chart,
            shape: self.shape,
            active: self.active,
            bidirectional: self.bidirectional,
        }
    }
}

impl Portal {
    /// Creates a portal from `from_chart` to `to_chart`.
    pub fn new(id: PortalId, from_chart: ChartId, to_chart: ChartId) -> (portal: Portal)
        ensures
            portal@ == PortalView::fresh(id, from_chart, to_chart),
    {
        Portal {
            id,
            from_chart,
            to_chart,
            shape: PortalShape::Rectangular,
            active: true,
            bidirectional: true,
        }
    }

    /// The portal's identifier.
    pub fn id(&self) -> (id: PortalId)
        ensures
            id == self@.id,
    {
        self.id
    }

    /// The chart the portal leads out of.
    pub fn source_chart(&self) -> (chart: ChartId)
        ensures
            chart == self@.from_chart,
    {
        self.from_chart
    }

    /// The chart the portal leads into.
    pub fn target_chart(&self) -> (chart: ChartId)
        ensures
            chart == self@.to_chart,
    {
        self.to_chart
    }

    /// The outline of the portal's opening.
    pub fn shape(&self) -> (shape: PortalShape)
        ensures
            shape == self@.shape,
    {
        self.shape
    }

    /// Whether the portal is active.
    pub fn is_active(&self) -> (active: bool)
        ensures
            active == self@.active,
    {
        self.active
    }

    /// Activates or deactivates the portal; nothing else changes.
    pub fn set_active(&mut self, active: bool)
        ensures
            final(self)@ == (PortalView { active, ..old(self)@ }),
    {
        self.active = active;
    }

    /// Whether the portal can be crossed in both directions.
    pub fn is_bidirectional(&self) -> (bidirectional: bool)
        ensures
            bidirectional == self@.bidirectional,
    {
        self.bidirectional
    }

    /// The connection record of this portal.
    pub fn connection(&self) -> (connection: PortalConnection)
        ensures
            connection == self@.connection(),
    {
        PortalConnection { portal_id: self.id, from_chart: self.from_chart, to_chart: self.to_chart }
    }

    /// Creates the portal that leads back, as an independent portal under the
    /// given identifier. The two are not kept in step afterwards.
    pub fn create_reverse(&self, id: PortalId) -> (reverse: Portal)
        ensures
            reverse@ == self@.reversed(id),
    {
        Portal {
            id,
            from_chart: self.to_chart,
            to_chart: self.from_chart,
            shape: self.shape,
            active: self.active,
            bidirectional: self.bidirectional,
        }
    }
}

/// Reversing a portal twice gives back its endpoints, shape and flags: the
/// reverse of the reverse differs from the portal one started with in its
/// identifier only.
pub proof fn lemma_reverse_twice(portal: PortalView, first: PortalId, second: PortalId)
    ensures
        portal.reversed(first).reversed(second) == (PortalView { id: second, ..portal }),
        portal.reversed(first).from_chart == portal.to_chart,
        portal.reversed(first).to_chart == portal.from_chart,
{
}

} // verus!
