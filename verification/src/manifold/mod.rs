//! The manifold: charts, portals and the rules that connect them.

pub mod chart;
pub mod geodesic;
pub mod limits;
pub mod metric;
pub mod portal;

use crate::manifold::chart::{Chart, ChartId, ChartView};
use crate::manifold::metric::GeometryType;
use crate::manifold::portal::{Portal, PortalConnection, PortalId, PortalView};
use crate::sequences::{lemma_filter_first, lemma_filter_member, lemma_filter_none, lemma_filter_step};
use crate::text::{decimal, decimal_text};
use std::collections::HashMap;
use vstd::prelude::*;
use vstd::string::StringExecFns;

verus! {

broadcast use vstd::std_specs::hash::group_hash_axioms;

/// Why an operation on the manifold failed.
#[derive(Debug, Clone, Copy, PartialEq, Eq, Structural)]
pub enum ManifoldError {
    /// The named chart is not part of the manifold.
    ChartNotFound(ChartId),
}

impl ManifoldError {
    /// The error in words: which chart was not found.
    pub open spec fn text(self) -> Seq<char> {
        match self {
            ManifoldError::ChartNotFound(id) => "Chart ChartId("@ + decimal(id.0 as nat)
                + ") not found"@,
        }
    }

    /// Describes the error in words.
    pub fn message(&self) -> (message: String)
        ensures
            message@ == self.text(),
    {
        match self {
            ManifoldError::ChartNotFound(id) => {
                let mut message = "Chart ChartId(".to_owned();
                let number = decimal_text(id.0);
                message.append(number.as_str());
                message.append(") not found");
                message
            },
        }
    }
}

/// The views of the charts held in a table.
pub open spec fn chart_views(charts: Map<u32, Chart>) -> Map<u32, ChartView> {
    Map::new(|k: u32| charts.contains_key(k), |k: u32| charts[k]@)
}

/// The views of the portals held in a table.
pub open spec fn portal_views(portals: Map<u32, Portal>) -> Map<u32, PortalView> {
    Map::new(|k: u32| portals.contains_key(k), |k: u32| portals[k]@)
}

/// The connections that lead out of `chart`.
pub open spec fn leaves(chart: ChartId) -> spec_fn(PortalConnection) -> bool {
    |c: PortalConnection| c.from_chart == chart
}

/// The connections that lead from `from_chart` straight to `to_chart`.
pub open spec fn joins(from_chart: ChartId, to_chart: ChartId) -> spec_fn(PortalConnection) -> bool {
    |c: PortalConnection| c.from_chart == from_chart && c.to_chart == to_chart
}

/// A table of charts has as many views as charts.
proof fn lemma_chart_views_len(charts: Map<u32, Chart>)
    ensures
        chart_views(charts).dom() == charts.dom(),
        chart_views(charts).len() == charts.len(),
{
    assert(chart_views(charts).dom() =~= charts.dom());
}

/// A table of portals has as many views as portals.
proof fn lemma_portal_views_len(portals: Map<u32, Portal>)
    ensures
        portal_views(portals).dom() == portals.dom(),
        portal_views(portals).len() == portals.len(),
{
    assert(portal_views(portals).dom() =~= portals.dom());
}

/// What a manifold is, as a mathematical value: its charts and portals by
/// identifier, the connection records in creation order, and the chart that
/// is active.
pub struct ManifoldView {
    pub charts: Map<u32, ChartView>,
    pub portals: Map<u32, PortalView>,
    pub connections: Seq<PortalConnection>,
    pub active_chart: ChartId,
}

impl ManifoldView {
    /// Whether a chart with this identifier exists.
    pub open spec fn has_chart(self, id: ChartId) -> bool {
        self.charts.contains_key(id.0)
    }

    /// Number of charts.
    pub open spec fn chart_count(self) -> nat {
        self.charts.len()
    }

    /// Number of portals.
    pub open spec fn portal_count(self) -> nat {
        self.portals.len()
    }

    /// The invariant of a manifold.
    ///
    /// Charts are numbered from zero without gaps, each under its own
    /// identifier, so chart zero always exists; the active chart exists.
    /// Portals are numbered from zero without gaps too; the connection
    /// records list them in creation order, and both ends of every portal
    /// are charts of the manifold.
    pub open spec fn wf(self) -> bool {
        &&& self.charts.dom().finite()
        &&& self.portals.dom().finite()
        &&& self.charts.len() <= u32::MAX + 1
        &&& self.portals.len() <= u32::MAX + 1
        &&& forall|k: u32| #[trigger] self.charts.contains_key(k) <==> (k as nat) < self.charts.len()
        &&& forall|k: u32| #[trigger] self.charts.contains_key(k) ==> self.charts[k].id == ChartId(k)
        &&& self.has_chart(ChartId(0))
        &&& self.has_chart(self.active_chart)
        &&& self.portals.len() == self.connections.len()
        &&& forall|k: u32| #[trigger]
            self.portals.contains_key(k) <==> (k as nat) < self.connections.len()
        &&& forall|k: u32| #[trigger]
            self.portals.contains_key(k) ==> {
                &&& self.portals[k].id == PortalId(k)
                &&& self.portals[k].connection() == self.connections[k as int]
                &&& self.has_chart(self.portals[k].from_chart)
                &&& self.has_chart(self.portals[k].to_chart)
            }
    }

    /// The connections that lead out of a chart, in creation order.
    pub open spec fn outgoing(self, chart_id: ChartId) -> Seq<PortalConnection> {
        self.connections.filter(leaves(chart_id))
    }

    /// The connections that lead from one chart straight to another, in
    /// creation order.
    pub open spec fn direct(self, from_chart: ChartId, to_chart: ChartId) -> Seq<PortalConnection> {
        self.connections.filter(joins(from_chart, to_chart))
    }

    /// `hit_test` may be asked about every portal that leads out of the
    /// chart.
    pub open spec fn may_test<H, F: Fn(PortalId) -> Option<H>>(self, chart_id: ChartId, hit_test: F) -> bool {
        forall|i: int|
            0 <= i < self.outgoing(chart_id).len() ==> call_requires(
                hit_test,
                (#[trigger] self.outgoing(chart_id)[i].portal_id,),
            )
    }

    /// `hit_test` finds nothing on the first `k` portals that lead out of
    /// the chart.
    pub open spec fn missed_by<H, F: Fn(PortalId) -> Option<H>>(
        self,
        chart_id: ChartId,
        hit_test: F,
        k: int,
    ) -> bool {
        forall|j: int|
            0 <= j < k ==> call_ensures(
                hit_test,
                (#[trigger] self.outgoing(chart_id)[j].portal_id,),
                None,
            )
    }

    /// `hit` is what the first-hit rule gives: the first portal out of the
    /// chart, in creation order, on which `hit_test` finds a point, with
    /// that point and the chart the portal leads into; or nothing, where
    /// `hit_test` finds no point on any of them.
    pub open spec fn first_hit<H, F: Fn(PortalId) -> Option<H>>(
        self,
        chart_id: ChartId,
        hit_test: F,
        hit: Option<(PortalId, H, ChartId)>,
    ) -> bool {
        match hit {
            Some((portal_id, point, target)) => exists|k: int|
                {
                    &&& 0 <= k < self.outgoing(chart_id).len()
                    &&& #[trigger] self.outgoing(chart_id)[k] == (PortalConnection {
                        portal_id,
                        from_chart: chart_id,
                        to_chart: target,
                    })
                    &&& call_ensures(hit_test, (portal_id,), Some(point))
                    &&& self.missed_by(chart_id, hit_test, k)
                },
            None => self.missed_by(chart_id, hit_test, self.outgoing(chart_id).len() as int),
        }
    }

    /// The manifold that `Manifold::new` makes: one Euclidean chart under
    /// identifier zero, which is active, and no portals.
    pub open spec fn initial() -> ManifoldView {
        ManifoldView {
            charts: Map::empty().insert(0u32, Chart::model(ChartId(0), GeometryType::Euclidean)),
            portals: Map::empty(),
            connections: Seq::empty(),
            active_chart: ChartId(0),
        }
    }

    /// The identifier that the next chart gets: the number of charts so far.
    pub open spec fn next_chart_id(self) -> ChartId {
        ChartId(self.charts.len() as u32)
    }

    /// The manifold after one more chart of the given geometry was added.
    pub open spec fn add_chart(self, geometry: GeometryType) -> ManifoldView {
        let id = self.next_chart_id();
        ManifoldView { charts: self.charts.insert(id.0, Chart::model(id, geometry)), ..self }
    }

    /// The manifold after one chart was added for each geometry of the
    /// list, in order.
    pub open spec fn add_charts(self, geometries: Seq<GeometryType>) -> ManifoldView
        decreases geometries.len(),
    {
        if geometries.len() == 0 {
            self
        } else {
            self.add_charts(geometries.drop_last()).add_chart(geometries.last())
        }
    }

    /// The identifier that the next portal gets: the number of portals so far.
    pub open spec fn next_portal_id(self) -> PortalId {
        PortalId(self.portals.len() as u32)
    }

    /// The manifold after a portal from `from_chart` to `to_chart` was created.
    pub open spec fn add_portal(self, from_chart: ChartId, to_chart: ChartId) -> ManifoldView {
        let portal = PortalView::fresh(self.next_portal_id(), from_chart, to_chart);
        ManifoldView {
            portals: self.portals.insert(portal.id.0, portal),
            connections: self.connections.push(portal.connection()),
            ..self
        }
    }

    /// What `create_portal` returns: the new portal's identifier, or the
    /// first of the two charts that does not exist.
    pub open spec fn create_portal_result(self, from_chart: ChartId, to_chart: ChartId) -> Result<
        PortalId,
        ManifoldError,
    > {
        if !self.has_chart(from_chart) {
            Err(ManifoldError::ChartNotFound(from_chart))
        } else if !self.has_chart(to_chart) {
            Err(ManifoldError::ChartNotFound(to_chart))
        } else {
            Ok(self.next_portal_id())
        }
    }

    /// The manifold after `create_portal`: with the new portal where both
    /// charts exist, unchanged where one does not.
    pub open spec fn create_portal(self, from_chart: ChartId, to_chart: ChartId) -> ManifoldView {
        if self.has_chart(from_chart) && self.has_chart(to_chart) {
            self.add_portal(from_chart, to_chart)
        } else {
            self
        }
    }

    /// The manifold after `set_active_chart`: the chart is active where it
    /// exists, and nothing changes where it does not.
    pub open spec fn set_active_chart(self, id: ChartId) -> ManifoldView {
        if self.has_chart(id) {
            ManifoldView { active_chart: id, ..self }
        } else {
            self
        }
    }
}

/// A position in the manifold: a chart and coordinates local to it.
///
/// The coordinates mean nothing outside their chart.
#[derive(Debug, Clone, Copy)]
pub struct ManifoldPosition<L> {
    pub chart_id: ChartId,
    pub local: L,
}

impl<L> ManifoldPosition<L> {
    /// The position at `local` in the chart `chart_id`.
    pub fn new(chart_id: ChartId, local: L) -> (position: Self)
        ensures
            position.chart_id == chart_id,
            position.local == local,
    {
        ManifoldPosition { chart_id, local }
    }

    /// Turns the position into world coordinates: `project` is handed the
    /// chart of the position and its local coordinates. There is no result
    /// where the manifold has no such chart.
    pub fn to_world<W, F: FnOnce(&Chart, &L) -> W>(&self, manifold: &Manifold, project: F) -> (world:
        Option<W>)
        requires
            forall|chart: Chart| call_requires(project, (&chart, &self.local)),
        ensures
            manifold@.has_chart(self.chart_id) <==> world is Some,
            world is Some ==> exists|chart: Chart| #[trigger]
                chart@ == manifold@.charts[self.chart_id.0] && call_ensures(
                    project,
                    (&chart, &self.local),
                    world->0,
                ),
    {
        match manifold.chart(self.chart_id) {
            Some(chart) => {
                let world = project(chart, &self.local);
                assert(chart@ == manifold@.charts[self.chart_id.0]);
                Some(world)
            },
            None => None,
        }
    }
}

/// A manifold: the whole non-Euclidean world.
///
/// It owns all charts and portals and knows which chart is active. Charts
/// and portals are only ever added.
#[derive(Debug, Clone)]
pub struct Manifold {
    charts: HashMap<u32, Chart>,
    portals: HashMap<u32, Portal>,
    connections: Vec<PortalConnection>,
    active_chart: ChartId,
}

impl View for Manifold {
    type V = ManifoldView;

    closed spec fn view(&self) -> ManifoldView {
        ManifoldView {
            charts: chart_views(self.charts@),
            portals: portal_views(self.portals@),
            connections: self.connections@,
            active_chart: self.active_chart,
        }
    }
}

impl Manifold {
    /// Creates a manifold with one Euclidean chart, chart zero.
    pub fn new() -> (manifold: Manifold)
        ensures
            manifold@ == ManifoldView::initial(),
            manifold@.wf(),
    {
        let mut charts: HashMap<u32, Chart> = HashMap::new();
        let default_chart = Chart::new(ChartId(0), GeometryType::Euclidean);
        charts.insert(0, default_chart);
        let manifold = Manifold {
            charts,
            portals: HashMap::new(),
            connections: Vec::new(),
            active_chart: ChartId(0),
        };
        proof {
            assert(manifold@.charts =~= ManifoldView::initial().charts);
            assert(manifold@.portals =~= ManifoldView::initial().portals);
            lemma_initial_wf();
        }
        manifold
    }

    /// Adds a chart of the given geometry and returns its identifier, the
    /// next one in sequence.
    pub fn add_chart(&mut self, geometry: GeometryType) -> (id: ChartId)
        requires
            old(self)@.wf(),
            old(self)@.chart_count() <= u32::MAX,
        ensures
            id == old(self)@.next_chart_id(),
            final(self)@ == old(self)@.add_chart(geometry),
            final(self)@.wf(),
    {
        proof {
            lemma_chart_views_len(self.charts@);
        }
        let id = ChartId(self.charts.len() as u32);
        let chart = Chart::new(id, geometry);
        self.charts.insert(id.0, chart);
        proof {
            assert(self@.charts =~= old(self)@.add_chart(geometry).charts);
            lemma_add_chart_wf(old(self)@, geometry);
        }
        id
    }

    /// Number of charts.
    pub fn chart_count(&self) -> (count: usize)
        ensures
            count == self@.chart_count(),
    {
        proof {
            lemma_chart_views_len(self.charts@);
        }
        self.charts.len()
    }

    /// Number of portals.
    pub fn portal_count(&self) -> (count: usize)
        ensures
            count == self@.portal_count(),
    {
        proof {
            lemma_portal_views_len(self.portals@);
        }
        self.portals.len()
    }

    /// Gets a portal by its identifier; `None` where no such portal exists.
    pub fn portal(&self, id: PortalId) -> (portal: Option<&Portal>)
        ensures
            match portal {
                Some(p) => self@.portals.contains_key(id.0) && p@ == self@.portals[id.0],
                None => !self@.portals.contains_key(id.0),
            },
    {
        self.portals.get(&id.0)
    }

    /// The connection records, in the order in which the portals were
    /// created.
    pub fn connections(&self) -> (connections: &Vec<PortalConnection>)
        ensures
            connections@ == self@.connections,
    {
        &self.connections
    }

    /// Gets a chart by its identifier; `None` where no such chart exists.
    pub fn chart(&self, id: ChartId) -> (chart: Option<&Chart>)
        ensures
            match chart {
                Some(c) => self@.has_chart(id) && c@ == self@.charts[id.0],
                None => !self@.has_chart(id),
            },
    {
        self.charts.get(&id.0)
    }

    /// The active chart.
    pub fn active_chart(&self) -> (chart: &Chart)
        requires
            self@.wf(),
        ensures
            chart@ == self@.charts[self@.active_chart.0],
    {
        let chart = self.charts.get(&self.active_chart.0);
        assert(self@.has_chart(self@.active_chart));
        chart.unwrap()
    }

    /// Makes the chart with the given identifier the active one; does
    /// nothing where no such chart exists.
    pub fn set_active_chart(&mut self, id: ChartId)
        ensures
            final(self)@ == old(self)@.set_active_chart(id),
            old(self)@.wf() ==> final(self)@.wf(),
    {
        if self.charts.contains_key(&id.0) {
            self.active_chart = id;
        }
    }

    /// All charts, by the number of their identifier.
    pub fn charts(&self) -> (charts: &HashMap<u32, Chart>)
        ensures
            chart_views(charts@) == self@.charts,
            charts@.dom() == self@.charts.dom(),
    {
        proof {
            assert(self.charts@.dom() =~= self@.charts.dom());
        }
        &self.charts
    }

    /// Creates a portal from `from_chart` to `to_chart` and returns its
    /// identifier, the next one in sequence. Fails, and leaves the manifold
    /// as it was, where one of the charts does not exist; the error names
    /// the first that is missing.
    pub fn create_portal(&mut self, from_chart: ChartId, to_chart: ChartId) -> (result: Result<
        PortalId,
        ManifoldError,
    >)
        requires
            old(self)@.wf(),
            old(self)@.portal_count() <= u32::MAX,
        ensures
            result == old(self)@.create_portal_result(from_chart, to_chart),
            final(self)@ == old(self)@.create_portal(from_chart, to_chart),
            final(self)@.wf(),
    {
        if !self.charts.contains_key(&from_chart.0) {
            return Err(ManifoldError::ChartNotFound(from_chart));
        }
        if !self.charts.contains_key(&to_chart.0) {
            return Err(ManifoldError::ChartNotFound(to_chart));
        }
        proof {
            lemma_portal_views_len(self.portals@);
        }
        let id = PortalId(self.portals.len() as u32);
        let portal = Portal::new(id, from_chart, to_chart);
        let connection = portal.connection();
        self.portals.insert(id.0, portal);
        self.connections.push(connection);
        proof {
            assert(self@.portals =~= old(self)@.add_portal(from_chart, to_chart).portals);
            lemma_add_portal_wf(old(self)@, from_chart, to_chart);
        }
        Ok(id)
    }

    /// All portals that lead out of a chart, in the order in which they
    /// were created.
    pub fn portals_from_chart(&self, chart_id: ChartId) -> (portals: Vec<&Portal>)
        requires
            self@.wf(),
        ensures
            portals@.len() == self@.outgoing(chart_id).len(),
            forall|i: int|
                0 <= i < portals@.len() ==> (#[trigger] portals@[i])@.connection()
                    == self@.outgoing(chart_id)[i],
            forall|i: int|
                0 <= i < portals@.len() ==> (#[trigger] portals@[i])@
                    == self@.portals[self@.outgoing(chart_id)[i].portal_id.0],
    {
        let mut out: Vec<&Portal> = Vec::new();
        let mut i: usize = 0;
        proof {
            lemma_filter_none(self.connections@, leaves(chart_id));
        }
        while i < self.connections.len()
            invariant
                self@.wf(),
                i <= self.connections.len(),
                out@.len() == self.connections@.take(i as int).filter(leaves(chart_id)).len(),
                forall|j: int|
                    0 <= j < out@.len() ==> (#[trigger] out@[j])@.connection()
                        == self.connections@.take(i as int).filter(leaves(chart_id))[j],
                forall|j: int|
                    0 <= j < out@.len() ==> (#[trigger] out@[j])@
                        == self@.portals[(#[trigger] out@[j])@.id.0],
            decreases self.connections.len() - i,
        {
            let connection = self.connections[i];
            proof {
                lemma_filter_step(self.connections@, leaves(chart_id), i as int);
                assert(self@.portals.contains_key(i as u32));
            }
            if connection.from_chart == chart_id {
                let found = self.portals.get(&connection.portal_id.0);
                out.push(found.unwrap());
            }
            i += 1;
        }
        out
    }

    /// Finds the first portal out of `chart_id` that a ray hits.
    ///
    /// The portals that lead out of the chart are tried in the order in
    /// which they were created, and the first hit wins: `hit_test` is asked
    /// about one portal after the other and tells where the ray meets it,
    /// if it does. The result names that portal, the point that `hit_test`
    /// gave, and the chart that the portal leads into.
    pub fn ray_portal_intersection<H, F: Fn(PortalId) -> Option<H>>(
        &self,
        chart_id: ChartId,
        hit_test: F,
    ) -> (hit: Option<(PortalId, H, ChartId)>)
        requires
            self@.wf(),
            self@.may_test(chart_id, hit_test),
        ensures
            self@.first_hit(chart_id, hit_test, hit),
    {
        let candidates = self.portals_from_chart(chart_id);
        let mut k: usize = 0;
        while k < candidates.len()
            invariant
                k <= candidates@.len(),
                candidates@.len() == self@.outgoing(chart_id).len(),
                forall|i: int|
                    0 <= i < candidates@.len() ==> (#[trigger] candidates@[i])@.connection()
                        == self@.outgoing(chart_id)[i],
                self@.may_test(chart_id, hit_test),
                self@.missed_by(chart_id, hit_test, k as int),
            decreases candidates.len() - k,
        {
            let portal = candidates[k];
            proof {
                lemma_filter_member(self@.connections, leaves(chart_id), k as int);
                assert(self@.outgoing(chart_id)[k as int].portal_id == portal@.id);
            }
            match hit_test(portal.id()) {
                Some(point) => {
                    return Some((portal.id(), point, portal.target_chart()));
                },
                None => {},
            }
            k += 1;
        }
        None
    }

    /// Carries a point from one chart into another.
    ///
    /// Within one chart the point stays as it is. Between two charts the
    /// first portal that leads straight from the one to the other is taken,
    /// and `through` carries the point across it; where no portal connects
    /// them directly there is no result.
    pub fn transform_between_charts<V, F: FnOnce(PortalId, V) -> V>(
        &self,
        point: V,
        from_chart: ChartId,
        to_chart: ChartId,
        through: F,
    ) -> (moved: Option<V>)
        requires
            self@.wf(),
            from_chart != to_chart && self@.direct(from_chart, to_chart).len() > 0
                ==> call_requires(through, (self@.direct(from_chart, to_chart)[0].portal_id, point)),
        ensures
            from_chart == to_chart ==> moved == Some(point),
            from_chart != to_chart && self@.direct(from_chart, to_chart).len() == 0
                ==> moved is None,
            from_chart != to_chart && self@.direct(from_chart, to_chart).len() > 0 ==> moved is Some
                && call_ensures(
                through,
                (self@.direct(from_chart, to_chart)[0].portal_id, point),
                moved->0,
            ),
    {
        if from_chart == to_chart {
            return Some(point);
        }
        let mut i: usize = 0;
        proof {
            lemma_filter_none(self.connections@, joins(from_chart, to_chart));
        }
        while i < self.connections.len()
            invariant
                self@.wf(),
                from_chart != to_chart,
                i <= self.connections.len(),
                self.connections@.take(i as int).filter(joins(from_chart, to_chart)).len() == 0,
                self@.direct(from_chart, to_chart).len() > 0 ==> call_requires(
                    through,
                    (self@.direct(from_chart, to_chart)[0].portal_id, point),
                ),
            decreases self.connections.len() - i,
        {
            let connection = self.connections[i];
            proof {
                lemma_filter_step(self.connections@, joins(from_chart, to_chart), i as int);
                assert(self@.portals.contains_key(i as u32));
            }
            if connection.from_chart == from_chart && connection.to_chart == to_chart {
                proof {
                    lemma_filter_first(self.connections@, joins(from_chart, to_chart), i as int);
                }
                let found = self.portals.get(&connection.portal_id.0);
                let portal = found.unwrap();
                return Some(through(portal.id(), point));
            }
            i += 1;
        }
        None
    }
}

/// A new manifold satisfies the invariant and has exactly one chart: chart
/// zero, Euclidean, which is active.
pub proof fn lemma_initial_wf()
    ensures
        ManifoldView::initial().wf(),
        ManifoldView::initial().chart_count() == 1,
        ManifoldView::initial().portal_count() == 0,
        ManifoldView::initial().charts.dom() == set![0u32],
        ManifoldView::initial().charts[0].id == ChartId(0),
        ManifoldView::initial().charts[0].geometry == GeometryType::Euclidean,
        ManifoldView::initial().active_chart == ChartId(0),
{
    let m = ManifoldView::initial();
    assert(m.charts.dom() =~= set![0u32]);
    assert(m.portals.dom() =~= Set::<u32>::empty());
}

/// Adding a chart keeps the invariant, as long as the identifiers last. The
/// new chart gets the next identifier and the charts that were there stay
/// as they were.
pub proof fn lemma_add_chart_wf(m: ManifoldView, geometry: GeometryType)
    requires
        m.wf(),
        m.chart_count() <= u32::MAX,
    ensures
        m.add_chart(geometry).wf(),
        m.add_chart(geometry).chart_count() == m.chart_count() + 1,
        !m.has_chart(m.next_chart_id()),
        m.add_chart(geometry).has_chart(m.next_chart_id()),
        m.add_chart(geometry).charts[m.next_chart_id().0] == Chart::model(
            m.next_chart_id(),
            geometry,
        ),
        forall|k: u32| #[trigger]
            m.charts.contains_key(k) ==> m.add_chart(geometry).charts.contains_key(k)
                && m.add_chart(geometry).charts[k] == m.charts[k],
{
    let n = m.next_chart_id();
    assert(!m.charts.contains_key(n.0));
    let after = m.add_chart(geometry);
    assert(after.charts.dom() =~= m.charts.dom().insert(n.0));
    assert forall|k: u32| #[trigger] after.charts.contains_key(k) <==> (k as nat)
        < after.charts.len() by {
        assert(m.charts.contains_key(k) <==> (k as nat) < m.charts.len());
    }
    assert forall|k: u32| #[trigger] after.portals.contains_key(k) implies after.has_chart(
        after.portals[k].from_chart,
    ) && after.has_chart(after.portals[k].to_chart) by {
        assert(m.portals.contains_key(k));
    }
}

/// Adding charts one after the other to a new manifold numbers them from
/// one upwards: after `K` additions the manifold holds chart zero, still
/// Euclidean, and the charts `1..=K`, each with the geometry it was added
/// with, and nothing else.
pub proof fn lemma_add_charts_sequential(geometries: Seq<GeometryType>)
    requires
        geometries.len() <= u32::MAX,
    ensures
        ManifoldView::initial().add_charts(geometries).wf(),
        ManifoldView::initial().add_charts(geometries).chart_count() == geometries.len() + 1,
        ManifoldView::initial().add_charts(geometries).portal_count() == 0,
        ManifoldView::initial().add_charts(geometries).charts[0] == Chart::model(
            ChartId(0),
            GeometryType::Euclidean,
        ),
        forall|k: u32|
            1 <= k <= geometries.len() ==> #[trigger] ManifoldView::initial().add_charts(
                geometries,
            ).charts.contains_key(k) && ManifoldView::initial().add_charts(geometries).charts[k]
                == Chart::model(ChartId(k), geometries[k - 1]),
        forall|k: u32|
            k > geometries.len() ==> !#[trigger] ManifoldView::initial().add_charts(
                geometries,
            ).charts.contains_key(k),
    decreases geometries.len(),
{
    lemma_initial_wf();
    if geometries.len() > 0 {
        let before = ManifoldView::initial().add_charts(geometries.drop_last());
        lemma_add_charts_sequential(geometries.drop_last());
        lemma_add_chart_wf(before, geometries.last());
        let after = before.add_chart(geometries.last());
        assert(after == ManifoldView::initial().add_charts(geometries));
        assert(before.charts.contains_key(0));
        assert forall|k: u32| 1 <= k <= geometries.len() implies #[trigger] after.charts.contains_key(
            k,
        ) && after.charts[k] == Chart::model(ChartId(k), geometries[k - 1]) by {
            if k < geometries.len() {
                assert(before.charts.contains_key(k));
                assert(geometries.drop_last()[k - 1] == geometries[k - 1]);
            }
        }
    }
}

/// The identifier that `add_chart` returns is the number of charts that
/// were there, and the chart is found under it afterwards; a chart that is
/// not there is not found.
pub proof fn lemma_added_chart_is_retrievable(m: ManifoldView, geometry: GeometryType)
    requires
        m.wf(),
        m.chart_count() <= u32::MAX,
    ensures
        m.next_chart_id().0 == m.chart_count(),
        m.add_chart(geometry).has_chart(m.next_chart_id()),
        m.add_chart(geometry).charts[m.next_chart_id().0].id == m.next_chart_id(),
        m.add_chart(geometry).charts[m.next_chart_id().0].geometry == geometry,
{
    lemma_add_chart_wf(m, geometry);
}

/// A failed `create_portal` changes nothing: where the source or the
/// destination chart is unknown, the result is an error and the manifold,
/// with its numbers of charts and portals, is what it was.
pub proof fn lemma_unknown_chart_is_refused(m: ManifoldView, from_chart: ChartId, to_chart: ChartId)
    requires
        !m.has_chart(from_chart) || !m.has_chart(to_chart),
    ensures
        m.create_portal_result(from_chart, to_chart) is Err,
        m.create_portal(from_chart, to_chart) == m,
        m.create_portal(from_chart, to_chart).chart_count() == m.chart_count(),
        m.create_portal(from_chart, to_chart).portal_count() == m.portal_count(),
{
}

/// A new portal comes last: it is appended to the portals that lead out of
/// its source chart, and the portals out of every other chart are the same
/// as before. So the portals out of a chart stand in the order in which
/// they were created.
pub proof fn lemma_new_portal_comes_last(
    m: ManifoldView,
    from_chart: ChartId,
    to_chart: ChartId,
    chart: ChartId,
)
    ensures
        m.add_portal(from_chart, to_chart).outgoing(chart) == if chart == from_chart {
            m.outgoing(chart).push(
                PortalView::fresh(m.next_portal_id(), from_chart, to_chart).connection(),
            )
        } else {
            m.outgoing(chart)
        },
{
    let after = m.add_portal(from_chart, to_chart).connections;
    lemma_filter_step(after, leaves(chart), m.connections.len() as int);
    assert(after.take(m.connections.len() as int) =~= m.connections);
    assert(after.take(after.len() as int) =~= after);
}

/// Creating a portal between two charts that exist keeps the invariant, as
/// long as the identifiers last. The new portal gets the next identifier;
/// the charts, the active chart and the portals that were there stay as
/// they were.
pub proof fn lemma_add_portal_wf(m: ManifoldView, from_chart: ChartId, to_chart: ChartId)
    requires
        m.wf(),
        m.portal_count() <= u32::MAX,
        m.has_chart(from_chart),
        m.has_chart(to_chart),
    ensures
        m.add_portal(from_chart, to_chart).wf(),
        m.add_portal(from_chart, to_chart).portal_count() == m.portal_count() + 1,
        m.add_portal(from_chart, to_chart).charts == m.charts,
        m.add_portal(from_chart, to_chart).active_chart == m.active_chart,
        m.add_portal(from_chart, to_chart).portals[m.next_portal_id().0] == PortalView::fresh(
            m.next_portal_id(),
            from_chart,
            to_chart,
        ),
        forall|k: u32| #[trigger]
            m.portals.contains_key(k) ==> m.add_portal(from_chart, to_chart).portals.contains_key(k)
                && m.add_portal(from_chart, to_chart).portals[k] == m.portals[k],
{
    let n = m.next_portal_id();
    assert(!m.portals.contains_key(n.0));
    let after = m.add_portal(from_chart, to_chart);
    assert(after.portals.dom() =~= m.portals.dom().insert(n.0));
    assert forall|k: u32| #[trigger] after.portals.contains_key(k) <==> (k as nat)
        < after.connections.len() by {
        assert(m.portals.contains_key(k) <==> (k as nat) < m.connections.len());
    }
    assert forall|k: u32| #[trigger] after.portals.contains_key(k) implies {
        &&& after.portals[k].id == PortalId(k)
        &&& after.portals[k].connection() == after.connections[k as int]
        &&& after.has_chart(after.portals[k].from_chart)
        &&& after.has_chart(after.portals[k].to_chart)
    } by {
        if k != n.0 {
            assert(m.portals.contains_key(k));
        }
    }
}

} // verus!
