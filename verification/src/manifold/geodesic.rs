//! Geodesics: sampled paths and the skeleton of the solvers that make them.
//!
//! The numbers of a path (points, tangents) belong to the caller; this
//! module fixes how many samples a path has, in which order they are made
//! and walked, which construction a solver takes, and what a relaxation
//! sweep may touch.

use crate::manifold::metric::GeometryType;
use vstd::prelude::*;

verus! {

/// Number of sweeps of the relaxation solver for custom metrics.
pub const RELAXATION_ITERATIONS: usize = 20;

/// What a path is, as a mathematical value: its samples, each a point with
/// the tangent there, in order, and the geometry it was computed under.
pub struct PathView<P, T> {
    pub samples: Seq<(P, T)>,
    pub geometry: GeometryType,
}

impl<P, T> PathView<P, T> {
    /// Number of samples.
    pub open spec fn len(self) -> nat {
        self.samples.len()
    }

    /// The point of sample `i`.
    pub open spec fn point(self, i: int) -> P {
        self.samples[i].0
    }

    /// The tangent of sample `i`.
    pub open spec fn tangent(self, i: int) -> T {
        self.samples[i].1
    }

    /// The sample that stands for position `index`: the sample there, or
    /// the last one where the path is shorter.
    pub open spec fn nearest(self, index: usize) -> int {
        if index < self.samples.len() {
            index as int
        } else {
            self.samples.len() - 1
        }
    }

    /// `step` may be called on segment `i` with `acc` accumulated so far.
    pub open spec fn step_allowed<A, F: Fn(A, &P, &P) -> A>(self, step: F, acc: A, i: int) -> bool {
        call_requires(step, (acc, &self.samples[i - 1].0, &self.samples[i].0))
    }

    /// `blend` may be called on segment `i`.
    pub open spec fn blend_allowed<F: Fn(usize, &P, &P) -> Option<P>>(self, blend: F, i: int) -> bool {
        call_requires(blend, (i as usize, &self.samples[i - 1].0, &self.samples[i].0))
    }

    /// `found` is a possible answer of `blend` on segment `i`.
    pub open spec fn blend_gives<F: Fn(usize, &P, &P) -> Option<P>>(
        self,
        blend: F,
        i: int,
        found: Option<P>,
    ) -> bool {
        call_ensures(blend, (i as usize, &self.samples[i - 1].0, &self.samples[i].0), found)
    }

    /// `chain` records a walk along the segments of the path: it starts
    /// with `init`, and each further entry is what `step` made of the entry
    /// before it and the two ends of the next segment.
    pub open spec fn walked_by<A, F: Fn(A, &P, &P) -> A>(
        self,
        step: F,
        init: A,
        chain: Seq<A>,
    ) -> bool {
        &&& chain.len() >= 1
        &&& chain.len() == if self.samples.len() == 0 {
            1
        } else {
            self.samples.len()
        }
        &&& chain[0] == init
        &&& forall|i: int|
            1 <= i < chain.len() ==> call_ensures(
                step,
                (chain[i - 1], &self.samples[i - 1].0, &self.samples[i].0),
                #[trigger] chain[i],
            )
    }

    /// `blend` finds nothing on the segments before segment `k`.
    pub open spec fn passed_by<F: Fn(usize, &P, &P) -> Option<P>>(self, blend: F, k: int) -> bool {
        forall|i: int| 1 <= i < k ==> #[trigger] self.blend_gives(blend, i, None)
    }
}

/// A geodesic path: an ordered, finite sequence of points, each with the
/// tangent of the path there, tagged with the geometry it was computed
/// under.
#[derive(Debug, Clone)]
pub struct GeodesicPath<P, T> {
    samples: Vec<(P, T)>,
    geometry: GeometryType,
}

impl<P, T> View for GeodesicPath<P, T> {
    type V = PathView<P, T>;

    closed spec fn view(&self) -> PathView<P, T> {
        PathView { samples: self.samples@, geometry: self.geometry }
    }
}

impl<P, T> GeodesicPath<P, T> {
    /// Creates an empty path for the given geometry.
    pub fn new(geometry: GeometryType) -> (path: Self)
        ensures
            path@.samples == Seq::<(P, T)>::empty(),
            path@.geometry == geometry,
    {
        GeodesicPath { samples: Vec::new(), geometry }
    }

    /// Appends a point and the tangent there to the path.
    pub fn add_point(&mut self, point: P, tangent: T)
        ensures
            final(self)@.samples == old(self)@.samples.push((point, tangent)),
            final(self)@.geometry == old(self)@.geometry,
    {
        self.samples.push((point, tangent));
    }

    /// Number of samples.
    pub fn len(&self) -> (len: usize)
        ensures
            len == self@.len(),
    {
        self.samples.len()
    }

    /// Whether the path has no sample.
    pub fn is_empty(&self) -> (empty: bool)
        ensures
            empty == (self@.len() == 0),
    {
        self.samples.len() == 0
    }

    /// The geometry the path was computed under.
    pub fn geometry(&self) -> (geometry: GeometryType)
        ensures
            geometry == self@.geometry,
    {
        self.geometry
    }

    /// The point of sample `index`; `None` past the end of the path.
    pub fn point(&self, index: usize) -> (point: Option<&P>)
        ensures
            index < self@.len() ==> point == Some(&self@.point(index as int)),
            index >= self@.len() ==> point is None,
    {
        if index < self.samples.len() {
            Some(&self.samples[index].0)
        } else {
            None
        }
    }

    /// The last point of the path; `None` where the path is empty.
    pub fn last_point(&self) -> (point: Option<&P>)
        ensures
            self@.len() > 0 ==> point == Some(&self@.point(self@.len() - 1)),
            self@.len() == 0 ==> point is None,
    {
        let n = self.samples.len();
        if n > 0 {
            Some(&self.samples[n - 1].0)
        } else {
            None
        }
    }

    /// The tangent at the sample nearest to position `index`: the tangent
    /// of that sample, or of the last one where `index` lies past the end.
    /// `None` where the path is empty.
    pub fn tangent_at(&self, index: usize) -> (tangent: Option<&T>)
        ensures
            self@.len() > 0 ==> tangent == Some(&self@.tangent(self@.nearest(index))),
            self@.len() == 0 ==> tangent is None,
    {
        let n = self.samples.len();
        if n == 0 {
            None
        } else if index < n {
            Some(&self.samples[index].1)
        } else {
            Some(&self.samples[n - 1].1)
        }
    }

    /// Walks the segments of the path from first to last and hands each,
    /// with what was accumulated so far, to `step`. The result is what the
    /// last call gave, or `init` where the path has no segment.
    pub fn fold_segments<A, F: Fn(A, &P, &P) -> A>(&self, init: A, step: F) -> (total: A)
        requires
            forall|acc: A, i: int| 1 <= i < self@.len() ==> #[trigger] self@.step_allowed(step, acc, i),
        ensures
            exists|chain: Seq<A>| #[trigger]
                self@.walked_by(step, init, chain) && chain.last() == total,
            self@.len() <= 1 ==> total == init,
    {
        let ghost mut chain: Seq<A> = seq![init];
        let mut total = init;
        let n = self.samples.len();
        if n == 0 {
            proof {
                assert(self@.walked_by(step, init, chain));
            }
            return total;
        }
        let mut i: usize = 1;
        while i < n
            invariant
                n == self.samples@.len(),
                1 <= i <= n,
                chain.len() == i,
                chain[0] == init,
                chain.last() == total,
                i == 1 ==> total == init,
                forall|j: int|
                    1 <= j < chain.len() ==> call_ensures(
                        step,
                        (chain[j - 1], &self.samples@[j - 1].0, &self.samples@[j].0),
                        #[trigger] chain[j],
                    ),
                forall|acc: A, j: int|
                    1 <= j < self@.len() ==> #[trigger] self@.step_allowed(step, acc, j),
            decreases n - i,
        {
            assert(self@.step_allowed(step, total, i as int));
            let next = step(total, &self.samples[i - 1].0, &self.samples[i].0);
            proof {
                chain = chain.push(next);
            }
            total = next;
            i += 1;
        }
        proof {
            assert(self@.walked_by(step, init, chain));
        }
        total
    }
}

impl<P: Copy, T> GeodesicPath<P, T> {
    /// Finds a position on the path.
    ///
    /// The segments are visited from first to last and `blend` is asked
    /// about each: segment `i` runs from point `i - 1` to point `i`. The
    /// first segment on which `blend` finds the position decides. Where it
    /// finds it on none, the position is the last point. `None` where the
    /// path is empty.
    pub fn interpolate<F: Fn(usize, &P, &P) -> Option<P>>(&self, blend: F) -> (position: Option<P>)
        requires
            forall|i: int| 1 <= i < self@.len() ==> #[trigger] self@.blend_allowed(blend, i),
        ensures
            self@.len() == 0 ==> position is None,
            self@.len() > 0 ==> position is Some && {
                ||| exists|k: int|
                    {
                        &&& 1 <= k < self@.len()
                        &&& self@.passed_by(blend, k)
                        &&& #[trigger] self@.blend_gives(blend, k, position)
                    }
                ||| self@.passed_by(blend, self@.len() as int) && position == Some(
                    self@.point(self@.len() - 1),
                )
            },
    {
        let n = self.samples.len();
        if n == 0 {
            return None;
        }
        let mut i: usize = 1;
        while i < n
            invariant
                n == self.samples@.len(),
                1 <= i <= n,
                self@.passed_by(blend, i as int),
                forall|j: int| 1 <= j < self@.len() ==> #[trigger] self@.blend_allowed(blend, j),
            decreases n - i,
        {
            assert(self@.blend_allowed(blend, i as int));
            let found = blend(i, &self.samples[i - 1].0, &self.samples[i].0);
            assert(self@.blend_gives(blend, i as int, found));
            match found {
                Some(position) => {
                    return Some(position);
                },
                None => {},
            }
            i += 1;
        }
        Some(self.samples[n - 1].0)
    }
}

/// Where a point of the Poincare disk lies, by its distance from the
/// centre.
#[derive(Debug, Clone, Copy, PartialEq, Eq, Structural)]
pub enum DiskRegion {
    /// Closer to the centre than a hundredth of the disk's radius.
    NearOrigin,
    /// Neither near the centre nor at the rim.
    Interior,
    /// At the rim or beyond it: from ninety-nine hundredths of the radius.
    NearBoundary,
}

/// How a geodesic of the Poincare disk is constructed.
#[derive(Debug, Clone, Copy, PartialEq, Eq, Structural)]
pub enum HyperbolicConstruction {
    /// An endpoint lies at the rim: a straight line in space stands in.
    BoundaryFallback,
    /// An endpoint lies near the centre: the geodesic is a straight line
    /// of the disk.
    StraightLine,
    /// The arc of the circle through both points that meets the rim at
    /// right angles.
    OrthogonalArc,
}

impl HyperbolicConstruction {
    /// The construction for two endpoints: the rim is looked at first, then
    /// the centre.
    pub open spec fn choose_for(start: DiskRegion, end: DiskRegion) -> HyperbolicConstruction {
        if start == DiskRegion::NearBoundary || end == DiskRegion::NearBoundary {
            HyperbolicConstruction::BoundaryFallback
        } else if start == DiskRegion::NearOrigin || end == DiskRegion::NearOrigin {
            HyperbolicConstruction::StraightLine
        } else {
            HyperbolicConstruction::OrthogonalArc
        }
    }

    /// The geometry that a path of this construction is tagged with: the
    /// stand-in line is a Euclidean path, the other two are hyperbolic.
    pub open spec fn tag(self) -> GeometryType {
        if self == HyperbolicConstruction::BoundaryFallback {
            GeometryType::Euclidean
        } else {
            GeometryType::Hyperbolic
        }
    }

    /// Computes the geometry that a path of this construction is tagged with.
    pub fn path_geometry(self) -> (geometry: GeometryType)
        ensures
            geometry == self.tag(),
    {
        match self {
            HyperbolicConstruction::BoundaryFallback => GeometryType::Euclidean,
            HyperbolicConstruction::StraightLine => GeometryType::Hyperbolic,
            HyperbolicConstruction::OrthogonalArc => GeometryType::Hyperbolic,
        }
    }
}

/// One sweep of the relaxation solver took `before` to `after`: the two
/// ends stayed, and every point between them was replaced, from first to
/// last, by what `update` made of its new predecessor, itself and its old
/// successor.
pub open spec fn swept<P, F: Fn(&P, &P, &P) -> P>(update: F, before: Seq<P>, after: Seq<P>) -> bool {
    &&& after.len() == before.len()
    &&& before.len() > 0 ==> after[0] == before[0] && after.last() == before.last()
    &&& forall|i: int|
        1 <= i < before.len() - 1 ==> call_ensures(
            update,
            (&after[i - 1], &before[i], &before[i + 1]),
            #[trigger] after[i],
        )
}

/// `states` records a relaxation: each state came from the one before it
/// by one sweep.
pub open spec fn relaxed<P, F: Fn(&P, &P, &P) -> P>(update: F, states: Seq<Seq<P>>) -> bool {
    forall|k: int| 1 <= k < states.len() ==> swept(update, states[k - 1], #[trigger] states[k])
}

/// Geodesic solver.
pub struct Geodesic;

impl Geodesic {
    /// Chooses the construction of a geodesic of the Poincare disk from
    /// where its two endpoints lie.
    pub fn hyperbolic_construction(start: DiskRegion, end: DiskRegion) -> (construction:
        HyperbolicConstruction)
        ensures
            construction == HyperbolicConstruction::choose_for(start, end),
    {
        if start == DiskRegion::NearBoundary || end == DiskRegion::NearBoundary {
            HyperbolicConstruction::BoundaryFallback
        } else if start == DiskRegion::NearOrigin || end == DiskRegion::NearOrigin {
            HyperbolicConstruction::StraightLine
        } else {
            HyperbolicConstruction::OrthogonalArc
        }
    }

    /// Builds a path of `steps + 1` samples: `sample` is asked for the
    /// samples `0..=steps`, in this order, and each is appended to the
    /// path as it comes.
    pub fn trace<P, T, F: Fn(usize) -> (P, T)>(geometry: GeometryType, steps: usize, sample: F) -> (path:
        GeodesicPath<P, T>)
        requires
            steps < usize::MAX,
            forall|i: usize| i <= steps ==> call_requires(sample, (i,)),
        ensures
            path@.geometry == geometry,
            path@.len() == steps + 1,
            forall|i: int|
                0 <= i <= steps ==> call_ensures(sample, (i as usize,), #[trigger] path@.samples[i]),
    {
        let mut path: GeodesicPath<P, T> = GeodesicPath::new(geometry);
        let mut i: usize = 0;
        while i <= steps
            invariant
                steps < usize::MAX,
                i <= steps + 1,
                path@.geometry == geometry,
                path@.len() == i,
                forall|j: usize| j <= steps ==> call_requires(sample, (j,)),
                forall|j: int|
                    0 <= j < i ==> call_ensures(sample, (j as usize,), #[trigger] path@.samples[j]),
            decreases steps + 1 - i,
        {
            let (point, tangent) = sample(i);
            path.add_point(point, tangent);
            i += 1;
        }
        path
    }

    /// One sweep of the relaxation solver over a polyline: the two ends
    /// stay, and every point between them is replaced in turn.
    pub fn relax_once<P, F: Fn(&P, &P, &P) -> P>(points: &mut Vec<P>, update: &F)
        requires
            forall|a: P, b: P, c: P| call_requires(*update, (&a, &b, &c)),
        ensures
            swept(*update, old(points)@, final(points)@),
    {
        let n = points.len();
        if n < 3 {
            return ;
        }
        let mut i: usize = 1;
        while i < n - 1
            invariant
                n >= 3,
                n == points@.len(),
                n == old(points)@.len(),
                1 <= i <= n - 1,
                points@[0] == old(points)@[0],
                forall|j: int| i <= j < n ==> #[trigger] points@[j] == old(points)@[j],
                forall|j: int|
                    1 <= j < i ==> call_ensures(
                        *update,
                        (&points@[j - 1], &old(points)@[j], &old(points)@[j + 1]),
                        #[trigger] points@[j],
                    ),
                forall|a: P, b: P, c: P| call_requires(*update, (&a, &b, &c)),
            decreases n - i,
        {
            let moved = update(&points[i - 1], &points[i], &points[i + 1]);
            points.set(i, moved);
            i += 1;
        }
    }

    /// The relaxation solver: sweeps over the polyline `iterations` times.
    /// The number of points and the two ends never change.
    pub fn relax<P, F: Fn(&P, &P, &P) -> P>(points: &mut Vec<P>, iterations: usize, update: F)
        requires
            forall|a: P, b: P, c: P| call_requires(update, (&a, &b, &c)),
        ensures
            exists|states: Seq<Seq<P>>|
                {
                    &&& states.len() == iterations + 1
                    &&& states[0] == old(points)@
                    &&& states.last() == final(points)@
                    &&& #[trigger] relaxed(update, states)
                },
            final(points)@.len() == old(points)@.len(),
            old(points)@.len() > 0 ==> final(points)@[0] == old(points)@[0] && final(points)@.last() == old(points)@.last(),
    {
        let ghost mut states: Seq<Seq<P>> = seq![points@];
        let mut round: usize = 0;
        while round < iterations
            invariant
                round <= iterations,
                states.len() == round + 1,
                states[0] == old(points)@,
                states.last() == points@,
                relaxed(update, states),
                points@.len() == old(points)@.len(),
                old(points)@.len() > 0 ==> points@[0] == old(points)@[0] && points@.last() == old(points)@.last(),
                forall|a: P, b: P, c: P| call_requires(update, (&a, &b, &c)),
            decreases iterations - round,
        {
            let ghost before = points@;
            Self::relax_once(points, &update);
            proof {
                states = states.push(points@);
                assert(swept(update, before, points@));
            }
            round += 1;
        }
    }
}

/// The construction of a hyperbolic geodesic looks at the rim before the
/// centre: a boundary point always gives the stand-in line, whose path is
/// tagged Euclidean, and only two interior points give the arc.
pub proof fn lemma_hyperbolic_construction(start: DiskRegion, end: DiskRegion)
    ensures
        HyperbolicConstruction::choose_for(start, end) == HyperbolicConstruction::choose_for(
            end,
            start,
        ),
        HyperbolicConstruction::choose_for(start, end) == HyperbolicConstruction::OrthogonalArc
            <==> start == DiskRegion::Interior && end == DiskRegion::Interior,
        HyperbolicConstruction::choose_for(start, end).tag() == GeometryType::Euclidean <==> start
            == DiskRegion::NearBoundary || end == DiskRegion::NearBoundary,
{
}

} // verus!
