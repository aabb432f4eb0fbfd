use metatopia_engine::manifold::geodesic::{
    DiskRegion, Geodesic, GeodesicPath, HyperbolicConstruction, RELAXATION_ITERATIONS,
};
use metatopia_engine::manifold::metric::{GeometryType, Metric};

fn lerp3(start: [f32; 3], end: [f32; 3], t: f32) -> [f32; 3] {
    [
        start[0] + (end[0] - start[0]) * t,
        start[1] + (end[1] - start[1]) * t,
        start[2] + (end[2] - start[2]) * t,
    ]
}

fn length3(a: [f32; 3], b: [f32; 3]) -> f32 {
    ((b[0] - a[0]).powi(2) + (b[1] - a[1]).powi(2) + (b[2] - a[2]).powi(2)).sqrt()
}

#[test]
fn geodesic_computation() {
    let metric = Metric::from_geometry(GeometryType::Euclidean);
    let start = [0.0f32, 0.0, 0.0];
    let end = [1.0f32, 1.0, 0.0];
    let steps = 10usize;
    let norm = length3(start, end);
    let direction = [(end[0] - start[0]) / norm, (end[1] - start[1]) / norm, 0.0];
    let path = Geodesic::trace(metric.geometry, steps, |i: usize| {
        (lerp3(start, end, i as f32 / steps as f32), direction)
    });
    assert_eq!(path.len(), 11);
}

#[test]
fn trace_makes_one_sample_more_than_steps() {
    for steps in [0usize, 1, 2, 7, 100] {
        let path = Geodesic::trace(GeometryType::Custom, steps, |i: usize| (i * 3, i + 1));
        assert_eq!(path.len(), steps + 1);
        assert_eq!(path.geometry(), GeometryType::Custom);
        for i in 0..=steps {
            assert_eq!(path.point(i), Some(&(i * 3)));
            assert_eq!(path.tangent_at(i), Some(&(i + 1)));
        }
        assert_eq!(path.point(steps + 1), None);
        assert_eq!(path.last_point(), Some(&(steps * 3)));
    }
}

#[test]
fn euclidean_path_runs_from_start_to_end() {
    let start = [1.0f32, -2.0, 0.5];
    let end = [4.0f32, 2.0, 0.5];
    let steps = 8usize;
    let path = Geodesic::trace(GeometryType::Euclidean, steps, |i: usize| {
        (lerp3(start, end, i as f32 / steps as f32), ())
    });
    let first = *path.point(0).unwrap();
    let last = *path.last_point().unwrap();
    for axis in 0..3 {
        assert!((first[axis] - start[axis]).abs() < 1e-6);
        assert!((last[axis] - end[axis]).abs() < 1e-6);
    }
    let arc_length = path.fold_segments(0.0f32, |sum: f32, a: &[f32; 3], b: &[f32; 3]| {
        sum + length3(*a, *b)
    });
    assert!((arc_length - 5.0).abs() < 1e-4);
}

#[test]
fn empty_path_has_nothing_to_give() {
    let path: GeodesicPath<i32, i32> = GeodesicPath::new(GeometryType::Spherical);
    assert!(path.is_empty());
    assert_eq!(path.len(), 0);
    assert_eq!(path.geometry(), GeometryType::Spherical);
    assert_eq!(path.point(0), None);
    assert_eq!(path.last_point(), None);
    assert_eq!(path.tangent_at(0), None);
    assert_eq!(path.interpolate(|_i: usize, _a: &i32, _b: &i32| Some(1)), None);
    assert_eq!(path.fold_segments(42, |sum: i32, _a: &i32, _b: &i32| sum + 1), 42);
}

#[test]
fn tangent_lookup_stops_at_the_last_sample() {
    let mut path: GeodesicPath<i32, char> = GeodesicPath::new(GeometryType::Euclidean);
    path.add_point(10, 'a');
    path.add_point(20, 'b');
    path.add_point(30, 'c');
    assert_eq!(path.tangent_at(0), Some(&'a'));
    assert_eq!(path.tangent_at(1), Some(&'b'));
    assert_eq!(path.tangent_at(2), Some(&'c'));
    assert_eq!(path.tangent_at(3), Some(&'c'));
    assert_eq!(path.tangent_at(usize::MAX), Some(&'c'));
}

#[test]
fn fold_segments_walks_in_order() {
    let mut path: GeodesicPath<i64, ()> = GeodesicPath::new(GeometryType::Euclidean);
    path.add_point(1, ());
    assert_eq!(path.fold_segments(7i64, |sum: i64, _a: &i64, _b: &i64| sum * 2), 7);
    path.add_point(4, ());
    path.add_point(9, ());
    path.add_point(10, ());
    let total = path.fold_segments(0i64, |sum: i64, a: &i64, b: &i64| sum * 10 + (b - a));
    assert_eq!(total, 351);
}

#[test]
fn interpolate_takes_the_first_segment_that_answers() {
    let mut path: GeodesicPath<i32, ()> = GeodesicPath::new(GeometryType::Euclidean);
    for point in [0, 10, 20, 30] {
        path.add_point(point, ());
    }
    let on_second = path.interpolate(|i: usize, a: &i32, b: &i32| {
        if i >= 2 {
            Some((a + b) / 2)
        } else {
            None
        }
    });
    assert_eq!(on_second, Some(15));
    let on_first = path.interpolate(|i: usize, a: &i32, _b: &i32| Some(*a + i as i32));
    assert_eq!(on_first, Some(1));
    let nowhere = path.interpolate(|_i: usize, _a: &i32, _b: &i32| None);
    assert_eq!(nowhere, Some(30));
}

#[test]
fn interpolate_by_arc_length_meets_both_ends() {
    let start = [0.0f32, 0.0, 0.0];
    let end = [3.0f32, 4.0, 0.0];
    let steps = 5usize;
    let path = Geodesic::trace(GeometryType::Euclidean, steps, |i: usize| {
        (lerp3(start, end, i as f32 / steps as f32), ())
    });
    let arc_length = path.fold_segments(0.0f32, |sum: f32, a: &[f32; 3], b: &[f32; 3]| {
        sum + length3(*a, *b)
    });
    let at = |t: f32| {
        let target = t.max(0.0).min(1.0) * arc_length;
        path.interpolate(|i: usize, a: &[f32; 3], b: &[f32; 3]| {
            let mut before = 0.0f32;
            for k in 1..i {
                before += length3(*path.point(k - 1).unwrap(), *path.point(k).unwrap());
            }
            let segment = length3(*a, *b);
            if before + segment >= target {
                Some(lerp3(*a, *b, (target - before) / segment))
            } else {
                None
            }
        })
        .unwrap()
    };
    let first = at(0.0);
    let last = at(1.0);
    let middle = at(0.5);
    for axis in 0..3 {
        assert!((first[axis] - start[axis]).abs() < 1e-4);
        assert!((last[axis] - end[axis]).abs() < 1e-4);
    }
    assert!((middle[0] - 1.5).abs() < 1e-4);
    assert!((middle[1] - 2.0).abs() < 1e-4);
}

#[test]
fn hyperbolic_construction_looks_at_the_rim_first() {
    let (origin, inside, rim) = (DiskRegion::NearOrigin, DiskRegion::Interior, DiskRegion::NearBoundary);
    let fallback = HyperbolicConstruction::BoundaryFallback;
    let line = HyperbolicConstruction::StraightLine;
    let arc = HyperbolicConstruction::OrthogonalArc;
    assert_eq!(Geodesic::hyperbolic_construction(inside, inside), arc);
    assert_eq!(Geodesic::hyperbolic_construction(origin, inside), line);
    assert_eq!(Geodesic::hyperbolic_construction(inside, origin), line);
    assert_eq!(Geodesic::hyperbolic_construction(origin, origin), line);
    assert_eq!(Geodesic::hyperbolic_construction(rim, inside), fallback);
    assert_eq!(Geodesic::hyperbolic_construction(inside, rim), fallback);
    assert_eq!(Geodesic::hyperbolic_construction(origin, rim), fallback);
    assert_eq!(Geodesic::hyperbolic_construction(rim, origin), fallback);
    assert_eq!(fallback.path_geometry(), GeometryType::Euclidean);
    assert_eq!(line.path_geometry(), GeometryType::Hyperbolic);
    assert_eq!(arc.path_geometry(), GeometryType::Hyperbolic);
}

#[test]
fn relaxation_keeps_both_ends() {
    let mut points: Vec<i64> = vec![0, 100, 0, 100, 0, 64];
    Geodesic::relax(&mut points, RELAXATION_ITERATIONS, |prev: &i64, _curr: &i64, next: &i64| {
        (prev + next) / 2
    });
    assert_eq!(points.len(), 6);
    assert_eq!(points[0], 0);
    assert_eq!(points[5], 64);
    for i in 1..points.len() {
        assert!(points[i - 1] <= points[i]);
    }
}

#[test]
fn relaxation_sweeps_from_first_to_last() {
    let mut points: Vec<i64> = vec![1, 2, 3, 4];
    Geodesic::relax_once(&mut points, &|prev: &i64, curr: &i64, next: &i64| {
        prev * 100 + curr * 10 + next
    });
    assert_eq!(points, vec![1, 123, 12334, 4]);
    let mut short: Vec<i64> = vec![5, 6];
    Geodesic::relax(&mut short, 3, |_p: &i64, _c: &i64, _n: &i64| 0);
    assert_eq!(short, vec![5, 6]);
    let mut none: Vec<i64> = Vec::new();
    Geodesic::relax(&mut none, 3, |_p: &i64, _c: &i64, _n: &i64| 0);
    assert!(none.is_empty());
    let mut twice: Vec<i64> = vec![0, 0, 8];
    Geodesic::relax(&mut twice, 0, |p: &i64, _c: &i64, n: &i64| (p + n) / 2);
    assert_eq!(twice, vec![0, 0, 8]);
    Geodesic::relax(&mut twice, 2, |p: &i64, c: &i64, n: &i64| p + c + n + 1);
    assert_eq!(twice, vec![0, 18, 8]);
    assert_eq!(RELAXATION_ITERATIONS, 20);
}
