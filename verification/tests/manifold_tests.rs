use metatopia_engine::manifold::chart::{Chart, ChartId, WrapMode};
use metatopia_engine::manifold::limits;
use metatopia_engine::manifold::metric::{GeometryType, Metric};
use metatopia_engine::manifold::portal::{Portal, PortalId, PortalShape};
use metatopia_engine::manifold::{Manifold, ManifoldError};

#[test]
fn manifold_creation() {
    let manifold = Manifold::new();
    assert_eq!(manifold.charts().len(), 1);
}

#[test]
fn new_manifold_has_chart_zero_euclidean() {
    let manifold = Manifold::new();
    let chart = manifold.chart(ChartId(0)).expect("chart zero");
    assert_eq!(chart.id(), ChartId(0));
    assert_eq!(chart.geometry(), GeometryType::Euclidean);
    assert_eq!(manifold.active_chart().id(), ChartId(0));
    assert!(manifold.chart(ChartId(1)).is_none());
}

#[test]
fn add_chart_numbers_charts_in_sequence() {
    let mut manifold = Manifold::new();
    let geometries = [
        GeometryType::Hyperbolic,
        GeometryType::Spherical,
        GeometryType::Custom,
        GeometryType::Euclidean,
    ];
    for (k, geometry) in geometries.iter().enumerate() {
        let id = manifold.add_chart(*geometry);
        assert_eq!(id, ChartId(k as u32 + 1));
    }
    assert_eq!(manifold.charts().len(), 5);
    for (k, geometry) in geometries.iter().enumerate() {
        let chart = manifold.chart(ChartId(k as u32 + 1)).expect("added chart");
        assert_eq!(chart.id(), ChartId(k as u32 + 1));
        assert_eq!(chart.geometry(), *geometry);
    }
    assert_eq!(manifold.chart(ChartId(0)).unwrap().geometry(), GeometryType::Euclidean);
    assert!(manifold.chart(ChartId(5)).is_none());
}

#[test]
fn create_portal_refuses_unknown_charts() {
    let mut manifold = Manifold::new();
    let other = manifold.add_chart(GeometryType::Spherical);
    assert_eq!(
        manifold.create_portal(ChartId(7), other),
        Err(ManifoldError::ChartNotFound(ChartId(7)))
    );
    assert_eq!(
        manifold.create_portal(other, ChartId(9)),
        Err(ManifoldError::ChartNotFound(ChartId(9)))
    );
    assert_eq!(
        manifold.create_portal(ChartId(8), ChartId(9)),
        Err(ManifoldError::ChartNotFound(ChartId(8)))
    );
    assert_eq!(manifold.charts().len(), 2);
    assert!(manifold.portals_from_chart(other).is_empty());
    assert!(manifold.portals_from_chart(ChartId(0)).is_empty());
    assert_eq!(manifold.create_portal(ChartId(0), other), Ok(PortalId(0)));
}

#[test]
fn create_portal_numbers_portals_in_sequence() {
    let mut manifold = Manifold::new();
    let a = manifold.add_chart(GeometryType::Hyperbolic);
    assert_eq!(manifold.create_portal(ChartId(0), a), Ok(PortalId(0)));
    assert_eq!(manifold.create_portal(a, ChartId(0)), Ok(PortalId(1)));
    assert_eq!(manifold.create_portal(ChartId(0), ChartId(0)), Ok(PortalId(2)));
    let from_zero = manifold.portals_from_chart(ChartId(0));
    assert_eq!(from_zero.len(), 2);
    assert_eq!(from_zero[0].id(), PortalId(0));
    assert_eq!(from_zero[0].target_chart(), a);
    assert_eq!(from_zero[1].id(), PortalId(2));
    assert_eq!(from_zero[1].source_chart(), ChartId(0));
    let from_a = manifold.portals_from_chart(a);
    assert_eq!(from_a.len(), 1);
    assert_eq!(from_a[0].id(), PortalId(1));
}

#[test]
fn set_active_chart_ignores_unknown_ids() {
    let mut manifold = Manifold::new();
    let a = manifold.add_chart(GeometryType::Spherical);
    manifold.set_active_chart(ChartId(5));
    assert_eq!(manifold.active_chart().id(), ChartId(0));
    manifold.set_active_chart(a);
    assert_eq!(manifold.active_chart().id(), a);
    assert_eq!(manifold.active_chart().geometry(), GeometryType::Spherical);
}

fn hit_plane_z(center: [f32; 3], origin: [f32; 3], direction: [f32; 3]) -> Option<[f32; 3]> {
    let denominator = direction[2];
    if denominator.abs() < 1e-6 {
        return None;
    }
    let t = (center[2] - origin[2]) / denominator;
    if t < 0.0 {
        return None;
    }
    let point = [
        origin[0] + direction[0] * t,
        origin[1] + direction[1] * t,
        origin[2] + direction[2] * t,
    ];
    if (point[0] - center[0]).abs() <= 1.0 && (point[1] - center[1]).abs() <= 1.5 {
        Some(point)
    } else {
        None
    }
}

#[test]
fn ray_through_a_cycle_of_portals_hits_the_first_one() {
    let mut manifold = Manifold::new();
    let hyperbolic = manifold.add_chart(GeometryType::Hyperbolic);
    let spherical = manifold.add_chart(GeometryType::Spherical);
    let places: [[f32; 3]; 3] = [[10.0, 0.0, 0.0], [0.5, 0.5, 0.0], [0.0, 1.0, 0.0]];
    let first = manifold.create_portal(ChartId(0), hyperbolic).unwrap();
    let second = manifold.create_portal(hyperbolic, spherical).unwrap();
    let third = manifold.create_portal(spherical, ChartId(0)).unwrap();
    assert_eq!((first, second, third), (PortalId(0), PortalId(1), PortalId(2)));

    // The portal's plane faces along z, so a ray in that plane never meets it.
    let origin = [0.0f32, 0.0, 0.0];
    let along_x = [1.0f32, 0.0, 0.0];
    let miss = manifold.ray_portal_intersection(ChartId(0), |id: PortalId| {
        hit_plane_z(places[id.0 as usize], origin, along_x)
    });
    assert!(miss.is_none());

    // A ray fired at the portal's centre along its normal meets it there.
    let origin = [10.0f32, 0.0, -5.0];
    let along_z = [0.0f32, 0.0, 1.0];
    let hit = manifold.ray_portal_intersection(ChartId(0), |id: PortalId| {
        hit_plane_z(places[id.0 as usize], origin, along_z)
    });
    let (portal, point, target) = hit.expect("the ray meets the portal");
    assert_eq!(portal, first);
    assert_eq!(target, hyperbolic);
    for axis in 0..3 {
        assert!((point[axis] - places[0][axis]).abs() < 1e-5);
    }
}

#[test]
fn first_hit_wins_in_creation_order() {
    let mut manifold = Manifold::new();
    let a = manifold.add_chart(GeometryType::Hyperbolic);
    let b = manifold.add_chart(GeometryType::Spherical);
    manifold.create_portal(a, ChartId(0)).unwrap();
    manifold.create_portal(ChartId(0), a).unwrap();
    manifold.create_portal(ChartId(0), b).unwrap();
    manifold.create_portal(ChartId(0), a).unwrap();
    let all = manifold.ray_portal_intersection(ChartId(0), |id: PortalId| Some(id.0 * 10));
    assert_eq!(all, Some((PortalId(1), 10, a)));
    let later = manifold.ray_portal_intersection(ChartId(0), |id: PortalId| {
        if id.0 >= 2 {
            Some(id.0 * 10)
        } else {
            None
        }
    });
    assert_eq!(later, Some((PortalId(2), 20, b)));
    let none = manifold.ray_portal_intersection(ChartId(0), |_id: PortalId| None::<u32>);
    assert_eq!(none, None);
    let elsewhere = manifold.ray_portal_intersection(b, |id: PortalId| Some(id.0));
    assert_eq!(elsewhere, None);
}

#[test]
fn transform_between_charts_takes_the_first_direct_portal() {
    let mut manifold = Manifold::new();
    let a = manifold.add_chart(GeometryType::Hyperbolic);
    let b = manifold.add_chart(GeometryType::Spherical);
    manifold.create_portal(ChartId(0), b).unwrap();
    manifold.create_portal(ChartId(0), a).unwrap();
    manifold.create_portal(ChartId(0), a).unwrap();
    let offsets = [100i64, 200, 300];
    let same = manifold.transform_between_charts(5i64, a, a, |id: PortalId, p: i64| {
        p + offsets[id.0 as usize]
    });
    assert_eq!(same, Some(5));
    let moved = manifold.transform_between_charts(5i64, ChartId(0), a, |id: PortalId, p: i64| {
        p + offsets[id.0 as usize]
    });
    assert_eq!(moved, Some(205));
    let unreachable = manifold.transform_between_charts(5i64, a, b, |id: PortalId, p: i64| {
        p + offsets[id.0 as usize]
    });
    assert_eq!(unreachable, None);
}

#[test]
fn chart_defaults_follow_the_geometry() {
    let euclidean = Chart::new(ChartId(3), GeometryType::Euclidean);
    assert_eq!(euclidean.id(), ChartId(3));
    assert_eq!(euclidean.bounds().wrap_mode, WrapMode::NoWrap);
    assert_eq!((euclidean.bounds().min.x, euclidean.bounds().max.x), (-1000, 1000));
    assert_eq!((euclidean.bounds().min.z, euclidean.bounds().max.z), (-1000, 1000));
    let spherical = Chart::new(ChartId(4), GeometryType::Spherical);
    assert_eq!(spherical.bounds().wrap_mode, WrapMode::Spherical);
    assert_eq!((spherical.bounds().min.y, spherical.bounds().max.y), (-1, 1));
    let hyperbolic = Chart::new(ChartId(5), GeometryType::Hyperbolic);
    assert_eq!(hyperbolic.bounds().wrap_mode, WrapMode::Hyperbolic);
    assert_eq!((hyperbolic.bounds().min.x, hyperbolic.bounds().max.x), (-1, 1));
    assert_eq!((hyperbolic.bounds().min.z, hyperbolic.bounds().max.z), (-10, 10));
    let custom = Chart::new(ChartId(6), GeometryType::Custom);
    assert_eq!(custom.bounds().wrap_mode, WrapMode::NoWrap);
    assert_eq!((custom.bounds().min.y, custom.bounds().max.y), (-100, 100));
    assert_eq!(*hyperbolic.metric(), Metric::from_geometry(GeometryType::Hyperbolic));
}

#[test]
fn metric_defaults_follow_the_geometry() {
    let flat = Metric::from_geometry(GeometryType::Euclidean);
    assert_eq!((flat.parameters.curvature.numer, flat.parameters.radius), (0, 1));
    let sphere = Metric::from_geometry(GeometryType::Spherical);
    assert_eq!(sphere.parameters.radius, 10);
    assert_eq!(
        sphere.parameters.curvature.numer as i64 * 100,
        2 * sphere.parameters.curvature.denom as i64
    );
    let disk = Metric::from_geometry(GeometryType::Hyperbolic);
    assert_eq!((disk.parameters.curvature.numer, disk.parameters.curvature.denom), (-1, 1));
    assert_eq!(disk.parameters.radius, 1);
    let custom = Metric::from_geometry(GeometryType::Custom);
    assert_eq!(custom.parameters.curvature.numer, 0);
    assert_eq!(custom.scale, 1);
    assert_eq!(custom.geometry, GeometryType::Custom);
}

#[test]
fn reverse_portal_swaps_the_endpoints() {
    let portal = Portal::new(PortalId(4), ChartId(1), ChartId(2));
    assert!(portal.is_active());
    assert!(portal.is_bidirectional());
    assert_eq!(portal.shape(), PortalShape::Rectangular);
    let mut back = portal.create_reverse(PortalId(5));
    assert_eq!(back.id(), PortalId(5));
    assert_eq!(back.source_chart(), ChartId(2));
    assert_eq!(back.target_chart(), ChartId(1));
    assert!(back.is_active());
    back.set_active(false);
    assert!(!back.is_active());
    assert!(portal.is_active());
    let again = back.create_reverse(PortalId(6));
    assert_eq!(again.source_chart(), portal.source_chart());
    assert_eq!(again.target_chart(), portal.target_chart());
    assert!(!again.is_active());
}

#[test]
fn limits_of_the_disk_stand_in_order() {
    let as_number = |ratio: metatopia_engine::math::Ratio| ratio.numer as f64 / ratio.denom as f64;
    assert_eq!(as_number(limits::disk_centre()), 0.01);
    assert_eq!(as_number(limits::disk_wrap()), 0.98);
    assert_eq!(as_number(limits::disk_rim()), 0.99);
    assert_eq!(as_number(limits::conformal_floor()), 0.01);
    assert_eq!(as_number(limits::transport_step()), 0.01);
    assert_eq!(as_number(limits::learning_rate()), 0.1);
    assert_eq!(as_number(limits::small_angle()), 0.001);
    assert_eq!(as_number(limits::parallel_epsilon()), 1e-6);
    assert_eq!(limits::disk_rim().numer as f32 / limits::disk_rim().denom as f32, 0.99f32);
    assert_eq!(limits::parallel_epsilon().numer as f32 / limits::parallel_epsilon().denom as f32, 1e-6f32);
    assert!(0.0 < as_number(limits::disk_centre()));
    assert!(as_number(limits::disk_centre()) < as_number(limits::disk_wrap()));
    assert!(as_number(limits::disk_wrap()) < as_number(limits::disk_rim()));
    assert!(as_number(limits::disk_rim()) < 1.0);
    // The conformal factor of the disk stays finite right up to the rim.
    let floor = as_number(limits::conformal_floor());
    for r2 in [0.0f64, 0.5, 0.98, 0.999999, 1.0, 1.5] {
        let lambda = 2.0 / (1.0 - r2).max(floor);
        assert!(lambda.is_finite());
        assert!(lambda > 0.0 && lambda <= 200.0);
    }
    assert_eq!(metatopia_engine::manifold::portal::DEFAULT_WIDTH, 2);
    assert_eq!(metatopia_engine::manifold::portal::DEFAULT_HEIGHT, 3);
}
