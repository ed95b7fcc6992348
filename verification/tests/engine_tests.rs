use eskf::{Builder, ESKF};
use geofusion::position::position_fusion::{Observation, Offset, PositionFusion, Propagation};
use geofusion::position::{Ecef, GuardedStore, RawValues, Vector2, Vector3};
use nalgebra::{Matrix2, Point3};
use nav_types::{ECEF, ENU, WGS84};
use std::time::Duration;

fn to_ecef(p: Ecef) -> ECEF<f32> {
    ECEF::new(f32::from_bits(p.x), f32::from_bits(p.y), f32::from_bits(p.z))
}

fn from_ecef(p: ECEF<f32>) -> Ecef {
    Ecef { x: p.x().to_bits(), y: p.y().to_bits(), z: p.z().to_bits() }
}

fn vector3(x: f32, y: f32, z: f32) -> Vector3 {
    Vector3 { x: x.to_bits(), y: y.to_bits(), z: z.to_bits() }
}

fn build() -> ESKF {
    Builder::new().build()
}

fn tangent_point(offset: Offset) -> Point3<f32> {
    match offset {
        Offset::Origin => Point3::new(0.0f32, 0.0, 0.0),
        Offset::Relative { reference, fix } => {
            let rel = to_ecef(reference) - to_ecef(fix);
            Point3::new(rel.east(), rel.north(), rel.up())
        }
    }
}

fn observe(kalman: &mut ESKF, o: Observation) {
    match o {
        Observation::PositionVelocity { offset, position_variance, velocity, velocity_variance } => {
            kalman
                .observe_position_velocity2d(
                    tangent_point(offset),
                    ESKF::variance_from_element(f32::from_bits(position_variance)),
                    nalgebra::Vector2::new(f32::from_bits(velocity.x), f32::from_bits(velocity.y)),
                    Matrix2::from_diagonal_element(f32::from_bits(velocity_variance)),
                )
                .expect("Filter update failed")
        }
        Observation::Position { offset, variance } => kalman
            .observe_position(
                tangent_point(offset),
                ESKF::variance_from_element(f32::from_bits(variance)),
            )
            .expect("Filter update failed"),
    }
}

fn propagate(kalman: &mut ESKF, p: Propagation) {
    kalman.predict(
        nalgebra::Vector3::new(
            f32::from_bits(p.acceleration.x),
            f32::from_bits(p.acceleration.y),
            f32::from_bits(p.acceleration.z),
        ),
        nalgebra::Vector3::new(
            f32::from_bits(p.rotation.x),
            f32::from_bits(p.rotation.y),
            f32::from_bits(p.rotation.z),
        ),
        Duration::from_nanos(p.dt),
    );
}

fn locate(reference: Ecef, kalman: &ESKF) -> Ecef {
    let rel = ENU::new(kalman.position[0], kalman.position[1], kalman.position[2]);
    from_ecef(to_ecef(reference) + rel)
}

fn berlin() -> Ecef {
    from_ecef(ECEF::from(WGS84::from_degrees_and_meters(52.5f32, 13.4, 0.0)))
}

fn north_of_berlin(metres: f32) -> Ecef {
    from_ecef(to_ecef(berlin()) + ENU::new(0.0f32, metres, 0.0))
}

#[test]
fn the_first_fix_is_the_fused_position() {
    let mut fusion: PositionFusion<ESKF> = PositionFusion::new();
    fusion.update_global_position(berlin(), None, build, observe);
    let fused = fusion.get_global_position(locate).unwrap();
    assert!(to_ecef(fused).distance(&to_ecef(berlin())) < 1e-3);
}

#[test]
fn the_first_fix_with_velocity_is_the_fused_position() {
    let mut fusion: PositionFusion<ESKF> = PositionFusion::new();
    let v = Vector2 { x: 1.5f32.to_bits(), y: (-0.5f32).to_bits() };
    fusion.update_global_position(berlin(), Some(v), build, observe);
    let fused = fusion.get_global_position(locate).unwrap();
    assert!(to_ecef(fused).distance(&to_ecef(berlin())) < 1e-3);
}

#[test]
fn the_first_fix_after_a_reset_is_the_fused_position() {
    let mut fusion: PositionFusion<ESKF> = PositionFusion::new();
    fusion.update_global_position(berlin(), None, build, observe);
    fusion.update_global_position(north_of_berlin(25.0), None, build, observe);
    fusion.reset();
    assert_eq!(fusion.get_global_position(locate), None);
    let fix = north_of_berlin(100.0);
    fusion.update_global_position(fix, None, build, observe);
    assert_eq!(fusion.reference_position(), Some(fix));
    let fused = fusion.get_global_position(locate).unwrap();
    assert!(to_ecef(fused).distance(&to_ecef(fix)) < 1e-3);
}

#[test]
fn a_later_fix_is_observed_relative_to_the_anchor() {
    let mut fusion: PositionFusion<ESKF> = PositionFusion::new();
    fusion.update_global_position(berlin(), None, build, observe);
    let mut seen = None;
    fusion.update_global_position(north_of_berlin(10.0), None, build, |k: &mut ESKF, o| {
        seen = Some(o);
        observe(k, o)
    });
    assert_eq!(
        seen,
        Some(Observation::Position {
            offset: Offset::Relative { reference: berlin(), fix: north_of_berlin(10.0) },
            variance: 0.1f32.to_bits(),
        })
    );
    assert_eq!(fusion.reference_position(), Some(berlin()));
    assert!(fusion.get_global_position(locate).is_some());
}

#[test]
fn the_filter_is_propagated_over_the_elapsed_time() {
    let mut fusion: PositionFusion<ESKF> = PositionFusion::new();
    fusion.update_global_position(berlin(), None, build, observe);
    fusion.last_prediction = Some(0);
    // One second of one m/s² along the device x axis, gravity cancelled.
    fusion.predict(vector3(1.0, 0.0, 9.81), vector3(0.0, 0.0, 0.0), 1_000_000_000, propagate);
    assert_eq!(fusion.last_prediction, Some(1_000_000_000));
    let kalman = fusion.anchor.as_ref().unwrap().filter;
    assert!((kalman.velocity[0] - 1.0).abs() < 1e-3);
    assert!((kalman.position[0] - 0.5).abs() < 1e-3);
}

#[test]
fn a_prediction_before_the_first_fix_leaves_no_estimate() {
    let mut fusion: PositionFusion<ESKF> = PositionFusion::new();
    fusion.predict(vector3(0.0, 0.0, 9.81), vector3(0.0, 0.0, 0.0), 5, propagate);
    assert!(!fusion.is_anchored());
    assert_eq!(fusion.get_global_position(locate), None);
}

#[test]
fn a_new_store_has_no_samples_and_no_position() {
    let store: GuardedStore<ESKF> = GuardedStore::new();
    assert_eq!(store.get_raw_data(), RawValues::new());
    assert_eq!(store.get_global_position(locate), None);
}

#[test]
fn a_fix_reaches_the_aggregator_and_the_core() {
    let store: GuardedStore<ESKF> = GuardedStore::new();
    let v = Vector2 { x: 1.0f32.to_bits(), y: 2.0f32.to_bits() };
    store.fix(berlin(), 0.07f32.to_bits(), Some(v), build, observe);
    let raw = store.get_raw_data();
    assert_eq!(raw.position, Some(berlin()));
    assert_eq!(raw.magnetic_declination, 0.07f32.to_bits());
    assert_eq!(raw.velocity, v);
    let fused = store.get_global_position(locate).unwrap();
    assert!(to_ecef(fused).distance(&to_ecef(berlin())) < 1e-3);
    assert_eq!(store.position_fusion.open_locked(|f| f.reference_position(), None), Some(berlin()));
}

#[test]
fn inertial_events_reach_the_aggregator() {
    let store: GuardedStore<ESKF> = GuardedStore::new();
    store.fix(berlin(), 0.25f32.to_bits(), None, build, observe);
    store.motion(vector3(0.0, 0.0, 9.81), 10, propagate);
    store.orientation(
        vector3(1.0, 0.5, -0.5),
        20,
        |yaw, declination| (f32::from_bits(yaw) - f32::from_bits(declination)).to_bits(),
        propagate,
    );
    let raw = store.get_raw_data();
    assert_eq!(raw.acceleration, vector3(0.0, 0.0, 9.81));
    assert_eq!(raw.orientation, vector3(0.75, 0.5, -0.5));
    assert_eq!(raw.position, Some(berlin()));
}

#[test]
fn inertial_events_drive_the_prediction() {
    let store: GuardedStore<ESKF> = GuardedStore::new();
    store.fix(berlin(), 0.0f32.to_bits(), None, build, observe);
    store.position_fusion.open_locked(|f| f.last_prediction = Some(0), ());
    let mut given = Vec::new();
    store.motion(vector3(1.0, 2.0, 3.0), 40, |_: &mut ESKF, p| given.push(p));
    store.orientation(
        vector3(0.5, 0.25, 0.125),
        100,
        |yaw, _| yaw,
        |_: &mut ESKF, p| given.push(p),
    );
    assert_eq!(
        given,
        vec![
            Propagation {
                acceleration: vector3(1.0, 2.0, 3.0),
                rotation: vector3(0.0, 0.0, 0.0),
                dt: 40,
            },
            Propagation {
                acceleration: vector3(1.0, 2.0, 3.0),
                rotation: vector3(0.5, 0.25, 0.125),
                dt: 60,
            },
        ]
    );
}

#[test]
fn resetting_the_store_forgets_the_anchor_but_not_the_samples() {
    let store: GuardedStore<ESKF> = GuardedStore::new();
    store.fix(berlin(), 0.07f32.to_bits(), None, build, observe);
    store.reset();
    assert_eq!(store.get_global_position(locate), None);
    assert_eq!(store.get_raw_data().position, Some(berlin()));
    store.fix(north_of_berlin(50.0), 0.07f32.to_bits(), None, build, observe);
    let fused = store.get_global_position(locate).unwrap();
    assert!(to_ecef(fused).distance(&to_ecef(north_of_berlin(50.0))) < 1e-3);
}

#[test]
fn a_store_with_empty_slots_degrades() {
    let store: GuardedStore<ESKF> = GuardedStore {
        raw_values: geofusion::mutex_box::MutexBox::new(),
        position_fusion: geofusion::mutex_box::MutexBox::new(),
    };
    store.fix(berlin(), 0, None, build, observe);
    store.motion(vector3(0.0, 0.0, 9.81), 10, propagate);
    store.reset();
    assert_eq!(store.get_raw_data(), RawValues::new());
    assert_eq!(store.get_global_position(locate), None);
}
