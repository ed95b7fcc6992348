//! Carriers for sensor readings and the aggregator that keeps the latest
//! sample of every channel.
//!
//! The library never interprets a reading. Every single-precision value is
//! carried as its IEEE-754 binary32 bit pattern in a `u32`, every
//! double-precision value as its binary64 bit pattern in a `u64`; the host
//! converts at the boundary. The all-zero pattern is the value zero.
use crate::mutex_box::MutexBox;
use crate::position::position_fusion::{Observation, PositionFusion, Propagation};
use vstd::prelude::*;

pub mod declination;
pub mod position_fusion;

verus! {

/// Two readings in the tangent plane: `x` points east, `y` points north.
#[derive(Clone, Copy, Debug, PartialEq, Eq, Structural)]
pub struct Vector2 {
    pub x: u32,
    pub y: u32,
}

/// Three readings. For an orientation they are yaw, pitch and roll in
/// radians; for an acceleration they are the device axes in m/s².
#[derive(Clone, Copy, Debug, PartialEq, Eq, Structural)]
pub struct Vector3 {
    pub x: u32,
    pub y: u32,
    pub z: u32,
}

/// An earth-centred, earth-fixed position in metres.
#[derive(Clone, Copy, Debug, PartialEq, Eq, Structural)]
pub struct Ecef {
    pub x: u32,
    pub y: u32,
    pub z: u32,
}

impl Vector2 {
    /// The zero vector.
    pub open spec fn spec_zero() -> Vector2 {
        Vector2 { x: 0, y: 0 }
    }

    /// The zero vector.
    #[verifier::when_used_as_spec(spec_zero)]
    pub fn zero() -> (v: Vector2)
        ensures
            v == Vector2::spec_zero(),
    {
        Vector2 { x: 0, y: 0 }
    }
}

impl Vector3 {
    /// The zero vector.
    pub open spec fn spec_zero() -> Vector3 {
        Vector3 { x: 0, y: 0, z: 0 }
    }

    /// The zero vector.
    #[verifier::when_used_as_spec(spec_zero)]
    pub fn zero() -> (v: Vector3)
        ensures
            v == Vector3::spec_zero(),
    {
        Vector3 { x: 0, y: 0, z: 0 }
    }
}

/// The three axes of an inertial or attitude sample, if the sensor reported
/// all of them. A sample that lacks an axis is no sample.
///
/// The readings are carried as bit patterns of double-precision values, as
/// the sensor gives them.
pub fn complete_sample(x: Option<u64>, y: Option<u64>, z: Option<u64>) -> (sample: Option<
    (u64, u64, u64),
>)
    ensures
        sample == (match (x, y, z) {
            (Some(a), Some(b), Some(c)) => Some((a, b, c)),
            _ => None,
        }),
{
    match (x, y, z) {
        (Some(a), Some(b), Some(c)) => Some((a, b, c)),
        _ => None,
    }
}

/// The speed and the heading of a fix, if it reported both. A fix that
/// lacks either has no velocity.
pub fn speed_and_heading(speed: Option<u64>, heading: Option<u64>) -> (both: Option<(u64, u64)>)
    ensures
        both == (match (speed, heading) {
            (Some(s), Some(h)) => Some((s, h)),
            _ => None,
        }),
{
    match (speed, heading) {
        (Some(s), Some(h)) => Some((s, h)),
        _ => None,
    }
}

/// The altitude of a fix; zero when the fix reported none.
pub fn altitude_or_zero(altitude: Option<u64>) -> (metres: u64)
    ensures
        metres == (match altitude {
            Some(a) => a,
            None => 0u64,
        }),
{
    match altitude {
        Some(a) => a,
        None => 0,
    }
}

/// What a prediction is fed: the stored acceleration and the stored
/// attitude, as they stand right after an inertial event was recorded.
#[derive(Clone, Copy, Debug, PartialEq, Eq, Structural)]
pub struct InertialInput {
    pub acceleration: Vector3,
    pub rotation: Vector3,
}

/// The most recent sample of every sensor channel.
///
/// The channels are written independently of each other: a write to one
/// never disturbs another.
#[derive(Clone, Copy, Debug, PartialEq, Eq)]
pub struct RawValues {
    /// Last absolute fix, absent until the first one arrives.
    pub position: Option<Ecef>,
    /// Velocity over ground (east, north) in m/s, from the last fix that
    /// reported speed and heading.
    pub velocity: Vector2,
    /// Device attitude (yaw, pitch, roll) in radians; the yaw has the
    /// magnetic declination already taken off.
    pub orientation: Vector3,
    /// Device-frame acceleration in m/s², gravity included.
    pub acceleration: Vector3,
    /// Magnetic declination in radians, as computed at the last fix.
    pub magnetic_declination: u32,
}

impl RawValues {
    /// The state before any sample has arrived.
    pub open spec fn initial() -> RawValues {
        RawValues {
            position: None,
            velocity: Vector2::spec_zero(),
            orientation: Vector3::spec_zero(),
            acceleration: Vector3::spec_zero(),
            magnetic_declination: 0,
        }
    }

    /// An aggregator that has seen no sample: no position, every other
    /// channel zero.
    pub fn new() -> (raw: RawValues)
        ensures
            raw == RawValues::initial(),
    {
        RawValues {
            position: None,
            velocity: Vector2::zero(),
            orientation: Vector3::zero(),
            acceleration: Vector3::zero(),
            magnetic_declination: 0,
        }
    }

    /// Stores an absolute fix.
    pub fn set_position_fix(&mut self, position: Ecef)
        ensures
            *final(self) == (RawValues { position: Some(position), ..*old(self) }),
    {
        self.position = Some(position);
    }

    /// Stores a velocity over ground.
    pub fn set_velocity(&mut self, velocity: Vector2)
        ensures
            *final(self) == (RawValues { velocity, ..*old(self) }),
    {
        self.velocity = velocity;
    }

    /// Stores a device attitude whose yaw is already declination-corrected.
    pub fn set_orientation(&mut self, orientation: Vector3)
        ensures
            *final(self) == (RawValues { orientation, ..*old(self) }),
    {
        self.orientation = orientation;
    }

    /// Stores a device-frame acceleration.
    pub fn set_acceleration(&mut self, acceleration: Vector3)
        ensures
            *final(self) == (RawValues { acceleration, ..*old(self) }),
    {
        self.acceleration = acceleration;
    }

    /// Stores a magnetic declination.
    pub fn set_declination(&mut self, declination: u32)
        ensures
            *final(self) == (RawValues { magnetic_declination: declination, ..*old(self) }),
    {
        self.magnetic_declination = declination;
    }

    /// What a fix event leaves behind: the position and the declination are
    /// always replaced, the velocity only when the fix carried one.
    pub open spec fn after_fix(
        self,
        position: Ecef,
        declination: u32,
        velocity: Option<Vector2>,
    ) -> RawValues {
        RawValues {
            position: Some(position),
            magnetic_declination: declination,
            velocity: match velocity {
                Some(v) => v,
                None => self.velocity,
            },
            ..self
        }
    }

    /// Applies one fix event to the position, declination and velocity
    /// channels. Orientation and acceleration are left alone.
    pub fn record_fix(&mut self, position: Ecef, declination: u32, velocity: Option<Vector2>)
        ensures
            *final(self) == old(self).after_fix(position, declination, velocity),
    {
        self.set_position_fix(position);
        self.set_declination(declination);
        match velocity {
            Some(v) => {
                self.set_velocity(v);
            },
            None => {},
        }
    }

    /// Applies one motion event: the acceleration is stored, and the
    /// prediction input is the new acceleration with the stored attitude.
    pub fn record_motion(&mut self, acceleration: Vector3) -> (input: InertialInput)
        ensures
            *final(self) == (RawValues { acceleration, ..*old(self) }),
            input == (InertialInput { acceleration, rotation: old(self).orientation }),
    {
        self.set_acceleration(acceleration);
        InertialInput { acceleration: self.acceleration, rotation: self.orientation }
    }

    /// Applies one attitude event.
    ///
    /// The yaw is corrected before it is stored: `correct` is handed the
    /// reported yaw and the stored declination, and what it returns (the yaw
    /// less the declination) is stored with the reported pitch and roll. The
    /// prediction input is the stored acceleration with the new attitude.
    pub fn record_orientation<C>(&mut self, orientation: Vector3, correct: C) -> (input:
        InertialInput) where C: FnOnce(u32, u32) -> u32
        requires
            call_requires(correct, (orientation.x, old(self).magnetic_declination)),
        ensures
            call_ensures(
                correct,
                (orientation.x, old(self).magnetic_declination),
                final(self).orientation.x,
            ),
            *final(self) == (RawValues {
                orientation: Vector3 { x: final(self).orientation.x, ..orientation },
                ..*old(self)
            }),
            input == (InertialInput {
                acceleration: old(self).acceleration,
                rotation: final(self).orientation,
            }),
    {
        let yaw = correct(orientation.x, self.magnetic_declination);
        self.set_orientation(Vector3 { x: yaw, y: orientation.y, z: orientation.z });
        InertialInput { acceleration: self.acceleration, rotation: self.orientation }
    }

    /// The stored acceleration in the world frame.
    ///
    /// `rotate` is handed the stored attitude and the stored acceleration,
    /// and turns the acceleration by the rotation that the attitude stands
    /// for; what it returns is the result. The yaw was corrected when it
    /// was stored and is not corrected again; gravity is not taken off.
    /// Nothing is stored.
    pub fn get_acceleration<R>(self, rotate: R) -> (world: Vector3) where
        R: FnOnce(Vector3, Vector3) -> Vector3,

        requires
            call_requires(rotate, (self.orientation, self.acceleration)),
        ensures
            call_ensures(rotate, (self.orientation, self.acceleration), world),
    {
        rotate(self.orientation, self.acceleration)
    }
}

impl Default for RawValues {
    fn default() -> (raw: RawValues)
        ensures
            raw == RawValues::initial(),
    {
        RawValues::new()
    }
}

/// The shared state of the engine: one aggregator and one fusion core, each
/// behind its own lock.
///
/// Sensor events and readers may arrive from several producers at once; each
/// takes the locks it needs, does its work and lets go. An access that finds
/// a lock unusable degrades as [`MutexBox`] describes: an event is dropped,
/// a reader gets nothing or the empty aggregate.
#[verifier::reject_recursive_types(F)]
pub struct GuardedStore<F> {
    pub raw_values: MutexBox<RawValues>,
    pub position_fusion: MutexBox<PositionFusion<F>>,
}

impl<F> GuardedStore<F> {
    /// A store that holds an aggregator without samples and an unanchored
    /// fusion core.
    pub fn new() -> (store: Self) {
        GuardedStore {
            raw_values: MutexBox::new_inited(RawValues::new()),
            position_fusion: MutexBox::new_inited(PositionFusion::new()),
        }
    }

    /// A copy of the aggregator as it stands; the empty aggregate when its
    /// lock cannot be taken.
    pub fn get_raw_data(&self) -> (raw: RawValues) {
        self.raw_values.open_locked(
            |raw: &mut RawValues| -> (copy: RawValues)
                ensures
                    copy == *old(raw),
                    *final(raw) == *old(raw)
                { *raw },
            RawValues::new(),
        )
    }

    /// The fused global position, as `PositionFusion::get_global_position`
    /// gives it; nothing when the lock cannot be taken.
    pub fn get_global_position<L>(&self, locate: L) -> (position: Option<Ecef>) where
        L: FnOnce(Ecef, &F) -> Ecef,

        requires
            forall|reference: Ecef, filter: &F| call_requires(locate, (reference, filter)),
        ensures
            position.is_some() ==> exists|state: PositionFusion<F>|
                state.anchored() && #[trigger] call_ensures(
                    locate,
                    (state.reference().unwrap(), &state.filter().unwrap()),
                    position.unwrap(),
                ),
    {
        self.position_fusion.open_locked(
            |pos: &mut PositionFusion<F>| -> (position: Option<Ecef>)
                ensures
                    *final(pos) == *old(pos),
                    position.is_some() == old(pos).anchored(),
                    old(pos).anchored() ==> call_ensures(
                        locate,
                        (old(pos).reference().unwrap(), &old(pos).filter().unwrap()),
                        position.unwrap(),
                    )
                { pos.get_global_position(locate) },
            None,
        )
    }

    /// Resets the fusion core to the unanchored state. The aggregator is
    /// left alone.
    pub fn reset(&self) {
        self.position_fusion.open_locked(
            |pos: &mut PositionFusion<F>|
                ensures
                    *final(pos) == PositionFusion::<F>::initial()
                { pos.reset() },
            (),
        )
    }

    /// Takes in a motion event at time `now`: the aggregator records it,
    /// then the fusion core predicts from what the aggregator hands out.
    pub fn motion<X>(&self, acceleration: Vector3, now: u64, propagate: X) where
        X: FnOnce(&mut F, Propagation),

        requires
            forall|k: &mut F, p: Propagation| call_requires(propagate, (k, p)),
    {
        self.raw_values.open_locked(
            |raw: &mut RawValues|
                {
                    let input = raw.record_motion(acceleration);
                    self.position_fusion.open_locked(
                        |pos: &mut PositionFusion<F>|
                            { pos.predict(input.acceleration, input.rotation, now, propagate) },
                        (),
                    )
                },
            (),
        )
    }

    /// Takes in an attitude event at time `now`: the aggregator records it
    /// with the yaw corrected, then the fusion core predicts from what the
    /// aggregator hands out.
    pub fn orientation<C, X>(&self, orientation: Vector3, now: u64, correct: C, propagate: X)
        where C: FnOnce(u32, u32) -> u32, X: FnOnce(&mut F, Propagation)
        requires
            forall|yaw: u32, declination: u32| call_requires(correct, (yaw, declination)),
            forall|k: &mut F, p: Propagation| call_requires(propagate, (k, p)),
    {
        self.raw_values.open_locked(
            |raw: &mut RawValues|
                {
                    let input = raw.record_orientation(orientation, correct);
                    self.position_fusion.open_locked(
                        |pos: &mut PositionFusion<F>|
                            { pos.predict(input.acceleration, input.rotation, now, propagate) },
                        (),
                    )
                },
            (),
        )
    }

    /// Takes in a fix: the aggregator records position, declination and
    /// velocity, then, with the aggregator released, the fusion core updates
    /// its estimate from the fix.
    pub fn fix<B, O>(
        &self,
        pos: Ecef,
        declination: u32,
        velocity: Option<Vector2>,
        build: B,
        observe: O,
    ) where B: FnOnce() -> F, O: FnOnce(&mut F, Observation)
        requires
            call_requires(build, ()),
            forall|k: &mut F, o: Observation| call_requires(observe, (k, o)),
    {
        self.raw_values.open_locked(
            |raw: &mut RawValues| { raw.record_fix(pos, declination, velocity) },
            (),
        );
        self.position_fusion.open_locked(
            |fusion: &mut PositionFusion<F>|
                { fusion.update_global_position(pos, velocity, build, observe) },
            (),
        )
    }
}

} // verus!
