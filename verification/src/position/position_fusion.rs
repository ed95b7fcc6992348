//! The fusion core: an anchor in earth-fixed coordinates, an error-state
//! filter that works relative to that anchor, and the rules that decide what
//! each sensor event does to them.
//!
//! The filter itself is the host's: the library is generic over its type and
//! reaches it only through the functions the host hands in. What the library
//! owns is the bookkeeping: when a filter is created, which observation or
//! propagation it is given, and which anchor its numbers are relative to.
use crate::position::{Ecef, Vector2, Vector3};
use vstd::prelude::*;

verus! {

/// Variance of a position observation, 0.1 m² on every axis, as the bit
/// pattern of the single-precision value.
pub const POSITION_VARIANCE: u32 = 0x3DCC_CCCD;

/// Variance of a velocity observation, 0.1 (m/s)² on both axes, as the bit
/// pattern of the single-precision value.
pub const VELOCITY_VARIANCE: u32 = 0x3DCC_CCCD;

/// Where an observed position lies in the filter's tangent frame.
#[derive(Clone, Copy, Debug, PartialEq, Eq, Structural)]
pub enum Offset {
    /// At the anchor itself: east, north and up are all zero.
    Origin,
    /// At the east-north-up projection of `reference - fix`, taken in the
    /// tangent frame of the anchor.
    Relative { reference: Ecef, fix: Ecef },
}

/// One observation update for the filter.
#[derive(Clone, Copy, Debug, PartialEq, Eq, Structural)]
pub enum Observation {
    /// The position alone is observed.
    Position { offset: Offset, variance: u32 },
    /// The position and the velocity in the tangent plane are observed
    /// jointly.
    PositionVelocity {
        offset: Offset,
        position_variance: u32,
        velocity: Vector2,
        velocity_variance: u32,
    },
}

/// What a fix leads to: whether a fresh filter is created first, the anchor
/// that holds afterwards, and the observation the filter is given.
#[derive(Clone, Copy, Debug, PartialEq, Eq)]
pub struct FixPlan {
    pub fresh_filter: bool,
    pub reference: Ecef,
    pub observation: Observation,
}

/// One inertial propagation for the filter: the device-frame acceleration
/// (gravity included), the declination-corrected attitude, and the time
/// since the previous propagation in nanoseconds.
#[derive(Clone, Copy, Debug, PartialEq, Eq, Structural)]
pub struct Propagation {
    pub acceleration: Vector3,
    pub rotation: Vector3,
    pub dt: u64,
}

/// The observation of a position at `position`, with a velocity if one came
/// with the fix.
///
/// With a velocity, position and velocity are observed jointly; without
/// one, the position alone, with the same position variance.
pub open spec fn spec_observe_position(
    position: Offset,
    pos_variance: u32,
    velocity: Option<Vector2>,
    vel_variance: u32,
) -> Observation {
    match velocity {
        Some(vel) => Observation::PositionVelocity {
            offset: position,
            position_variance: pos_variance,
            velocity: vel,
            velocity_variance: vel_variance,
        },
        None => Observation::Position { offset: position, variance: pos_variance },
    }
}

/// Chooses the observation update for a position, with a velocity if one
/// came with the fix.
#[verifier::when_used_as_spec(spec_observe_position)]
pub fn observe_position(
    position: Offset,
    pos_variance: u32,
    velocity: Option<Vector2>,
    vel_variance: u32,
) -> (observation: Observation)
    ensures
        observation == spec_observe_position(position, pos_variance, velocity, vel_variance),
{
    match velocity {
        Some(vel) => Observation::PositionVelocity {
            offset: position,
            position_variance: pos_variance,
            velocity: vel,
            velocity_variance: vel_variance,
        },
        None => Observation::Position { offset: position, variance: pos_variance },
    }
}

/// The observation made at `offset` with the fixed variances.
pub open spec fn observation_at(offset: Offset, velocity_2d: Option<Vector2>) -> Observation {
    spec_observe_position(offset, POSITION_VARIANCE, velocity_2d, VELOCITY_VARIANCE)
}

/// The plan for a fix at `pos`, given the anchor held so far.
///
/// Without an anchor the fix becomes the anchor, a fresh filter is created
/// and it observes the origin. With an anchor the anchor stays and the filter
/// observes the fix relative to it.
pub open spec fn spec_plan_fix(
    reference: Option<Ecef>,
    pos: Ecef,
    velocity_2d: Option<Vector2>,
) -> FixPlan {
    match reference {
        None => FixPlan {
            fresh_filter: true,
            reference: pos,
            observation: observation_at(Offset::Origin, velocity_2d),
        },
        Some(anchor) => FixPlan {
            fresh_filter: false,
            reference: anchor,
            observation: observation_at(
                Offset::Relative { reference: anchor, fix: pos },
                velocity_2d,
            ),
        },
    }
}

/// Decides what a fix at `pos` does, given the anchor held so far.
#[verifier::when_used_as_spec(spec_plan_fix)]
pub fn plan_fix(reference: Option<Ecef>, pos: Ecef, velocity_2d: Option<Vector2>) -> (plan:
    FixPlan)
    ensures
        plan == spec_plan_fix(reference, pos, velocity_2d),
{
    match reference {
        None => FixPlan {
            fresh_filter: true,
            reference: pos,
            observation: observe_position(
                Offset::Origin,
                POSITION_VARIANCE,
                velocity_2d,
                VELOCITY_VARIANCE,
            ),
        },
        Some(anchor) => FixPlan {
            fresh_filter: false,
            reference: anchor,
            observation: observe_position(
                Offset::Relative { reference: anchor, fix: pos },
                POSITION_VARIANCE,
                velocity_2d,
                VELOCITY_VARIANCE,
            ),
        },
    }
}

/// Nanoseconds from `last` to `now`; zero when `last` is the later one.
pub open spec fn elapsed(last: u64, now: u64) -> u64 {
    if now >= last {
        (now - last) as u64
    } else {
        0
    }
}

/// The propagation that a prediction at time `now` asks for.
///
/// There is one only when the state is anchored and an earlier prediction
/// time is on record; its interval runs from that time to `now`.
pub open spec fn spec_plan_prediction(
    anchored: bool,
    last_prediction: Option<u64>,
    acceleration: Vector3,
    rotation: Vector3,
    now: u64,
) -> Option<Propagation> {
    match last_prediction {
        Some(last) if anchored => Some(
            Propagation { acceleration, rotation, dt: elapsed(last, now) },
        ),
        _ => None,
    }
}

/// Decides whether a prediction at time `now` propagates the filter, and
/// with what.
#[verifier::when_used_as_spec(spec_plan_prediction)]
pub fn plan_prediction(
    anchored: bool,
    last_prediction: Option<u64>,
    acceleration: Vector3,
    rotation: Vector3,
    now: u64,
) -> (plan: Option<Propagation>)
    ensures
        plan == spec_plan_prediction(anchored, last_prediction, acceleration, rotation, now),
{
    match last_prediction {
        Some(last) => {
            if anchored {
                let dt: u64 = if now >= last {
                    now - last
                } else {
                    0
                };
                Some(Propagation { acceleration, rotation, dt })
            } else {
                None
            }
        },
        None => None,
    }
}

/// A sensor event, as far as the bookkeeping of the core is concerned.
pub enum Event {
    /// An absolute fix at `pos`.
    Fix { pos: Ecef },
    /// An inertial sample at time `now`.
    Prediction { now: u64 },
    /// A reset.
    Reset,
}

/// The part of the core's state that does not depend on the filter's
/// numbers: the anchor position and the prediction time.
pub struct Shape {
    pub reference: Option<Ecef>,
    pub last_prediction: Option<u64>,
}

/// The shape of the unanchored state.
pub open spec fn initial_shape() -> Shape {
    Shape { reference: None, last_prediction: None }
}

/// The shape after one event.
///
/// A fix anchors an unanchored core and leaves an anchored one where it is.
/// A prediction records its time where it propagates the filter, that is
/// when the core is anchored and an earlier time is on record, and changes
/// nothing otherwise. A reset forgets both.
pub open spec fn shape_step(shape: Shape, event: Event) -> Shape {
    match event {
        Event::Fix { pos } => Shape {
            reference: Some(spec_plan_fix(shape.reference, pos, None).reference),
            last_prediction: shape.last_prediction,
        },
        Event::Prediction { now } => if shape.reference.is_some()
            && shape.last_prediction.is_some() {
            Shape { reference: shape.reference, last_prediction: Some(now) }
        } else {
            shape
        },
        Event::Reset => initial_shape(),
    }
}

/// The shape after a sequence of events, taken in order.
pub open spec fn shape_after(shape: Shape, events: Seq<Event>) -> Shape
    decreases events.len(),
{
    if events.len() == 0 {
        shape
    } else {
        shape_step(shape_after(shape, events.drop_last()), events.last())
    }
}

/// Whether an event is a reset.
pub open spec fn is_reset(event: Event) -> bool {
    event is Reset
}

/// Whether an event is a fix.
pub open spec fn is_fix(event: Event) -> bool {
    event is Fix
}

/// The anchor of the tangent frame together with the filter that works in
/// that frame.
#[derive(Debug, PartialEq, Eq)]
pub struct Anchor<F> {
    pub reference: Ecef,
    pub filter: F,
}

/// The state of the fusion core.
///
/// It is unanchored until the first fix and after every reset. Anchor and
/// filter are held as one value, so neither is ever present without the
/// other.
#[derive(Debug, PartialEq, Eq)]
pub struct PositionFusion<F> {
    pub anchor: Option<Anchor<F>>,
    /// Time of the last propagation, in nanoseconds on the host's monotonic
    /// clock.
    pub last_prediction: Option<u64>,
}

impl<F> PositionFusion<F> {
    /// The unanchored state: no anchor, no filter, no prediction time.
    pub open spec fn initial() -> Self {
        PositionFusion { anchor: None, last_prediction: None }
    }

    /// Whether an anchor is held.
    pub open spec fn anchored(&self) -> bool {
        self.anchor.is_some()
    }

    /// The anchor position, if there is one.
    pub open spec fn reference(&self) -> Option<Ecef> {
        match self.anchor {
            Some(a) => Some(a.reference),
            None => None,
        }
    }

    /// The filter, if there is one.
    pub open spec fn filter(&self) -> Option<F> {
        match self.anchor {
            Some(a) => Some(a.filter),
            None => None,
        }
    }

    /// The shape of this state.
    pub open spec fn shape(&self) -> Shape {
        Shape { reference: self.reference(), last_prediction: self.last_prediction }
    }

    /// A core in the unanchored state.
    pub fn new() -> (state: Self)
        ensures
            state == Self::initial(),
    {
        PositionFusion { anchor: None, last_prediction: None }
    }

    /// Whether an anchor is held.
    #[verifier::when_used_as_spec(anchored)]
    pub fn is_anchored(&self) -> (b: bool)
        ensures
            b == self.anchored(),
    {
        self.anchor.is_some()
    }

    /// The anchor position, if there is one.
    #[verifier::when_used_as_spec(reference)]
    pub fn reference_position(&self) -> (r: Option<Ecef>)
        ensures
            r == self.reference(),
    {
        match &self.anchor {
            Some(a) => Some(a.reference),
            None => None,
        }
    }

    /// Takes in an absolute fix.
    ///
    /// Unanchored, the fix becomes the anchor: `build` makes a fresh filter,
    /// `observe` gives it the observation at the origin, and both are stored.
    /// Anchored, the anchor stays where it is and `observe` gives the stored
    /// filter the observation of the fix relative to the anchor. Either way
    /// the observation is the one that [`spec_plan_fix`] names, and the
    /// prediction time is left alone.
    pub fn update_global_position<B, O>(
        &mut self,
        pos: Ecef,
        velocity_2d: Option<Vector2>,
        build: B,
        observe: O,
    ) where B: FnOnce() -> F, O: FnOnce(&mut F, Observation)
        requires
            !old(self).anchored() ==> call_requires(build, ()),
            forall|k: &mut F|
                {
                    &&& old(self).anchored() ==> Some(*k) == old(self).filter()
                    &&& !old(self).anchored() ==> call_ensures(build, (), *k)
                } ==> call_requires(
                    observe,
                    (k, spec_plan_fix(old(self).reference(), pos, velocity_2d).observation),
                ),
        ensures
            final(self).anchored(),
            final(self).reference() == Some(
                spec_plan_fix(old(self).reference(), pos, velocity_2d).reference,
            ),
            final(self).last_prediction == old(self).last_prediction,
            final(self).shape() == shape_step(old(self).shape(), Event::Fix { pos }),
            exists|k: &mut F|
                {
                    &&& #[trigger] call_ensures(
                        observe,
                        (k, spec_plan_fix(old(self).reference(), pos, velocity_2d).observation),
                        (),
                    )
                    &&& old(self).anchored() ==> Some(*k) == old(self).filter()
                    &&& !old(self).anchored() ==> call_ensures(build, (), *k)
                    &&& Some(*final(k)) == final(self).filter()
                },
    {
        let plan = plan_fix(self.reference_position(), pos, velocity_2d);
        match &mut self.anchor {
            Some(a) => {
                observe(&mut a.filter, plan.observation);
            },
            None => {
                let mut kalman = build();
                observe(&mut kalman, plan.observation);
                self.anchor = Some(Anchor { reference: plan.reference, filter: kalman });
            },
        }
    }

    /// Back to the unanchored state: anchor, filter and prediction time are
    /// all dropped.
    pub fn reset(&mut self)
        ensures
            *final(self) == Self::initial(),
            final(self).shape() == shape_step(old(self).shape(), Event::Reset),
    {
        self.anchor = None;
        self.last_prediction = None;
    }

    /// The fused global position.
    ///
    /// Anchored, it is what `locate` makes of the anchor and the filter (the
    /// anchor moved by the filter's position estimate). Unanchored, there is
    /// no estimate and `locate` is not called.
    pub fn get_global_position<L>(&self, locate: L) -> (position: Option<Ecef>) where
        L: FnOnce(Ecef, &F) -> Ecef,

        requires
            self.anchored() ==> call_requires(
                locate,
                (self.reference().unwrap(), &self.filter().unwrap()),
            ),
        ensures
            position.is_some() == self.anchored(),
            self.anchored() ==> call_ensures(
                locate,
                (self.reference().unwrap(), &self.filter().unwrap()),
                position.unwrap(),
            ),
    {
        match &self.anchor {
            Some(a) => Some(locate(a.reference, &a.filter)),
            None => None,
        }
    }

    /// Takes in an inertial sample at time `now`.
    ///
    /// When [`spec_plan_prediction`] names a propagation, `propagate` gives
    /// it to the stored filter and `now` becomes the prediction time. When it
    /// names none (unanchored, or no earlier prediction time), nothing
    /// changes and `propagate` is not called.
    pub fn predict<X>(&mut self, acceleration: Vector3, rotation: Vector3, now: u64, propagate: X)
        where X: FnOnce(&mut F, Propagation)
        requires
            match spec_plan_prediction(
                old(self).anchored(),
                old(self).last_prediction,
                acceleration,
                rotation,
                now,
            ) {
                None => true,
                Some(p) => forall|k: &mut F|
                    Some(*k) == old(self).filter() ==> call_requires(propagate, (k, p)),
            },
        ensures
            final(self).shape() == shape_step(old(self).shape(), Event::Prediction { now }),
            match spec_plan_prediction(
                old(self).anchored(),
                old(self).last_prediction,
                acceleration,
                rotation,
                now,
            ) {
                None => *final(self) == *old(self),
                Some(p) => {
                    &&& final(self).reference() == old(self).reference()
                    &&& final(self).last_prediction == Some(now)
                    &&& exists|k: &mut F|
                        {
                            &&& #[trigger] call_ensures(propagate, (k, p), ())
                            &&& Some(*k) == old(self).filter()
                            &&& Some(*final(k)) == final(self).filter()
                        }
                },
            },
    {
        let plan = plan_prediction(
            self.is_anchored(),
            self.last_prediction,
            acceleration,
            rotation,
            now,
        );
        match plan {
            Some(p) => {
                match &mut self.anchor {
                    Some(a) => {
                        propagate(&mut a.filter, p);
                        self.last_prediction = Some(now);
                    },
                    None => {},
                }
            },
            None => {},
        }
    }
}

impl<F> PositionFusion<F> {
    /// In every state the anchor position and the filter are present
    /// together or absent together.
    pub proof fn lemma_anchor_and_filter_together(self)
        ensures
            self.reference().is_some() == self.anchored(),
            self.filter().is_some() == self.anchored(),
    {
    }

    /// The unanchored state holds nothing: no anchor position, no filter and
    /// no prediction time. It is the state that `new` and `reset` both
    /// leave, so a core that was reset cannot be told from a new one.
    pub proof fn lemma_initial_is_empty()
        ensures
            !Self::initial().anchored(),
            Self::initial().reference().is_none(),
            Self::initial().filter().is_none(),
            Self::initial().last_prediction.is_none(),
    {
    }

    /// The first fix after a reset anchors the core at that very fix: a
    /// fresh filter is made, the fix becomes the anchor, and the filter
    /// observes the origin of its frame, with or without a velocity.
    pub proof fn lemma_first_fix_anchors_at_fix(pos: Ecef, velocity_2d: Option<Vector2>)
        ensures
            spec_plan_fix(Self::initial().reference(), pos, velocity_2d) == (FixPlan {
                fresh_filter: true,
                reference: pos,
                observation: observation_at(Offset::Origin, velocity_2d),
            }),
    {
    }

    /// A prediction in an unanchored state asks for no propagation, whatever
    /// the sample, the clock and the prediction time on record.
    pub proof fn lemma_no_prediction_without_anchor(
        self,
        acceleration: Vector3,
        rotation: Vector3,
        now: u64,
    )
        requires
            !self.anchored(),
        ensures
            spec_plan_prediction(
                self.anchored(),
                self.last_prediction,
                acceleration,
                rotation,
                now,
            ).is_none(),
    {
    }
}

/// After any sequence of events that ends in a reset the core is in the
/// unanchored state's shape, whatever state it started in.
pub proof fn lemma_reset_forgets_everything(start: Shape, events: Seq<Event>)
    ensures
        shape_after(start, events.push(Event::Reset)) == initial_shape(),
{
    assert(events.push(Event::Reset).last() == Event::Reset);
}

/// An anchor, once held, stays where it is through any sequence of events
/// without a reset.
pub proof fn lemma_anchor_stays_until_reset(start: Shape, events: Seq<Event>)
    requires
        start.reference.is_some(),
        forall|i: int| 0 <= i < events.len() ==> !is_reset(#[trigger] events[i]),
    ensures
        shape_after(start, events).reference == start.reference,
    decreases events.len(),
{
    if events.len() > 0 {
        let earlier = events.drop_last();
        assert forall|i: int| 0 <= i < earlier.len() implies !is_reset(#[trigger] earlier[i]) by {
            assert(earlier[i] == events[i]);
        }
        lemma_anchor_stays_until_reset(start, earlier);
        assert(!is_reset(events[events.len() - 1]));
    }
}

/// Without a fix an unanchored core stays unanchored: no sequence of
/// predictions and resets gives it an anchor, and none gives it a
/// prediction time that it did not have.
pub proof fn lemma_no_anchor_without_a_fix(start: Shape, events: Seq<Event>)
    requires
        start.reference.is_none(),
        forall|i: int| 0 <= i < events.len() ==> !is_fix(#[trigger] events[i]),
    ensures
        shape_after(start, events).reference.is_none(),
        shape_after(start, events).last_prediction.is_some()
            ==> shape_after(start, events).last_prediction == start.last_prediction,
    decreases events.len(),
{
    if events.len() > 0 {
        let earlier = events.drop_last();
        assert forall|i: int| 0 <= i < earlier.len() implies !is_fix(#[trigger] earlier[i]) by {
            assert(earlier[i] == events[i]);
        }
        lemma_no_anchor_without_a_fix(start, earlier);
        assert(!is_fix(events[events.len() - 1]));
    }
}

/// The first fix that arrives in an unanchored core is its anchor from then
/// on, through every later event up to the next reset.
pub proof fn lemma_first_fix_is_the_anchor(
    start: Shape,
    before: Seq<Event>,
    pos: Ecef,
    after: Seq<Event>,
)
    requires
        start.reference.is_none(),
        forall|i: int| 0 <= i < before.len() ==> !is_fix(#[trigger] before[i]),
        forall|i: int| 0 <= i < after.len() ==> !is_reset(#[trigger] after[i]),
    ensures
        shape_after(start, (before.push(Event::Fix { pos }) + after)).reference == Some(pos),
    decreases after.len(),
{
    let fixed = before.push(Event::Fix { pos });
    if after.len() == 0 {
        assert(fixed + after =~= fixed);
        assert(fixed.drop_last() =~= before);
        assert(fixed.last() == Event::Fix { pos });
        lemma_no_anchor_without_a_fix(start, before);
    } else {
        let earlier = after.drop_last();
        assert forall|i: int| 0 <= i < earlier.len() implies !is_reset(#[trigger] earlier[i]) by {
            assert(earlier[i] == after[i]);
        }
        lemma_first_fix_is_the_anchor(start, before, pos, earlier);
        assert((fixed + after).drop_last() =~= fixed + earlier);
        assert((fixed + after).last() == after[after.len() - 1]);
        assert(!is_reset(after[after.len() - 1]));
    }
}

/// A core that has no prediction time on record never gets one from events:
/// a prediction records its time only where an earlier time is on record.
pub proof fn lemma_prediction_time_needs_a_start(start: Shape, events: Seq<Event>)
    requires
        start.last_prediction.is_none(),
    ensures
        shape_after(start, events).last_prediction.is_none(),
    decreases events.len(),
{
    if events.len() > 0 {
        lemma_prediction_time_needs_a_start(start, events.drop_last());
    }
}

/// Once an anchor is held, no fix moves it: the plan keeps the anchor, makes
/// no fresh filter, and measures the fix against the anchor.
pub proof fn lemma_anchor_is_kept(anchor: Ecef, pos: Ecef, velocity_2d: Option<Vector2>)
    ensures
        spec_plan_fix(Some(anchor), pos, velocity_2d) == (FixPlan {
            fresh_filter: false,
            reference: anchor,
            observation: observation_at(Offset::Relative { reference: anchor, fix: pos }, velocity_2d),
        }),
{
}

/// A fix that comes with a velocity leads to a joint observation of
/// position and velocity, one without to an observation of the position
/// alone; either carries the fixed variances.
pub proof fn lemma_observation_policy(
    reference: Option<Ecef>,
    pos: Ecef,
    velocity_2d: Option<Vector2>,
)
    ensures
        match velocity_2d {
            Some(vel) => spec_plan_fix(reference, pos, velocity_2d).observation matches Observation::PositionVelocity {
                position_variance,
                velocity,
                velocity_variance,
                ..
            } && position_variance == POSITION_VARIANCE && velocity == vel && velocity_variance
                == VELOCITY_VARIANCE,
            None => spec_plan_fix(reference, pos, velocity_2d).observation matches Observation::Position {
                variance,
                ..
            } && variance == POSITION_VARIANCE,
        },
{
}

/// A propagation interval is never negative and closes the gap between the
/// two times: where the clock has not run backwards, the earlier time plus
/// the interval is the later time.
pub proof fn lemma_elapsed_closes_gap(last: u64, now: u64)
    ensures
        now >= last ==> last + elapsed(last, now) == now,
        now < last ==> elapsed(last, now) == 0,
{
}

impl<F> Default for PositionFusion<F> {
    fn default() -> (state: Self)
        ensures
            state == Self::initial(),
    {
        Self::new()
    }
}

} // verus!
