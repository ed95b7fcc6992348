//! Bookkeeping for a position-fusion engine.
//!
//! The engine fuses absolute fixes, inertial samples and device attitude
//! into one global position. The numerical work (frame conversions, the
//! error-state filter, the geomagnetic models) is done by the host on real
//! numbers. This library holds the state and the rules: what each sensor
//! event stores, when the filter is created and anchored, which observation
//! or propagation it is given, and how shared state is reached under a lock.
pub mod mutex_box;
pub mod position;
