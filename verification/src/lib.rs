//! Timing and synchronization core of a polyrhythmic pendulum simulation.
//!
//! A set of concentric arcs sweeps back and forth across a baseline at
//! distinct, deliberately detuned angular velocities. Each arc strikes the
//! baseline periodically and triggers a tone whose pitch encodes the arc's
//! index in a chromatic scale; colors are interpolated across the arc set
//! from a short list of gradient waypoints.
//!
//! All angles are fixed-point integers: the host picks an angle unit and
//! supplies `half_turn`, the number of units in a half revolution. Times are
//! integers in a host-chosen time unit, and velocities are angle units per
//! time unit. Every computation of the core is exact integer arithmetic over
//! those units; converting to and from the host's own representation is the
//! host's concern.

pub mod velocity;
pub mod phase;
pub mod impact;
pub mod tones;
pub mod gradient;
pub mod engine;
