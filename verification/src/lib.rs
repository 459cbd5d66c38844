//! Geometry and kinematics bookkeeping for lifting-line models of wind propulsion devices.
//!
//! The crate keeps the body-fixed description of a set of wings (span lines and chord vectors)
//! together with the rigid body motion of the vessel that carries them, and derives the
//! world-frame quantities that the force calculations read.
pub mod controller;
pub mod line_force_model;
pub mod rigid_body_motion;
pub mod span_line;
pub mod step;
pub mod vector;
pub mod velocity_corrections;
pub mod wings;
