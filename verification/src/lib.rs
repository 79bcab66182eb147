//! Data components for a small physics-driven scene: motor parameters
//! that an application can attach to its entities. The components are
//! inert records; they carry values and make no decisions themselves.

pub mod math;
pub mod motor_state;
pub mod thrust_motor;
