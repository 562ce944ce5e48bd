//! State, editing rules and form layout of a calculator for the forward
//! kinematics of a planar chain of three links.
//!
//! Real quantities are carried as IEEE 754 binary64 bit patterns, so that the
//! rules on them are stated and proved over integers.

pub mod scalar;
pub mod field;
pub mod model;
pub mod form;
pub mod results;
