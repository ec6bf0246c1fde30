//! Decision logic of a single-revolution Lambert solver and of the
//! conversion of a state vector into classical orbital elements.
//!
//! The numeric work is IEEE floating point; every branch it takes is decided
//! here, from the outcome of comparing two floats (`Comparison`), so that each
//! regime boundary and quadrant correction is stated and proved exactly.
pub mod compare;
pub mod data;
pub mod lambert;
pub mod orbit;
pub mod status;
