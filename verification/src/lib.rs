//! The arithmetic state machine of a four-function desktop calculator.
//!
//! `arith` holds the saturating integer arithmetic, `model` the calculator
//! itself together with its mathematical model, `laws` the general facts
//! proved about that model, and `controller` the bridge that a user
//! interface drives: one call per input event, each returning the number
//! to show.

pub mod arith;
pub mod controller;
pub mod laws;
pub mod model;
