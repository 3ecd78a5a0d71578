//! Fixed-point physics and behaviour core for a 2-D space-combat simulation.
//!
//! Every physical quantity is an integer in a documented fixed-point scale
//! (see `units`), so the whole engine is exact integer arithmetic and can be
//! verified.  Trigonometric values (unit vectors for a heading) cannot be
//! computed here; the caller evaluates them and passes them in as fixed-point
//! pairs, and every contract is stated in terms of those inputs.

pub mod actor;
pub mod archetype;
pub mod behavior;
pub mod body;
pub mod collision;
pub mod gravity;
pub mod input;
pub mod timing;
pub mod units;
