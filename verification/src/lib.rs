//! Guards: checks that a value meets conditions of equality and order,
//! alone (`Guards`) or chained on one value (`Guard`), with the caller's
//! message for the first condition that fails.
//!
//! - `guards`: the single checks, each from a value to the value or a
//!   message.
//! - `guard`: the chain of checks on one value, and its state as contracts
//!   see it.
//! - `check`: what each condition means, and the laws of a value that sits
//!   on a bound.
//! - `chain`: whole chains of calls, and the laws of what they come to.

use vstd::prelude::*;

pub mod chain;
pub mod check;
pub mod guard;
pub mod guards;

pub use guard::Guard;
pub use guards::Guards;

verus! {

/// Whether the range from a lower to an upper bound holds the bounds
/// themselves. A value is between the bounds if it is in that range, and
/// outside them if it is below or above it.
pub enum Bound {
    /// The bounds belong to the range: a value on a bound is not taken for
    /// outside on that account.
    Inclusive,
    /// The bounds do not belong to the range: a value on a bound is outside
    /// the bounds, not between them.
    Exclusive,
}

} // verus!
