//! What the conditions mean: the vocabulary of the contracts.
//!
//! A condition is described twice. `Check::holds` says when it is met, over
//! what `T` states of its `==` and of its ordering (`eq_spec`,
//! `partial_cmp_spec`). `Check::gives` says which answers `T`'s own operators
//! may return for it, whether `T` states anything of them or not. For a
//! `T` that is `specified` the two agree (`Check::lemma_gives_is_holds`).

use vstd::prelude::*;
use vstd::std_specs::cmp::PartialEqSpec;
use vstd::std_specs::cmp::PartialOrdIs;
use vstd::std_specs::cmp::PartialOrdSpec;
use crate::Bound;

verus! {

/// Whether `T`'s `==` and its ordering operators return what `T` states of
/// them in `eq_spec` and `partial_cmp_spec`. The integers are so; a type
/// that says nothing of its operators is not.
pub open spec fn specified<T: PartialOrd>() -> bool {
    T::obeys_eq_spec() && T::obeys_partial_cmp_spec()
}

/// `value == test_value` may return `answer`.
pub open spec fn eq_gives<T: PartialOrd>(value: T, test_value: T, answer: bool) -> bool {
    call_ensures(T::eq, (&value, &test_value), answer)
}

/// `value != test_value` may return `answer`.
pub open spec fn ne_gives<T: PartialOrd>(value: T, test_value: T, answer: bool) -> bool {
    call_ensures(T::ne, (&value, &test_value), answer)
}

/// `value < test_value` may return `answer`.
pub open spec fn lt_gives<T: PartialOrd>(value: T, test_value: T, answer: bool) -> bool {
    call_ensures(T::lt, (&value, &test_value), answer)
}

/// `value <= test_value` may return `answer`.
pub open spec fn le_gives<T: PartialOrd>(value: T, test_value: T, answer: bool) -> bool {
    call_ensures(T::le, (&value, &test_value), answer)
}

/// `value > test_value` may return `answer`.
pub open spec fn gt_gives<T: PartialOrd>(value: T, test_value: T, answer: bool) -> bool {
    call_ensures(T::gt, (&value, &test_value), answer)
}

/// `value >= test_value` may return `answer`.
pub open spec fn ge_gives<T: PartialOrd>(value: T, test_value: T, answer: bool) -> bool {
    call_ensures(T::ge, (&value, &test_value), answer)
}

/// `first && second` may return `answer`, where `first(a)` and `second(a)`
/// say whether that operand may return `a`, and `second` is asked only after
/// `first` returned `true`.
pub open spec fn and_gives(
    first: spec_fn(bool) -> bool,
    second: spec_fn(bool) -> bool,
    answer: bool,
) -> bool {
    if answer {
        first(true) && second(true)
    } else {
        first(false) || (first(true) && second(false))
    }
}

/// `first || second` may return `answer`, where `second` is asked only after
/// `first` returned `false`.
pub open spec fn or_gives(
    first: spec_fn(bool) -> bool,
    second: spec_fn(bool) -> bool,
    answer: bool,
) -> bool {
    if answer {
        first(true) || (first(false) && second(true))
    } else {
        first(false) && second(false)
    }
}

/// `value` lies between the bounds: above the lower and below the upper
/// one, or with `Bound::Inclusive` also on one of them.
pub open spec fn between<T: PartialOrd>(
    value: T,
    lower_bound: T,
    upper_bound: T,
    bound_mode: Bound,
) -> bool {
    match bound_mode {
        Bound::Exclusive => value.is_gt(&lower_bound) && value.is_lt(&upper_bound),
        Bound::Inclusive => value.is_ge(&lower_bound) && value.is_le(&upper_bound),
    }
}

/// `value` lies outside the bounds: below the lower or above the upper
/// one, or with `Bound::Exclusive` also on one of them.
pub open spec fn outside<T: PartialOrd>(
    value: T,
    lower_bound: T,
    upper_bound: T,
    bound_mode: Bound,
) -> bool {
    match bound_mode {
        Bound::Exclusive => value.is_le(&lower_bound) || value.is_ge(&upper_bound),
        Bound::Inclusive => value.is_lt(&lower_bound) || value.is_gt(&upper_bound),
    }
}

/// `value` sits on `bound`: the ordering takes the two for equal.
pub open spec fn on_bound<T: PartialOrd>(value: T, bound: T) -> bool {
    value.is_le(&bound) && value.is_ge(&bound)
}

/// A value on the lower bound. With `Bound::Inclusive` it is between the
/// bounds unless it lies above the upper one, and outside them only if it
/// does. With `Bound::Exclusive` it is not between the bounds, and it is
/// outside them.
pub proof fn lemma_on_lower_bound<T: PartialOrd>(value: T, lower_bound: T, upper_bound: T)
    requires
        on_bound(value, lower_bound),
    ensures
        between(value, lower_bound, upper_bound, Bound::Inclusive) <==> value.is_le(&upper_bound),
        !between(value, lower_bound, upper_bound, Bound::Exclusive),
        outside(value, lower_bound, upper_bound, Bound::Exclusive),
        outside(value, lower_bound, upper_bound, Bound::Inclusive) <==> value.is_gt(&upper_bound),
{
}

/// A value on the upper bound. With `Bound::Inclusive` it is between the
/// bounds unless it lies below the lower one, and outside them only if it
/// does. With `Bound::Exclusive` it is not between the bounds, and it is
/// outside them.
pub proof fn lemma_on_upper_bound<T: PartialOrd>(value: T, lower_bound: T, upper_bound: T)
    requires
        on_bound(value, upper_bound),
    ensures
        between(value, lower_bound, upper_bound, Bound::Inclusive) <==> value.is_ge(&lower_bound),
        !between(value, lower_bound, upper_bound, Bound::Exclusive),
        outside(value, lower_bound, upper_bound, Bound::Exclusive),
        outside(value, lower_bound, upper_bound, Bound::Inclusive) <==> value.is_lt(&lower_bound),
{
}

/// One condition, with what the value is compared to. Contracts and laws
/// name a condition by it; no function takes or returns one.
pub enum Check<T> {
    /// The value equals this one.
    EqualTo(T),
    /// The value differs from this one.
    NotEqualTo(T),
    /// The value is less than this one.
    LessThan(T),
    /// The value is less than this one or equal to it.
    LessOrEqual(T),
    /// The value is greater than this one.
    GreaterThan(T),
    /// The value is greater than this one or equal to it.
    GreaterOrEqual(T),
    /// The value lies between the lower and the upper bound, which count as
    /// the mode says.
    Between(T, T, Bound),
    /// The value lies outside the lower and the upper bound, which count as
    /// the mode says.
    Outside(T, T, Bound),
}

impl<T: PartialOrd> Check<T> {
    /// Whether `value` meets the condition, by what `T` states of its `==`
    /// and of its ordering. Two values that the ordering does not relate
    /// meet no condition of order.
    pub open spec fn holds(self, value: T) -> bool {
        match self {
            Check::EqualTo(t) => value.eq_spec(&t),
            Check::NotEqualTo(t) => !value.eq_spec(&t),
            Check::LessThan(t) => value.is_lt(&t),
            Check::LessOrEqual(t) => value.is_le(&t),
            Check::GreaterThan(t) => value.is_gt(&t),
            Check::GreaterOrEqual(t) => value.is_ge(&t),
            Check::Between(lower, upper, mode) => between(value, lower, upper, mode),
            Check::Outside(lower, upper, mode) => outside(value, lower, upper, mode),
        }
    }

    /// Whether `T`'s own operators, asked about `value` in the order in which
    /// the condition asks them, may make it come out as `answer`.
    pub open spec fn gives(self, value: T, answer: bool) -> bool {
        match self {
            Check::EqualTo(t) => eq_gives(value, t, answer),
            Check::NotEqualTo(t) => ne_gives(value, t, answer),
            Check::LessThan(t) => lt_gives(value, t, answer),
            Check::LessOrEqual(t) => le_gives(value, t, answer),
            Check::GreaterThan(t) => gt_gives(value, t, answer),
            Check::GreaterOrEqual(t) => ge_gives(value, t, answer),
            Check::Between(lower, upper, mode) => match mode {
                Bound::Exclusive => and_gives(
                    |a: bool| gt_gives(value, lower, a),
                    |a: bool| lt_gives(value, upper, a),
                    answer,
                ),
                Bound::Inclusive => and_gives(
                    |a: bool| ge_gives(value, lower, a),
                    |a: bool| le_gives(value, upper, a),
                    answer,
                ),
            },
            Check::Outside(lower, upper, mode) => match mode {
                Bound::Exclusive => or_gives(
                    |a: bool| le_gives(value, lower, a),
                    |a: bool| ge_gives(value, upper, a),
                    answer,
                ),
                Bound::Inclusive => or_gives(
                    |a: bool| lt_gives(value, lower, a),
                    |a: bool| gt_gives(value, upper, a),
                    answer,
                ),
            },
        }
    }

    /// For a specified `T` the operators can only answer whether the
    /// condition holds.
    pub proof fn lemma_gives_is_holds(self, value: T, answer: bool)
        requires
            specified::<T>(),
            self.gives(value, answer),
        ensures
            answer == self.holds(value),
    {
    }
}

} // verus!
