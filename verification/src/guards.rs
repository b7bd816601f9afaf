//! Single checks: each takes a value, what to compare it to and a message,
//! and gives the value back or the message.

use vstd::prelude::*;
use vstd::std_specs::cmp::PartialEqSpec;
use vstd::std_specs::cmp::PartialOrdIs;
use vstd::std_specs::cmp::PartialOrdSpec;
use crate::check::between;
use crate::check::outside;
use crate::check::specified;
use crate::check::Check;
use crate::Bound;

verus! {

/// `text` is a `String` that `error_message.into()` may return: the message
/// as its own type turns it into text.
pub open spec fn converted<E: Into<String>>(error_message: E, text: String) -> bool {
    call_ensures(E::into, (error_message,), text)
}

/// `r` is a result of `check` on `value` with `error_message`: `Ok` where
/// `T`'s operators made the condition come out `true` and `Err` where
/// `false`, with `value` itself in the one and the message as a `String` in
/// the other.
pub open spec fn judged<T: PartialOrd, E: Into<String>>(
    check: Check<T>,
    value: T,
    error_message: E,
    r: Result<T, String>,
) -> bool {
    &&& check.gives(value, r is Ok)
    &&& match r {
        Ok(v) => v == value,
        Err(text) => converted(error_message, text),
    }
}

/// Asking again gives the same again: for a specified `T` and a message
/// that turns into one text only, a check on one value has one result.
pub proof fn lemma_judged_again<T: PartialOrd, E: Into<String>>(
    check: Check<T>,
    value: T,
    error_message: E,
    first: Result<T, String>,
    second: Result<T, String>,
)
    requires
        specified::<T>(),
        forall|a: String, b: String|
            converted(error_message, a) && converted(error_message, b) ==> a == b,
        judged(check, value, error_message, first),
        judged(check, value, error_message, second),
    ensures
        first == second,
{
    check.lemma_gives_is_holds(value, first is Ok);
    check.lemma_gives_is_holds(value, second is Ok);
}

/// The single checks.
///
/// ```
/// use fluent_guards::Bound;
/// use fluent_guards::Guards;
///
/// assert_eq!(Guards::is_less_than(4, 5, "Value was 5 or more!"), Ok(4));
/// assert_eq!(
///     Guards::is_between(6, 4, 6, Bound::Exclusive, "Value was not between 4 and 6!"),
///     Err(String::from("Value was not between 4 and 6!")),
/// );
/// ```
pub struct Guards;

impl Guards {
    /// Gives `value` back if it equals `test_value`, else the message.
    pub fn is_equal_to<T: PartialOrd, E: Into<String>>(
        value: T,
        test_value: T,
        error_message: E,
    ) -> (r: Result<T, String>)
        ensures
            judged(Check::EqualTo(test_value), value, error_message, r),
            T::obeys_eq_spec() ==> (r is Ok <==> value.eq_spec(&test_value)),
    {
        if value == test_value {
            Ok(value)
        } else {
            Err(error_message.into())
        }
    }

    /// Gives `value` back if it differs from `test_value`, else the message.
    pub fn is_not_equal_to<T: PartialOrd, E: Into<String>>(
        value: T,
        test_value: T,
        error_message: E,
    ) -> (r: Result<T, String>)
        ensures
            judged(Check::NotEqualTo(test_value), value, error_message, r),
            T::obeys_eq_spec() ==> (r is Ok <==> !value.eq_spec(&test_value)),
    {
        if value != test_value {
            Ok(value)
        } else {
            Err(error_message.into())
        }
    }

    /// Gives `value` back if it is less than `test_value`, else the message.
    pub fn is_less_than<T: PartialOrd, E: Into<String>>(
        value: T,
        test_value: T,
        error_message: E,
    ) -> (r: Result<T, String>)
        ensures
            judged(Check::LessThan(test_value), value, error_message, r),
            T::obeys_partial_cmp_spec() ==> (r is Ok <==> value.is_lt(&test_value)),
    {
        if value < test_value {
            Ok(value)
        } else {
            Err(error_message.into())
        }
    }

    /// Gives `value` back if it is less than or equal to `test_value`, else
    /// the message.
    pub fn is_less_or_equal<T: PartialOrd, E: Into<String>>(
        value: T,
        test_value: T,
        error_message: E,
    ) -> (r: Result<T, String>)
        ensures
            judged(Check::LessOrEqual(test_value), value, error_message, r),
            T::obeys_partial_cmp_spec() ==> (r is Ok <==> value.is_le(&test_value)),
    {
        if value <= test_value {
            Ok(value)
        } else {
            Err(error_message.into())
        }
    }

    /// Gives `value` back if it is greater than `test_value`, else the
    /// message.
    pub fn is_greater_than<T: PartialOrd, E: Into<String>>(
        value: T,
        test_value: T,
        error_message: E,
    ) -> (r: Result<T, String>)
        ensures
            judged(Check::GreaterThan(test_value), value, error_message, r),
            T::obeys_partial_cmp_spec() ==> (r is Ok <==> value.is_gt(&test_value)),
    {
        if value > test_value {
            Ok(value)
        } else {
            Err(error_message.into())
        }
    }

    /// Gives `value` back if it is greater than or equal to `test_value`,
    /// else the message.
    pub fn is_greater_or_equal<T: PartialOrd, E: Into<String>>(
        value: T,
        test_value: T,
        error_message: E,
    ) -> (r: Result<T, String>)
        ensures
            judged(Check::GreaterOrEqual(test_value), value, error_message, r),
            T::obeys_partial_cmp_spec() ==> (r is Ok <==> value.is_ge(&test_value)),
    {
        if value >= test_value {
            Ok(value)
        } else {
            Err(error_message.into())
        }
    }

    /// Gives `value` back if it lies between the two bounds, else the
    /// message. `Bound::Inclusive` counts a value on a bound as between,
    /// `Bound::Exclusive` does not.
    pub fn is_between<T: PartialOrd, E: Into<String>>(
        value: T,
        lower_bound: T,
        upper_bound: T,
        bound_mode: Bound,
        error_message: E,
    ) -> (r: Result<T, String>)
        ensures
            judged(Check::Between(lower_bound, upper_bound, bound_mode), value, error_message, r),
            T::obeys_partial_cmp_spec() ==> (r is Ok <==> between(
                value,
                lower_bound,
                upper_bound,
                bound_mode,
            )),
    {
        match bound_mode {
            Bound::Exclusive => {
                if value > lower_bound && value < upper_bound {
                    Ok(value)
                } else {
                    Err(error_message.into())
                }
            },
            Bound::Inclusive => {
                if value >= lower_bound && value <= upper_bound {
                    Ok(value)
                } else {
                    Err(error_message.into())
                }
            },
        }
    }

    /// Gives `value` back if it lies outside the two bounds, else the
    /// message. `Bound::Exclusive` counts a value on a bound as outside,
    /// `Bound::Inclusive` does not.
    pub fn is_outside<T: PartialOrd, E: Into<String>>(
        value: T,
        lower_bound: T,
        upper_bound: T,
        bound_mode: Bound,
        error_message: E,
    ) -> (r: Result<T, String>)
        ensures
            judged(Check::Outside(lower_bound, upper_bound, bound_mode), value, error_message, r),
            T::obeys_partial_cmp_spec() ==> (r is Ok <==> outside(
                value,
                lower_bound,
                upper_bound,
                bound_mode,
            )),
    {
        match bound_mode {
            Bound::Exclusive => {
                if value <= lower_bound || value >= upper_bound {
                    Ok(value)
                } else {
                    Err(error_message.into())
                }
            },
            Bound::Inclusive => {
                if value < lower_bound || value > upper_bound {
                    Ok(value)
                } else {
                    Err(error_message.into())
                }
            },
        }
    }
}

} // verus!
