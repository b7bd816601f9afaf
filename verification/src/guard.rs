//! Chained checks on one value: the first condition that fails leaves its
//! message, and the checks after it change nothing.

use vstd::prelude::*;
use vstd::std_specs::cmp::PartialEqSpec;
use vstd::std_specs::cmp::PartialOrdIs;
use vstd::std_specs::cmp::PartialOrdSpec;
use crate::check::between;
use crate::check::outside;
use crate::check::specified;
use crate::check::Check;
use crate::guards::converted;
use crate::guards::judged;
use crate::guards::lemma_judged_again;
use crate::Bound;

verus! {

/// What a `Guard` holds, as contracts see it.
pub struct GuardState<T> {
    /// The guarded value.
    pub value: T,
    /// The message of the first condition that failed, if one did.
    pub failure: Option<String>,
}

impl<T: PartialOrd> GuardState<T> {
    /// The state of a guard on which no condition was checked yet.
    pub open spec fn fresh(value: T) -> Self {
        GuardState { value, failure: None }
    }

    /// What the chain comes to: the value, or the message of the failure.
    pub open spec fn outcome(self) -> Result<T, String> {
        match self.failure {
            None => Ok(self.value),
            Some(text) => Err(text),
        }
    }

    /// `next` is a state that `check` with `error_message` may leave this
    /// one in. The value stays as it is. After a failure the failure stays
    /// too. Without one the check is judged on the value as a single check
    /// is, and what it comes to is what the chain has come to.
    pub open spec fn checked<E: Into<String>>(
        self,
        check: Check<T>,
        error_message: E,
        next: Self,
    ) -> bool {
        &&& next.value == self.value
        &&& match self.failure {
            Some(_) => next.failure == self.failure,
            None => judged(check, self.value, error_message, next.outcome()),
        }
    }

    /// Calling again gives the same again: for a specified `T` and a message
    /// that turns into one text only, a call on one state leaves one state.
    pub proof fn lemma_checked_again<E: Into<String>>(
        self,
        check: Check<T>,
        error_message: E,
        first: Self,
        second: Self,
    )
        requires
            specified::<T>(),
            forall|a: String, b: String|
                converted(error_message, a) && converted(error_message, b) ==> a == b,
            self.checked(check, error_message, first),
            self.checked(check, error_message, second),
        ensures
            first == second,
    {
        if self.failure is None {
            lemma_judged_again(
                check,
                self.value,
                error_message,
                first.outcome(),
                second.outcome(),
            );
        }
    }
}

/// A value with the chain of checks made on it so far.
///
/// ```
/// use fluent_guards::Bound;
/// use fluent_guards::Guard;
///
/// fn channel(number: u32) -> Result<u32, String> {
///     Guard::new(number)
///         .is_between(1, 15, Bound::Inclusive, "Invalid channel!")
///         .is_not_equal_to(13, "Channel 13 is blocked!")
///         .result()
/// }
///
/// assert_eq!(channel(5), Ok(5));
/// assert_eq!(channel(0), Err(String::from("Invalid channel!")));
/// assert_eq!(channel(13), Err(String::from("Channel 13 is blocked!")));
/// ```
pub struct Guard<T: PartialOrd> {
    value: T,
    error: Option<String>,
}

impl<T: PartialOrd> View for Guard<T> {
    type V = GuardState<T>;

    closed spec fn view(&self) -> GuardState<T> {
        GuardState { value: self.value, failure: self.error }
    }
}

impl<T: PartialOrd> Guard<T> {
    /// The same guard with `error` as its failure.
    fn error(self, error: String) -> (g: Guard<T>)
        ensures
            g@ == (GuardState { value: self@.value, failure: Some(error) }),
    {
        Guard { value: self.value, error: Some(error) }
    }

    /// A guard on `value`, with no failure.
    pub fn new(value: T) -> (g: Guard<T>)
        ensures
            g@ == GuardState::fresh(value),
    {
        Guard { value, error: Option::None }
    }

    /// Ends the chain: the value if no condition failed, else the message
    /// of the first one that did.
    pub fn result(self) -> (r: Result<T, String>)
        ensures
            r == self@.outcome(),
    {
        match self.error {
            None => Ok(self.value),
            Some(message) => Err(message),
        }
    }

    /// Checks that the value equals `test_value`, as `Guards::is_equal_to`
    /// does, unless a failure is recorded already.
    pub fn is_equal_to<E: Into<String>>(self, test_value: T, error_message: E) -> (g: Self)
        ensures
            self@.checked(Check::EqualTo(test_value), error_message, g@),
            T::obeys_eq_spec() ==> (g@.failure is None <==> self@.failure is None
                && self@.value.eq_spec(&test_value)),
    {
        if self.error.is_some() {
            return self;
        }
        if self.value == test_value {
            self
        } else {
            self.error(error_message.into())
        }
    }

    /// Checks that the value differs from `test_value`, as
    /// `Guards::is_not_equal_to` does, unless a failure is recorded already.
    pub fn is_not_equal_to<E: Into<String>>(self, test_value: T, error_message: E) -> (g: Self)
        ensures
            self@.checked(Check::NotEqualTo(test_value), error_message, g@),
            T::obeys_eq_spec() ==> (g@.failure is None <==> self@.failure is None
                && !self@.value.eq_spec(&test_value)),
    {
        if self.error.is_some() {
            return self;
        }
        if self.value != test_value {
            self
        } else {
            self.error(error_message.into())
        }
    }

    /// Checks that the value is less than `test_value`, as
    /// `Guards::is_less_than` does, unless a failure is recorded already.
    pub fn is_less_than<E: Into<String>>(self, test_value: T, error_message: E) -> (g: Self)
        ensures
            self@.checked(Check::LessThan(test_value), error_message, g@),
            T::obeys_partial_cmp_spec() ==> (g@.failure is None <==> self@.failure is None
                && self@.value.is_lt(&test_value)),
    {
        if self.error.is_some() {
            return self;
        }
        if self.value < test_value {
            self
        } else {
            self.error(error_message.into())
        }
    }

    /// Checks that the value is less than or equal to `test_value`, as
    /// `Guards::is_less_or_equal` does, unless a failure is recorded already.
    pub fn is_less_or_equal<E: Into<String>>(self, test_value: T, error_message: E) -> (g: Self)
        ensures
            self@.checked(Check::LessOrEqual(test_value), error_message, g@),
            T::obeys_partial_cmp_spec() ==> (g@.failure is None <==> self@.failure is None
                && self@.value.is_le(&test_value)),
    {
        if self.error.is_some() {
            return self;
        }
        if self.value <= test_value {
            self
        } else {
            self.error(error_message.into())
        }
    }

    /// Checks that the value is greater than `test_value`, as
    /// `Guards::is_greater_than` does, unless a failure is recorded already.
    pub fn is_greater_than<E: Into<String>>(self, test_value: T, error_message: E) -> (g: Self)
        ensures
            self@.checked(Check::GreaterThan(test_value), error_message, g@),
            T::obeys_partial_cmp_spec() ==> (g@.failure is None <==> self@.failure is None
                && self@.value.is_gt(&test_value)),
    {
        if self.error.is_some() {
            return self;
        }
        if self.value > test_value {
            self
        } else {
            self.error(error_message.into())
        }
    }

    /// Checks that the value is greater than or equal to `test_value`, as
    /// `Guards::is_greater_or_equal` does, unless a failure is recorded
    /// already.
    pub fn is_greater_or_equal<E: Into<String>>(
        self,
        test_value: T,
        error_message: E,
    ) -> (g: Self)
        ensures
            self@.checked(Check::GreaterOrEqual(test_value), error_message, g@),
            T::obeys_partial_cmp_spec() ==> (g@.failure is None <==> self@.failure is None
                && self@.value.is_ge(&test_value)),
    {
        if self.error.is_some() {
            return self;
        }
        if self.value >= test_value {
            self
        } else {
            self.error(error_message.into())
        }
    }

    /// Checks that the value lies between the two bounds, as
    /// `Guards::is_between` does, unless a failure is recorded already.
    pub fn is_between<E: Into<String>>(
        self,
        lower_bound: T,
        upper_bound: T,
        bound_mode: Bound,
        error_message: E,
    ) -> (g: Self)
        ensures
            self@.checked(
                Check::Between(lower_bound, upper_bound, bound_mode),
                error_message,
                g@,
            ),
            T::obeys_partial_cmp_spec() ==> (g@.failure is None <==> self@.failure is None
                && between(self@.value, lower_bound, upper_bound, bound_mode)),
    {
        if self.error.is_some() {
            return self;
        }
        let inside = match bound_mode {
            Bound::Exclusive => self.value > lower_bound && self.value < upper_bound,
            Bound::Inclusive => self.value >= lower_bound && self.value <= upper_bound,
        };
        if inside {
            self
        } else {
            self.error(error_message.into())
        }
    }

    /// Checks that the value lies outside the two bounds, as
    /// `Guards::is_outside` does, unless a failure is recorded already.
    pub fn is_outside<E: Into<String>>(
        self,
        lower_bound: T,
        upper_bound: T,
        bound_mode: Bound,
        error_message: E,
    ) -> (g: Self)
        ensures
            self@.checked(
                Check::Outside(lower_bound, upper_bound, bound_mode),
                error_message,
                g@,
            ),
            T::obeys_partial_cmp_spec() ==> (g@.failure is None <==> self@.failure is None
                && outside(self@.value, lower_bound, upper_bound, bound_mode)),
    {
        if self.error.is_some() {
            return self;
        }
        let beyond = match bound_mode {
            Bound::Exclusive => self.value <= lower_bound || self.value >= upper_bound,
            Bound::Inclusive => self.value < lower_bound || self.value > upper_bound,
        };
        if beyond {
            self
        } else {
            self.error(error_message.into())
        }
    }
}

} // verus!
