//! Chains of checks as a whole: what a guard comes to after any number of
//! calls, and the laws of that.

use vstd::prelude::*;
use crate::check::specified;
use crate::check::Check;
use crate::guard::GuardState;
use crate::guards::converted;

verus! {

/// One call in a chain: the condition, and its message as a `String`.
/// Laws speak of chains through it; no function takes or returns one.
pub struct Call<T> {
    /// The condition that the call checks.
    pub check: Check<T>,
    /// What the call records if the condition fails.
    pub text: String,
}

impl<T: PartialOrd> GuardState<T> {
    /// `next` is a state that `call` may leave this one in: `checked`, with
    /// the message already a `String`.
    pub open spec fn leads(self, call: Call<T>, next: Self) -> bool {
        &&& next.value == self.value
        &&& match self.failure {
            Some(_) => next.failure == self.failure,
            None => {
                &&& call.check.gives(self.value, next.failure is None)
                &&& next.failure matches Some(text) ==> text == call.text
            },
        }
    }

    /// The state after `call`, for a specified `T`: the same state if a
    /// failure is recorded or the condition holds, else the value with the
    /// call's message.
    pub open spec fn after(self, call: Call<T>) -> Self {
        if self.failure is Some || call.check.holds(self.value) {
            self
        } else {
            GuardState { value: self.value, failure: Some(call.text) }
        }
    }

    /// The state after the calls of `chain`, first to last.
    pub open spec fn after_all(self, chain: Seq<Call<T>>) -> Self
        decreases chain.len(),
    {
        if chain.len() == 0 {
            self
        } else {
            self.after_all(chain.drop_last()).after(chain.last())
        }
    }

    /// What a chain method ensures is `leads` for the call that was made:
    /// the method's condition, and as text the message that it recorded, or
    /// any text if it recorded none.
    pub proof fn lemma_checked_leads<E: Into<String>>(
        self,
        check: Check<T>,
        error_message: E,
        text: String,
        next: Self,
    )
        requires
            self.checked(check, error_message, next),
            self.failure is None && next.failure is Some ==> next.failure == Some(text),
        ensures
            self.leads(Call { check, text }, next),
            self.failure is None && next.failure is Some ==> converted(error_message, text),
    {
    }

    /// For a specified `T` a call leaves one state only, and `after` names
    /// it.
    pub proof fn lemma_leads_is_after(self, call: Call<T>, next: Self)
        requires
            specified::<T>(),
            self.leads(call, next),
        ensures
            next == self.after(call),
    {
        if self.failure is None {
            call.check.lemma_gives_is_holds(self.value, next.failure is None);
        }
    }

    /// A chain of conditions that all hold of the value leaves a fresh guard
    /// as it is.
    pub proof fn lemma_passing_chain_changes_nothing(value: T, chain: Seq<Call<T>>)
        requires
            forall|i: int| 0 <= i < chain.len() ==> (#[trigger] chain[i]).check.holds(value),
        ensures
            Self::fresh(value).after_all(chain) == Self::fresh(value),
        decreases chain.len(),
    {
        if chain.len() > 0 {
            Self::lemma_passing_chain_changes_nothing(value, chain.drop_last());
        }
    }

    /// A chain whose call `first` is the first whose condition does not hold
    /// of the value leaves the message of that call, whatever follows it.
    pub proof fn lemma_first_failure_stays(value: T, chain: Seq<Call<T>>, first: int)
        requires
            0 <= first < chain.len(),
            !chain[first].check.holds(value),
            forall|i: int| 0 <= i < first ==> (#[trigger] chain[i]).check.holds(value),
        ensures
            Self::fresh(value).after_all(chain) == (GuardState {
                value,
                failure: Some(chain[first].text),
            }),
        decreases chain.len(),
    {
        let before = chain.drop_last();
        if first == chain.len() - 1 {
            Self::lemma_passing_chain_changes_nothing(value, before);
        } else {
            Self::lemma_first_failure_stays(value, before, first);
        }
    }
}

/// `trace` holds the states that a guard may go through under `chain`: the
/// state before the first call, then the state after each call.
pub open spec fn follows<T: PartialOrd>(trace: Seq<GuardState<T>>, chain: Seq<Call<T>>) -> bool {
    &&& trace.len() == chain.len() + 1
    &&& forall|i: int|
        0 <= i < chain.len() ==> (#[trigger] trace[i]).leads(chain[i], trace[i + 1])
}

/// For a specified `T`, whatever run of a chain is observed ends where
/// `after_all` says: what a chain comes to is a function of the first state
/// and the calls.
pub proof fn lemma_run_is_after_all<T: PartialOrd>(
    trace: Seq<GuardState<T>>,
    chain: Seq<Call<T>>,
)
    requires
        specified::<T>(),
        follows(trace, chain),
    ensures
        trace.last() == trace[0].after_all(chain),
    decreases chain.len(),
{
    if chain.len() > 0 {
        let n = chain.len() - 1;
        let shorter = trace.drop_last();
        assert forall|i: int| 0 <= i < n implies (#[trigger] shorter[i]).leads(
            chain.drop_last()[i],
            shorter[i + 1],
        ) by {
            assert(trace[i].leads(chain[i], trace[i + 1]));
        }
        lemma_run_is_after_all(shorter, chain.drop_last());
        assert(trace[n].leads(chain[n], trace[n + 1]));
        trace[n].lemma_leads_is_after(chain[n], trace[n + 1]);
    }
}

/// A chain of only passing calls gives the value back: a guard made on
/// `value`, taken through calls whose conditions all hold of it, finishes
/// with `Ok(value)`.
pub proof fn lemma_passing_chain_gives_value<T: PartialOrd>(
    value: T,
    trace: Seq<GuardState<T>>,
    chain: Seq<Call<T>>,
)
    requires
        specified::<T>(),
        follows(trace, chain),
        trace[0] == GuardState::fresh(value),
        forall|i: int| 0 <= i < chain.len() ==> (#[trigger] chain[i]).check.holds(value),
    ensures
        trace.last().outcome() == Ok::<T, String>(value),
{
    lemma_run_is_after_all(trace, chain);
    GuardState::lemma_passing_chain_changes_nothing(value, chain);
}

/// The first failure wins: a guard made on `value`, taken through a chain
/// whose call `first` is the first whose condition does not hold of it,
/// finishes with the message of that call, however many calls follow and
/// whether their conditions hold or not.
pub proof fn lemma_first_failure_wins<T: PartialOrd>(
    value: T,
    trace: Seq<GuardState<T>>,
    chain: Seq<Call<T>>,
    first: int,
)
    requires
        specified::<T>(),
        follows(trace, chain),
        trace[0] == GuardState::fresh(value),
        0 <= first < chain.len(),
        !chain[first].check.holds(value),
        forall|i: int| 0 <= i < first ==> (#[trigger] chain[i]).check.holds(value),
    ensures
        trace.last().outcome() == Err::<T, String>(chain[first].text),
{
    lemma_run_is_after_all(trace, chain);
    GuardState::lemma_first_failure_stays(value, chain, first);
}

/// Running a chain again gives the same again: two runs of one chain from
/// one state go through the same states and finish alike.
pub proof fn lemma_rerun_is_same<T: PartialOrd>(
    first_run: Seq<GuardState<T>>,
    second_run: Seq<GuardState<T>>,
    chain: Seq<Call<T>>,
)
    requires
        specified::<T>(),
        follows(first_run, chain),
        follows(second_run, chain),
        first_run[0] == second_run[0],
    ensures
        first_run == second_run,
        first_run.last().outcome() == second_run.last().outcome(),
{
    assert forall|i: int| 0 <= i < first_run.len() implies first_run[i] == second_run[i] by {
        let upto = chain.take(i);
        let a = first_run.take(i + 1);
        let b = second_run.take(i + 1);
        assert forall|j: int| 0 <= j < i implies (#[trigger] a[j]).leads(upto[j], a[j + 1]) by {
            assert(first_run[j].leads(chain[j], first_run[j + 1]));
        }
        assert forall|j: int| 0 <= j < i implies (#[trigger] b[j]).leads(upto[j], b[j + 1]) by {
            assert(second_run[j].leads(chain[j], second_run[j + 1]));
        }
        lemma_run_is_after_all(a, upto);
        lemma_run_is_after_all(b, upto);
    }
    assert(first_run =~= second_run);
}

} // verus!
