//! Checks that are made one after the other, of which the first objection is reported.
use vstd::prelude::*;

verus! {

/// Objections in the order in which checks are made.
pub trait Objection: Sized {
    /// This objection, or else the one of a later check.
    spec fn otherwise(self, later: Self) -> Self;
}

impl<E> Objection for Option<E> {
    open spec fn otherwise(self, later: Self) -> Self {
        match self {
            Some(problem) => Some(problem),
            None => later,
        }
    }
}

/// The objection to the first of `n` items that is objected to.
pub open spec fn first_problem<E>(check: spec_fn(int) -> Option<E>, n: int) -> Option<E>
    decreases n,
{
    if n <= 0 {
        None
    } else {
        first_problem(check, n - 1).otherwise(check(n - 1))
    }
}

/// A check's outcome reports exactly `problem`.
pub open spec fn reports<E: DeepView>(outcome: Result<(), E>, problem: Option<E::V>) -> bool {
    match outcome {
        Ok(_) => problem is None,
        Err(error) => problem == Some(error.deep_view()),
    }
}

/// Where no item before `i` is objected to and `i` is, the list's objection is the one
/// to `i`.
pub proof fn lemma_first_problem<E>(check: spec_fn(int) -> Option<E>, i: int, n: int)
    requires
        0 <= i < n,
        first_problem(check, i) is None,
        check(i) is Some,
    ensures
        first_problem(check, n) == check(i),
    decreases n,
{
    if i < n - 1 {
        lemma_first_problem(check, i, n - 1);
    }
}

/// A list is objected to just where one of its items is.
pub proof fn lemma_no_problem<E>(check: spec_fn(int) -> Option<E>, n: int)
    ensures
        first_problem(check, n) is None <==> forall|i: int|
            0 <= i < n ==> #[trigger] check(i) is None,
    decreases n,
{
    if n > 0 {
        lemma_no_problem(check, n - 1);
        if forall|i: int| 0 <= i < n ==> #[trigger] check(i) is None {
            assert(check(n - 1) is None);
        }
    }
}

} // verus!
