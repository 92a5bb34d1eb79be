//! From the draws of an estimate to its samples: how many paths are drawn,
//! and what becomes of the estimate when a draw fails.

use vstd::prelude::*;
use crate::error::{XPyError, XPyResult};

verus! {

/// The number of batches of paths that a moment draws: a central moment
/// centres one batch on the mean of another.
pub open spec fn moment_passes(central: bool) -> int {
    if central {
        2
    } else {
        1
    }
}

/// Whether every one of the outcomes is a sample.
pub open spec fn all_drawn<T>(outcomes: Seq<XPyResult<T>>) -> bool {
    forall|i: int| 0 <= i < outcomes.len() ==> (#[trigger] outcomes[i]) is Ok
}

/// Whether the outcome at `at` is the first one that is a failure.
pub open spec fn is_first_failure<T>(outcomes: Seq<XPyResult<T>>, at: int) -> bool {
    &&& 0 <= at < outcomes.len()
    &&& outcomes[at] is Err
    &&& forall|j: int| 0 <= j < at ==> (#[trigger] outcomes[j]) is Ok
}

/// The number of paths that a moment over `particles` particles draws:
/// `particles` for a raw moment, twice as many for a central one. `None` if
/// that number does not fit the machine's word.
pub fn moment_draws(central: bool, particles: usize) -> (draws: Option<usize>)
    ensures
        draws matches Some(count) ==> count == moment_passes(central) * particles,
        draws is Some <==> moment_passes(central) * particles <= usize::MAX,
{
    if central {
        particles.checked_mul(2)
    } else {
        Some(particles)
    }
}

/// Turns the outcomes of the draws of one estimate into its samples.
///
/// If every draw gave a sample, the samples come back, all of them and in the
/// order of the draws. If any draw failed, the estimate fails as a whole with
/// the error of the first failed draw: no sample is dropped and none is made
/// up.
pub fn settle_samples<T>(outcomes: Vec<XPyResult<T>>) -> (settled: XPyResult<Vec<T>>)
    ensures
        settled is Ok <==> all_drawn(outcomes@),
        settled matches Ok(samples) ==> samples@.len() == outcomes@.len() && forall|i: int|
            0 <= i < outcomes@.len() ==> (#[trigger] outcomes@[i]) == Ok::<T, XPyError>(
                samples@[i],
            ),
        settled matches Err(error) ==> exists|at: int|
            is_first_failure(outcomes@, at) && (#[trigger] outcomes@[at]) == Err::<T, XPyError>(
                error,
            ),
{
    let ghost all = outcomes@;
    let mut rest = outcomes;
    let mut backwards: Vec<T> = Vec::new();
    let mut failure: Option<XPyError> = None;
    let ghost mut failed_at: int = all.len() as int;
    while rest.len() > 0
        invariant
            rest@ == all.take(rest@.len() as int),
            rest@.len() <= all.len(),
            failure is None ==> failed_at == all.len(),
            failure is None ==> forall|i: int|
                rest@.len() <= i < all.len() ==> (#[trigger] all[i]) is Ok,
            failure is None ==> backwards@.len() == all.len() - rest@.len(),
            failure is None ==> forall|i: int|
                0 <= i < backwards@.len() ==> (#[trigger] all[all.len() - 1 - i]) == Ok::<
                    T,
                    XPyError,
                >(backwards@[i]),
            failure matches Some(error) ==> rest@.len() <= failed_at < all.len()
                && all[failed_at] == Err::<T, XPyError>(error) && forall|j: int|
                rest@.len() <= j < failed_at ==> (#[trigger] all[j]) is Ok,
        decreases rest@.len(),
    {
        let ghost taken_at = rest@.len() - 1;
        let taken = rest.pop();
        match taken {
            Some(Ok(sample)) => {
                if failure.is_none() {
                    backwards.push(sample);
                }
            },
            Some(Err(error)) => {
                failure = Some(error);
                proof {
                    failed_at = taken_at;
                }
            },
            None => {},
        }
    }
    match failure {
        Some(error) => Err(error),
        None => {
            let mut samples: Vec<T> = Vec::new();
            let ghost turned = backwards@;
            while backwards.len() > 0
                invariant
                    turned.len() == all.len(),
                    backwards@ == turned.take(backwards@.len() as int),
                    backwards@.len() <= turned.len(),
                    samples@.len() == turned.len() - backwards@.len(),
                    forall|i: int|
                        0 <= i < turned.len() ==> (#[trigger] all[all.len() - 1 - i]) == Ok::<
                            T,
                            XPyError,
                        >(turned[i]),
                    forall|i: int|
                        0 <= i < samples@.len() ==> (#[trigger] samples@[i]) == turned[turned.len()
                            - 1 - i],
                decreases backwards@.len(),
            {
                let taken = backwards.pop();
                match taken {
                    Some(sample) => {
                        samples.push(sample);
                    },
                    None => {},
                }
            }
            proof {
                assert forall|i: int| 0 <= i < all.len() implies (#[trigger] all[i]) == Ok::<
                    T,
                    XPyError,
                >(samples@[i]) by {
                    let k = all.len() - 1 - i;
                    assert(all[all.len() - 1 - k] == Ok::<T, XPyError>(turned[k]));
                }
            }
            Ok(samples)
        },
    }
}

/// Before any failure there is a first one.
pub proof fn lemma_failure_has_a_first<T>(outcomes: Seq<XPyResult<T>>, failed: int)
    requires
        0 <= failed < outcomes.len(),
        outcomes[failed] is Err,
    ensures
        exists|at: int| is_first_failure(outcomes, at) && at <= failed,
    decreases failed,
{
    if exists|j: int| 0 <= j < failed && !((#[trigger] outcomes[j]) is Ok) {
        let earlier = choose|j: int| 0 <= j < failed && !((#[trigger] outcomes[j]) is Ok);
        lemma_failure_has_a_first(outcomes, earlier);
    } else {
        assert(is_first_failure(outcomes, failed));
    }
}

/// Outcomes hold a first failure exactly when not every draw gave a sample,
/// and they hold at most one: the error of a failed estimate is determined by
/// the outcomes alone.
pub proof fn lemma_first_failure_is_determined<T>(outcomes: Seq<XPyResult<T>>)
    ensures
        all_drawn(outcomes) <==> !exists|at: int| is_first_failure(outcomes, at),
        forall|a: int, b: int|
            is_first_failure(outcomes, a) && is_first_failure(outcomes, b) ==> a == b,
{
    if !all_drawn(outcomes) {
        let some = choose|i: int| 0 <= i < outcomes.len() && !((#[trigger] outcomes[i]) is Ok);
        lemma_failure_has_a_first(outcomes, some);
    }
    assert forall|a: int, b: int|
        is_first_failure(outcomes, a) && is_first_failure(outcomes, b) implies a == b by {
        if a < b {
            assert(outcomes[a] is Ok);
        }
        if b < a {
            assert(outcomes[b] is Ok);
        }
    }
}

} // verus!
