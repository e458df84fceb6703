//! Carrying out a list of calls, one after the other, up to the first that fails.
use vstd::prelude::*;

verus! {

/// How far a list of calls has been carried out.
pub struct Progress<T, E> {
    /// The calls, in the order in which they are to be made.
    pub calls: Seq<T>,
    /// How many of them have been made.
    pub made: nat,
    /// The error of the call that failed, if one did: it is the last that was made.
    pub error: Option<E>,
}

impl<T, E> Progress<T, E> {
    /// No call has been made.
    pub open spec fn start(calls: Seq<T>) -> Self {
        Progress { calls, made: 0, error: None }
    }

    /// The call that is to be made next. There is none behind the last call, nor behind one that
    /// failed.
    pub open spec fn pending(self) -> Option<T> {
        if self.error is None && self.made < self.calls.len() {
            Some(self.calls[self.made as int])
        } else {
            None
        }
    }

    /// The progress once the pending call has been made with this outcome. Where no call is
    /// pending nothing changes.
    pub open spec fn after(self, outcome: Result<(), E>) -> Self {
        if self.pending() is Some {
            Progress {
                calls: self.calls,
                made: self.made + 1,
                error: match outcome {
                    Ok(_) => None,
                    Err(e) => Some(e),
                },
            }
        } else {
            self
        }
    }

    /// The progress after a series of outcomes.
    pub open spec fn after_all(self, outcomes: Seq<Result<(), E>>) -> Self
        decreases outcomes.len(),
    {
        if outcomes.len() == 0 {
            self
        } else {
            self.after_all(outcomes.drop_last()).after(outcomes.last())
        }
    }

    /// What came of the whole list: nothing yet while a call is pending, otherwise the error of the
    /// call that failed, or success.
    pub open spec fn result(self) -> Option<Result<(), E>> {
        if self.pending() is Some {
            None
        } else {
            match self.error {
                Some(e) => Some(Err(e)),
                None => Some(Ok(())),
            }
        }
    }
}

/// A list of calls that is being carried out.
pub struct Run<T, E> {
    calls: Vec<T>,
    made: usize,
    error: Option<E>,
}

impl<T, E> View for Run<T, E> {
    type V = Progress<T, E>;

    closed spec fn view(&self) -> Progress<T, E> {
        Progress { calls: self.calls@, made: self.made as nat, error: self.error }
    }
}

impl<T: Copy, E> Run<T, E> {
    /// A run of the calls in which none has been made yet.
    pub fn new(calls: Vec<T>) -> (run: Self)
        ensures
            run@ == Progress::<T, E>::start(calls@),
    {
        Run { calls, made: 0, error: None }
    }

    /// The call that is to be made next.
    pub fn pending(&self) -> (call: Option<T>)
        ensures
            call == self@.pending(),
    {
        if self.error.is_none() && self.made < self.calls.len() {
            Some(self.calls[self.made])
        } else {
            None
        }
    }

    /// Takes the outcome of the pending call.
    pub fn reply(&mut self, outcome: Result<(), E>)
        ensures
            final(self)@ == old(self)@.after(outcome),
    {
        if self.error.is_none() && self.made < self.calls.len() {
            self.made = self.made + 1;
            self.error = match outcome {
                Ok(_) => None,
                Err(e) => Some(e),
            };
        }
    }

    /// What came of the run, once no call is pending.
    pub fn result(self) -> (result: Option<Result<(), E>>)
        ensures
            result == self@.result(),
    {
        if self.error.is_none() && self.made < self.calls.len() {
            return None;
        }
        match self.error {
            Some(e) => Some(Err(e)),
            None => Some(Ok(())),
        }
    }
}

/// While all outcomes are successes, the calls are made in order, one for each outcome.
pub proof fn law_successes_advance<T, E>(calls: Seq<T>, outcomes: Seq<Result<(), E>>)
    requires
        outcomes.len() <= calls.len(),
        forall|i: int| 0 <= i < outcomes.len() ==> outcomes[i] is Ok,
    ensures
        Progress::<T, E>::start(calls).after_all(outcomes) == (Progress::<T, E> {
            calls,
            made: outcomes.len(),
            error: None,
        }),
    decreases outcomes.len(),
{
    if outcomes.len() > 0 {
        let fewer = outcomes.drop_last();
        assert forall|i: int| 0 <= i < fewer.len() implies fewer[i] is Ok by {
            assert(fewer[i] == outcomes[i]);
        }
        law_successes_advance::<T, E>(calls, fewer);
    }
}

/// The run succeeds once every call has succeeded.
pub proof fn law_all_successes_succeed<T, E>(calls: Seq<T>, outcomes: Seq<Result<(), E>>)
    requires
        outcomes.len() == calls.len(),
        forall|i: int| 0 <= i < outcomes.len() ==> outcomes[i] is Ok,
    ensures
        Progress::<T, E>::start(calls).after_all(outcomes).result() == Some(
            Ok::<(), E>(()),
        ),
{
    law_successes_advance::<T, E>(calls, outcomes);
}

/// The run ends with the error of the first call that fails, and no call is made behind it,
/// whatever else is replied.
pub proof fn law_first_failure_ends_the_run<T, E>(
    calls: Seq<T>,
    outcomes: Seq<Result<(), E>>,
    k: int,
    error: E,
)
    requires
        0 <= k < calls.len(),
        k < outcomes.len(),
        forall|i: int| 0 <= i < k ==> outcomes[i] is Ok,
        outcomes[k] == Err::<(), E>(error),
    ensures
        Progress::<T, E>::start(calls).after_all(outcomes) == (Progress::<T, E> {
            calls,
            made: (k + 1) as nat,
            error: Some(error),
        }),
        Progress::<T, E>::start(calls).after_all(outcomes).pending() is None,
        Progress::<T, E>::start(calls).after_all(outcomes).result() == Some(Err::<(), E>(error)),
    decreases outcomes.len(),
{
    let fewer = outcomes.drop_last();
    if k + 1 == outcomes.len() {
        assert forall|i: int| 0 <= i < fewer.len() implies fewer[i] is Ok by {
            assert(fewer[i] == outcomes[i]);
        }
        law_successes_advance::<T, E>(calls, fewer);
    } else {
        assert forall|i: int| 0 <= i < k implies fewer[i] is Ok by {
            assert(fewer[i] == outcomes[i]);
        }
        assert(fewer[k] == outcomes[k]);
        law_first_failure_ends_the_run::<T, E>(calls, fewer, k, error);
    }
}

/// A call is asked for only if every call before it was made and succeeded.
pub proof fn law_pending_call_has_its_predecessors<T, E>(
    calls: Seq<T>,
    outcomes: Seq<Result<(), E>>,
)
    ensures
        ({
            let progress = Progress::<T, E>::start(calls).after_all(outcomes);
            progress.pending() is Some ==> {
                &&& progress.calls == calls
                &&& progress.made == outcomes.len()
                &&& forall|i: int| 0 <= i < outcomes.len() ==> outcomes[i] is Ok
            }
        }),
    decreases outcomes.len(),
{
    if outcomes.len() > 0 {
        let fewer = outcomes.drop_last();
        law_pending_call_has_its_predecessors::<T, E>(calls, fewer);
        let progress = Progress::<T, E>::start(calls).after_all(outcomes);
        if progress.pending() is Some {
            assert forall|i: int| 0 <= i < outcomes.len() implies outcomes[i] is Ok by {
                if i < fewer.len() {
                    assert(fewer[i] == outcomes[i]);
                }
            }
        }
    }
}

/// A run succeeds only if every call was made and succeeded.
pub proof fn law_success_means_every_call_succeeded<T, E>(
    calls: Seq<T>,
    outcomes: Seq<Result<(), E>>,
)
    requires
        Progress::<T, E>::start(calls).after_all(outcomes).result() == Some(Ok::<(), E>(())),
    ensures
        outcomes.len() >= calls.len(),
        forall|i: int| 0 <= i < calls.len() ==> outcomes[i] is Ok,
    decreases outcomes.len(),
{
    if outcomes.len() > 0 {
        let fewer = outcomes.drop_last();
        let before = Progress::<T, E>::start(calls).after_all(fewer);
        if before.pending() is Some {
            law_pending_call_has_its_predecessors::<T, E>(calls, fewer);
            assert forall|i: int| 0 <= i < calls.len() implies outcomes[i] is Ok by {
                if i < fewer.len() {
                    assert(fewer[i] == outcomes[i]);
                }
            }
        } else {
            law_success_means_every_call_succeeded::<T, E>(calls, fewer);
            assert forall|i: int| 0 <= i < calls.len() implies outcomes[i] is Ok by {
                assert(fewer[i] == outcomes[i]);
            }
        }
    }
}

/// Whether every call that cannot fail is answered with success.
pub open spec fn is_sound<T, E>(
    calls: Seq<T>,
    outcomes: Seq<Result<(), E>>,
    can_fail: spec_fn(T) -> bool,
) -> bool {
    forall|i: int|
        #![trigger calls[i]]
        #![trigger outcomes[i]]
        0 <= i < calls.len() && i < outcomes.len() && !can_fail(calls[i]) ==> outcomes[i] is Ok
}

/// Whether the `k`-th call can fail, did, and is the first of those that can.
pub open spec fn fails_first<T, E>(
    calls: Seq<T>,
    outcomes: Seq<Result<(), E>>,
    can_fail: spec_fn(T) -> bool,
    k: int,
    error: E,
) -> bool {
    &&& 0 <= k < calls.len()
    &&& can_fail(calls[k])
    &&& outcomes[k] == Err::<(), E>(error)
    &&& forall|i: int|
        #![trigger calls[i]]
        #![trigger outcomes[i]]
        0 <= i < k && can_fail(calls[i]) ==> outcomes[i] is Ok
}

/// Whether every call that can fail succeeds.
pub open spec fn all_succeed<T, E>(
    calls: Seq<T>,
    outcomes: Seq<Result<(), E>>,
    can_fail: spec_fn(T) -> bool,
) -> bool {
    forall|i: int|
        #![trigger calls[i]]
        #![trigger outcomes[i]]
        0 <= i < calls.len() && can_fail(calls[i]) ==> outcomes[i] is Ok
}

/// Where the calls that cannot fail are answered with success, a run ends with an error exactly if
/// that is the first error among the calls that can, and succeeds exactly if all of those do.
pub proof fn law_only_calls_that_can_fail_decide<T, E>(
    calls: Seq<T>,
    outcomes: Seq<Result<(), E>>,
    can_fail: spec_fn(T) -> bool,
    error: E,
)
    requires
        outcomes.len() >= calls.len(),
        is_sound(calls, outcomes, can_fail),
    ensures
        Progress::<T, E>::start(calls).after_all(outcomes).result() == Some(Err::<(), E>(error))
            <==> exists|k: int| fails_first(calls, outcomes, can_fail, k, error),
        Progress::<T, E>::start(calls).after_all(outcomes).result() == Some(Ok::<(), E>(()))
            <==> all_succeed(calls, outcomes, can_fail),
{
    if exists|k: int| fails_first(calls, outcomes, can_fail, k, error) {
        let k = choose|k: int| fails_first(calls, outcomes, can_fail, k, error);
        law_first_failure_ends_the_run::<T, E>(calls, outcomes, k, error);
    }
    if forall|i: int| 0 <= i < calls.len() ==> outcomes[i] is Ok {
        lemma_successes_suffice::<T, E>(calls, outcomes);
    } else {
        let bad = choose|i: int| 0 <= i < calls.len() && !(outcomes[i] is Ok);
        let k = lemma_first_failure::<E>(outcomes, bad);
        let e = outcomes[k]->Err_0;
        law_first_failure_ends_the_run::<T, E>(calls, outcomes, k, e);
        assert(fails_first(calls, outcomes, can_fail, k, e));
    }
}

/// The first failure, at `bad` or before it.
proof fn lemma_first_failure<E>(outcomes: Seq<Result<(), E>>, bad: int) -> (k: int)
    requires
        0 <= bad < outcomes.len(),
        outcomes[bad] is Err,
    ensures
        0 <= k <= bad,
        outcomes[k] is Err,
        forall|i: int| 0 <= i < k ==> outcomes[i] is Ok,
    decreases bad,
{
    if forall|i: int| 0 <= i < bad ==> outcomes[i] is Ok {
        bad
    } else {
        let earlier = choose|i: int| 0 <= i < bad && !(outcomes[i] is Ok);
        lemma_first_failure::<E>(outcomes, earlier)
    }
}

/// A run whose calls all succeed ends with success, whatever else is replied.
proof fn lemma_successes_suffice<T, E>(calls: Seq<T>, outcomes: Seq<Result<(), E>>)
    requires
        outcomes.len() >= calls.len(),
        forall|i: int| 0 <= i < calls.len() ==> outcomes[i] is Ok,
    ensures
        Progress::<T, E>::start(calls).after_all(outcomes).result() == Some(Ok::<(), E>(())),
    decreases outcomes.len(),
{
    if outcomes.len() == calls.len() {
        law_all_successes_succeed::<T, E>(calls, outcomes);
    } else {
        let fewer = outcomes.drop_last();
        assert forall|i: int| 0 <= i < calls.len() implies fewer[i] is Ok by {
            assert(fewer[i] == outcomes[i]);
        }
        lemma_successes_suffice::<T, E>(calls, fewer);
    }
}

/// After as many successes, the call that is asked for is the next of the list, and there is no
/// result before the last one has been made.
pub proof fn law_calls_are_asked_for_in_order<T, E>(calls: Seq<T>, outcomes: Seq<Result<(), E>>)
    requires
        outcomes.len() < calls.len(),
        forall|i: int| 0 <= i < outcomes.len() ==> outcomes[i] is Ok,
    ensures
        Progress::<T, E>::start(calls).after_all(outcomes).pending() == Some(
            calls[outcomes.len() as int],
        ),
        Progress::<T, E>::start(calls).after_all(outcomes).result() is None,
{
    law_successes_advance::<T, E>(calls, outcomes);
}

/// Once every call has succeeded, none is asked for any more, and nothing that is replied changes the
/// success.
pub proof fn law_success_is_final<T, E>(calls: Seq<T>, outcomes: Seq<Result<(), E>>)
    requires
        outcomes.len() >= calls.len(),
        forall|i: int| 0 <= i < calls.len() ==> outcomes[i] is Ok,
    ensures
        Progress::<T, E>::start(calls).after_all(outcomes).pending() is None,
        Progress::<T, E>::start(calls).after_all(outcomes).result() == Some(Ok::<(), E>(())),
{
    lemma_successes_suffice::<T, E>(calls, outcomes);
}

/// A series of outcomes is taken one at a time.
pub proof fn law_outcomes_are_taken_one_by_one<T, E>(
    progress: Progress<T, E>,
    outcomes: Seq<Result<(), E>>,
    next: Result<(), E>,
)
    ensures
        progress.after_all(Seq::empty()) == progress,
        progress.after_all(outcomes.push(next)) == progress.after_all(outcomes).after(next),
{
    assert(outcomes.push(next).drop_last() =~= outcomes);
}

/// One outcome moves a run on by one call and keeps the error if there was one, as long as a call is
/// pending. Otherwise it changes nothing.
pub proof fn law_outcome_moves_on_by_one<T, E>(progress: Progress<T, E>, outcome: Result<(), E>)
    ensures
        ({
            let next = progress.after(outcome);
            let waits = progress.error is None && progress.made < progress.calls.len();
            &&& next.calls == progress.calls
            &&& waits ==> next.made == progress.made + 1 && (match outcome {
                Ok(_) => next.error is None,
                Err(e) => next.error == Some(e),
            })
            &&& !waits ==> next == progress
        }),
{
}

} // verus!
