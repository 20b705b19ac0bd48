//! Decisions of the periodic fetch loop: what to do with each fetch
//! outcome under the configured error policy.
use crate::weather::CurrentWeather;
use vstd::prelude::*;

verus! {

/// What a failed fetch does to the fetch loop.
#[derive(Clone, Copy, Debug, PartialEq, Eq, Structural)]
pub enum OnErrorBehaviour {
    /// Report the failure and wait for the next tick.
    Continue,
    /// End the loop with the failure.
    Abort,
}

/// A failure of the weather source, described in words.
#[derive(Clone, Debug, PartialEq, Eq)]
pub struct SourceError {
    pub message: String,
}

/// Why the fetch loop ended.
#[derive(Clone, Debug, PartialEq, Eq)]
pub enum FetchError {
    /// The weather source failed under the `Abort` policy.
    Source(SourceError),
    /// The queue towards the publisher was closed.
    QueueClosed,
}

/// What the fetch loop does after one fetch.
#[derive(Clone, Debug, PartialEq, Eq)]
pub enum FetchAction {
    /// Push the value into the queue (waiting while it is full).
    Enqueue(CurrentWeather),
    /// Report the failure and go on with the next tick.
    Report(SourceError),
    /// End the loop with this error.
    Stop(FetchError),
}

/// The action that one fetch outcome leads to under `policy`.
pub open spec fn fetch_step(
    policy: OnErrorBehaviour,
    outcome: Result<CurrentWeather, SourceError>,
) -> FetchAction {
    match outcome {
        Ok(v) => FetchAction::Enqueue(v),
        Err(e) => match policy {
            OnErrorBehaviour::Continue => FetchAction::Report(e),
            OnErrorBehaviour::Abort => FetchAction::Stop(FetchError::Source(e)),
        },
    }
}

/// A fetch loop fed `outcomes` one tick at a time, until they run out or
/// the loop stops: the values enqueued, in order, the number of fetches
/// made, and the error it stopped with, if it did.
pub open spec fn fetch_run(
    policy: OnErrorBehaviour,
    outcomes: Seq<Result<CurrentWeather, SourceError>>,
) -> (Seq<CurrentWeather>, nat, Option<FetchError>)
    decreases outcomes.len(),
{
    if outcomes.len() == 0 {
        (Seq::empty(), 0, None)
    } else {
        let rest = fetch_run(policy, outcomes.drop_first());
        match fetch_step(policy, outcomes[0]) {
            FetchAction::Enqueue(v) => (seq![v] + rest.0, rest.1 + 1, rest.2),
            FetchAction::Report(_) => (rest.0, rest.1 + 1, rest.2),
            FetchAction::Stop(e) => (Seq::empty(), 1, Some(e)),
        }
    }
}

/// The successful values among `outcomes`, in order.
pub open spec fn successes(outcomes: Seq<Result<CurrentWeather, SourceError>>) -> Seq<
    CurrentWeather,
>
    decreases outcomes.len(),
{
    if outcomes.len() == 0 {
        Seq::empty()
    } else {
        match outcomes[0] {
            Ok(v) => seq![v] + successes(outcomes.drop_first()),
            Err(_) => successes(outcomes.drop_first()),
        }
    }
}

/// The state of a fetch loop: its policy, and whether it has ended.
#[derive(Debug)]
pub struct FetchLoop {
    policy: OnErrorBehaviour,
    stopped: bool,
}

impl FetchLoop {
    pub closed spec fn spec_policy(&self) -> OnErrorBehaviour {
        self.policy
    }

    pub closed spec fn spec_stopped(&self) -> bool {
        self.stopped
    }

    pub fn new(policy: OnErrorBehaviour) -> (r: FetchLoop)
        ensures
            r.spec_policy() == policy,
            !r.spec_stopped(),
    {
        FetchLoop { policy, stopped: false }
    }

    pub fn policy(&self) -> (r: OnErrorBehaviour)
        ensures
            r == self.spec_policy(),
    {
        self.policy
    }

    pub fn is_stopped(&self) -> (r: bool)
        ensures
            r == self.spec_stopped(),
    {
        self.stopped
    }

    /// Decides what the outcome of one fetch leads to; the loop ends exactly
    /// when the action is `Stop`.
    pub fn on_fetch(&mut self, outcome: Result<CurrentWeather, SourceError>) -> (r: FetchAction)
        requires
            !old(self).spec_stopped(),
        ensures
            r == fetch_step(old(self).spec_policy(), outcome),
            final(self).spec_policy() == old(self).spec_policy(),
            final(self).spec_stopped() == (r is Stop),
    {
        match outcome {
            Ok(v) => FetchAction::Enqueue(v),
            Err(e) => match self.policy {
                OnErrorBehaviour::Continue => FetchAction::Report(e),
                OnErrorBehaviour::Abort => {
                    self.stopped = true;
                    FetchAction::Stop(FetchError::Source(e))
                },
            },
        }
    }

    /// The queue towards the publisher was closed: the loop ends.
    pub fn on_queue_closed(&mut self) -> (r: FetchError)
        ensures
            r == FetchError::QueueClosed,
            final(self).spec_policy() == old(self).spec_policy(),
            final(self).spec_stopped(),
    {
        self.stopped = true;
        FetchError::QueueClosed
    }
}

/// Under `Continue` the loop never stops on a failed fetch: it makes every
/// fetch and enqueues exactly the successful values, in order.
pub proof fn lemma_continue_never_stops(outcomes: Seq<Result<CurrentWeather, SourceError>>)
    ensures
        fetch_run(OnErrorBehaviour::Continue, outcomes) == (
            successes(outcomes),
            outcomes.len(),
            None::<FetchError>,
        ),
    decreases outcomes.len(),
{
    if outcomes.len() > 0 {
        lemma_continue_never_stops(outcomes.drop_first());
    }
}

/// Under `Abort` the loop stops at the first failed fetch `k`, after `k + 1`
/// fetches, with that failure, having enqueued the values before it and
/// none after.
pub proof fn lemma_abort_stops_at_first_failure(
    outcomes: Seq<Result<CurrentWeather, SourceError>>,
    k: int,
)
    requires
        0 <= k < outcomes.len(),
        outcomes[k] is Err,
        forall|i: int| 0 <= i < k ==> #[trigger] outcomes[i] is Ok,
    ensures
        fetch_run(OnErrorBehaviour::Abort, outcomes) == (
            successes(outcomes.take(k)),
            (k + 1) as nat,
            Some(FetchError::Source(outcomes[k]->Err_0)),
        ),
    decreases k,
{
    if k > 0 {
        let rest = outcomes.drop_first();
        assert forall|i: int| 0 <= i < k - 1 implies #[trigger] rest[i] is Ok by {
            assert(rest[i] == outcomes[i + 1]);
        }
        lemma_abort_stops_at_first_failure(rest, k - 1);
        assert(outcomes.take(k).drop_first() =~= rest.take(k - 1));
        assert(outcomes.take(k)[0] == outcomes[0]);
    } else {
        assert(outcomes.take(0) =~= Seq::<Result<CurrentWeather, SourceError>>::empty());
    }
}

} // verus!
