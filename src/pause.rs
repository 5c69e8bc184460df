use vstd::prelude::*;

use crate::model::{EngineError, ErrorKind, EventDetails};

verus! {

/// The wait budget, in milliseconds, that a paused workload is given to quiesce.
pub const PAUSE_WAIT_BUDGET_MS: u64 = 300000;

/// What one poll of the cluster observed of the workload being paused.
#[derive(Clone, Copy, Debug, PartialEq, Eq, Structural)]
pub struct PauseObservation {
    /// How many cluster resources match the workload's selector.
    pub matched: u64,
    /// How many replicas are still running.
    pub replicas: u64,
    /// Whether the attached stateful storage has detached.
    pub storage_detached: bool,
}

/// What to do after a poll.
#[derive(Debug)]
pub enum PauseDecision {
    /// The workload has quiesced: the pause succeeded.
    Done,
    /// Poll again later.
    Wait,
    /// The pause failed.
    Fail(EngineError),
}

/// Scales a workload to zero and waits, within a bounded time, until it has quiesced.
pub struct PauseServiceAction {
    pub selector: String,
    pub is_stateful: bool,
    /// The wait budget in milliseconds.
    pub max_wait_ms: u64,
    pub event_details: EventDetails,
}

/// A workload has quiesced once no replica runs and, if it is stateful,
/// its storage has detached.
pub open spec fn quiesced(is_stateful: bool, obs: PauseObservation) -> bool {
    obs.replicas == 0 && (is_stateful ==> obs.storage_detached)
}

/// The decision after a poll, as the kind of error where the pause fails.
pub open spec fn decision_of(
    is_stateful: bool,
    max_wait_ms: u64,
    obs: PauseObservation,
    elapsed_ms: u64,
) -> Option<Result<(), ErrorKind>> {
    if obs.matched == 0 {
        Some(Err(ErrorKind::NotFound))
    } else if quiesced(is_stateful, obs) {
        Some(Ok(()))
    } else if elapsed_ms >= max_wait_ms {
        Some(Err(ErrorKind::PauseTimeout))
    } else {
        None
    }
}

/// The decision as an outcome: `None` to keep waiting.
pub open spec fn decision_view(d: PauseDecision) -> Option<Result<(), ErrorKind>> {
    match d {
        PauseDecision::Done => Some(Ok(())),
        PauseDecision::Wait => None,
        PauseDecision::Fail(e) => Some(Err(e.kind)),
    }
}

impl PauseServiceAction {
    /// The pause of the workload matching `selector`, with a wait budget of `max_wait_ms`.
    pub fn new(selector: String, is_stateful: bool, max_wait_ms: u64, event_details: EventDetails) -> (r:
        PauseServiceAction)
        ensures
            r.selector == selector,
            r.is_stateful == is_stateful,
            r.max_wait_ms == max_wait_ms,
            r.event_details == event_details,
    {
        PauseServiceAction { selector, is_stateful, max_wait_ms, event_details }
    }

    /// Whether the observed workload has quiesced.
    pub fn is_quiesced(&self, obs: PauseObservation) -> (r: bool)
        ensures
            r == quiesced(self.is_stateful, obs),
    {
        obs.replicas == 0 && (!self.is_stateful || obs.storage_detached)
    }

    /// Decides, after a poll made `elapsed_ms` after the scale command, whether
    /// the pause has succeeded, failed, or must keep waiting.
    pub fn decide(&self, obs: PauseObservation, elapsed_ms: u64) -> (r: PauseDecision)
        ensures
            decision_view(r) == decision_of(self.is_stateful, self.max_wait_ms, obs, elapsed_ms),
            r is Fail ==> r->Fail_0.message@ == self.selector@ && r->Fail_0.objects@.len() == 0,
    {
        if obs.matched == 0 {
            PauseDecision::Fail(EngineError::new(ErrorKind::NotFound, self.selector.clone()))
        } else if self.is_quiesced(obs) {
            PauseDecision::Done
        } else if elapsed_ms >= self.max_wait_ms {
            PauseDecision::Fail(EngineError::new(ErrorKind::PauseTimeout, self.selector.clone()))
        } else {
            PauseDecision::Wait
        }
    }
}

/// The first decision that ends a run of polls, with the index of the poll it
/// came at; `None` if every poll said to keep waiting.
pub open spec fn run_outcome(
    is_stateful: bool,
    max_wait_ms: u64,
    polls: Seq<(PauseObservation, u64)>,
) -> Option<(int, Result<(), ErrorKind>)>
    decreases polls.len(),
{
    if polls.len() == 0 {
        None
    } else {
        match decision_of(is_stateful, max_wait_ms, polls[0].0, polls[0].1) {
            Some(o) => Some((0, o)),
            None => match run_outcome(is_stateful, max_wait_ms, polls.drop_first()) {
                Some((i, o)) => Some((i + 1, o)),
                None => None,
            },
        }
    }
}

/// A pause against a cluster that quiesces within the wait budget succeeds;
/// against one that never quiesces, it fails with a timeout at the first poll
/// made once the budget has elapsed, and not before.
pub proof fn lemma_pause_convergence(
    is_stateful: bool,
    max_wait_ms: u64,
    polls: Seq<(PauseObservation, u64)>,
    k: int,
)
    requires
        0 <= k < polls.len(),
        forall|i: int| 0 <= i < polls.len() ==> (#[trigger] polls[i]).0.matched > 0,
        forall|i: int| 0 <= i < k ==> !quiesced(is_stateful, (#[trigger] polls[i]).0),
        forall|i: int| 0 <= i < k ==> (#[trigger] polls[i]).1 < max_wait_ms,
    ensures
        quiesced(is_stateful, polls[k].0) ==> run_outcome(is_stateful, max_wait_ms, polls) == Some(
            (k, Ok::<(), ErrorKind>(())),
        ),
        !quiesced(is_stateful, polls[k].0) && polls[k].1 >= max_wait_ms ==> run_outcome(
            is_stateful,
            max_wait_ms,
            polls,
        ) == Some((k, Err::<(), ErrorKind>(ErrorKind::PauseTimeout))),
    decreases k,
{
    if k > 0 {
        let rest = polls.drop_first();
        assert(!quiesced(is_stateful, polls[0].0));
        assert(polls[0].1 < max_wait_ms);
        assert forall|i: int| 0 <= i < rest.len() implies (#[trigger] rest[i]).0.matched > 0 by {
            assert(rest[i] == polls[i + 1]);
        }
        assert forall|i: int| 0 <= i < k - 1 implies !quiesced(is_stateful, (#[trigger] rest[i]).0) by {
            assert(rest[i] == polls[i + 1]);
        }
        assert forall|i: int| 0 <= i < k - 1 implies (#[trigger] rest[i]).1 < max_wait_ms by {
            assert(rest[i] == polls[i + 1]);
        }
        lemma_pause_convergence(is_stateful, max_wait_ms, rest, k - 1);
        assert(rest[k - 1] == polls[k]);
    }
}

} // verus!
