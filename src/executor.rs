use vstd::prelude::*;

use crate::model::{same_error, Action, EngineError};

verus! {

/// What the deployment reporter is told of a transition.
#[derive(Debug, PartialEq, Eq)]
pub enum ReportEvent {
    Started(Action),
    Succeeded(Action),
    Failed(Action, EngineError),
}

/// `ev` is the terminal event that reports `result` for `action`.
pub open spec fn reports_result(ev: ReportEvent, action: Action, result: Result<(), EngineError>) -> bool {
    match (ev, result) {
        (ReportEvent::Succeeded(a), Ok(())) => a == action,
        (ReportEvent::Failed(a, e), Err(f)) => a == action && same_error(e, f),
        _ => false,
    }
}

/// `ev` ends a transition.
pub open spec fn is_terminal(ev: ReportEvent) -> bool {
    ev is Succeeded || ev is Failed
}

/// Turns one lifecycle transition into an observed unit of work: the reporter
/// hears that it started, then exactly once how it ended.
#[derive(Debug)]
pub struct LongDeployment {
    pub action: Action,
    pub workload: String,
    /// The events handed to the reporter, in order.
    pub events: Vec<ReportEvent>,
}

impl LongDeployment {
    /// Nothing reported yet.
    pub open spec fn is_idle(&self) -> bool {
        self.events@.len() == 0
    }

    /// Started, and not yet ended.
    pub open spec fn is_running(&self) -> bool {
        self.events@ == seq![ReportEvent::Started(self.action)]
    }

    /// Started, then ended with `result`.
    pub open spec fn has_finished_with(&self, result: Result<(), EngineError>) -> bool {
        &&& self.events@.len() == 2
        &&& self.events@[0] == ReportEvent::Started(self.action)
        &&& reports_result(self.events@[1], self.action, result)
    }

    /// Started, then ended.
    pub open spec fn is_finished(&self) -> bool {
        &&& self.events@.len() == 2
        &&& self.events@[0] == ReportEvent::Started(self.action)
        &&& is_terminal(self.events@[1])
        &&& self.events@[1] is Succeeded ==> self.events@[1]->Succeeded_0 == self.action
        &&& self.events@[1] is Failed ==> self.events@[1]->Failed_0 == self.action
    }

    /// The executor of `action` on the workload called `workload`.
    pub fn new(action: Action, workload: String) -> (r: LongDeployment)
        ensures
            r.action == action,
            r.workload == workload,
            r.is_idle(),
    {
        LongDeployment { action, workload, events: Vec::new() }
    }

    /// Tells the reporter that the transition has started.
    pub fn start(&mut self)
        requires
            old(self).is_idle(),
        ensures
            final(self).action == old(self).action,
            final(self).workload == old(self).workload,
            final(self).is_running(),
    {
        self.events.push(ReportEvent::Started(self.action));
        assert(self.events@ =~= seq![ReportEvent::Started(self.action)]);
    }

    /// Tells the reporter how the transition ended and hands the same result
    /// back to the caller.
    pub fn finish(&mut self, result: Result<(), EngineError>) -> (r: Result<(), EngineError>)
        requires
            old(self).is_running(),
        ensures
            r == result,
            final(self).action == old(self).action,
            final(self).workload == old(self).workload,
            final(self).has_finished_with(result),
            final(self).is_finished(),
    {
        let ev = match &result {
            Ok(()) => ReportEvent::Succeeded(self.action),
            Err(e) => ReportEvent::Failed(self.action, e.duplicate()),
        };
        self.events.push(ev);
        result
    }
}

/// How many events of `s` announce a start.
pub open spec fn count_started(s: Seq<ReportEvent>) -> nat
    decreases s.len(),
{
    if s.len() == 0 {
        0
    } else {
        count_started(s.drop_last()) + if s.last() is Started { 1nat } else { 0nat }
    }
}

/// How many events of `s` end a transition.
pub open spec fn count_terminal(s: Seq<ReportEvent>) -> nat
    decreases s.len(),
{
    if s.len() == 0 {
        0
    } else {
        count_terminal(s.drop_last()) + if is_terminal(s.last()) { 1nat } else { 0nat }
    }
}

/// Whatever the outcome of the operation it wraps, a finished executor has
/// reported exactly one start, first, and exactly one terminal event, last.
pub proof fn lemma_single_terminal(d: LongDeployment)
    requires
        d.is_finished(),
    ensures
        count_started(d.events@) == 1,
        count_terminal(d.events@) == 1,
        d.events@.first() is Started,
        is_terminal(d.events@.last()),
{
    let s = d.events@;
    assert(s.drop_last().drop_last() =~= Seq::<ReportEvent>::empty());
    assert(s.drop_last().last() == s[0]);
    assert(count_started(s.drop_last().drop_last()) == 0);
    assert(count_started(s.drop_last()) == 1);
    assert(count_terminal(s.drop_last().drop_last()) == 0);
    assert(count_terminal(s.drop_last()) == 0);
}

} // verus!
