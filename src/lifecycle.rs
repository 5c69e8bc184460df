use vstd::prelude::*;

use crate::chart::{apply_outcome, context_keys, remove_outcome, result_matches, ChartDeployment, ToolReport};
use crate::cleanup::{
    cleanup_result, listing_error, CLEANUP_FAILED, listing_error_kind, listing_error_message, names_view,
    pending_names, pending_services, ListingError, ServiceState,
};
use crate::executor::{count_started, count_terminal, lemma_single_terminal, LongDeployment, ReportEvent};
use crate::model::{step_of, Action, EngineError, EnvironmentStep, ErrorKind, EventDetails, Workload};
use crate::pause::{PauseServiceAction, PAUSE_WAIT_BUDGET_MS};

verus! {

/// Where a transition stands.
#[derive(Clone, Copy, Debug, PartialEq, Eq, Structural)]
pub enum Phase {
    Idle,
    Rendering,
    Applying,
    ListingPending,
    DeletingPending,
    Pausing,
    Removing,
    Done,
}

/// A component invoked by a transition.
#[derive(Clone, Copy, Debug, PartialEq, Eq, Structural)]
pub enum StepKind {
    RenderContext,
    ApplyChart,
    ListPending,
    DeletePending,
    Pause,
    RemoveChart,
}

/// The work a transition asks its caller to perform next.
pub enum Command {
    /// Produce the templating context of the workload for the target.
    RenderContext,
    /// Install or upgrade the release.
    ApplyChart(ChartDeployment),
    /// List the workload's network-exposure objects in the namespace.
    ListPending { namespace: String, selector: String, event_details: EventDetails },
    /// Delete these pending objects from the namespace.
    DeletePending { namespace: String, names: Vec<String>, event_details: EventDetails },
    /// Scale the workload down and wait until it has quiesced.
    Pause(PauseServiceAction),
    /// Uninstall the release.
    RemoveChart(ChartDeployment),
    /// The transition is over, with this result.
    Finish(Result<(), EngineError>),
}

/// `c` deploys the release of `w` for `action`.
pub open spec fn chart_for(c: ChartDeployment, w: Workload, action: Action) -> bool {
    &&& c.release_name == w.release_name
    &&& c.chart_path == w.chart_dir
    &&& c.workspace_path == w.workspace_dir
    &&& c.selector == Some(w.selector)
    &&& c.event_details.action == action
    &&& c.event_details.step == step_of(action)
    &&& c.event_details.workload@ == w.name@
}

/// `d` frames an event of the creation of `w`.
pub open spec fn creation_details(d: EventDetails, w: Workload) -> bool {
    &&& d.action == Action::Create
    &&& d.step == EnvironmentStep::Deploy
    &&& d.workload@ == w.name@
}

/// `p` pauses `w` within the fixed wait budget.
pub open spec fn pause_for(p: PauseServiceAction, w: Workload) -> bool {
    &&& p.selector == w.selector
    &&& p.is_stateful == w.is_stateful
    &&& p.max_wait_ms == PAUSE_WAIT_BUDGET_MS
    &&& p.event_details.action == Action::Pause
    &&& p.event_details.step == step_of(Action::Pause)
    &&& p.event_details.workload@ == w.name@
}

/// `cmd` ends the transition with the outcome `o`.
pub open spec fn finishes_with(cmd: Command, o: Result<(), ErrorKind>) -> bool {
    cmd is Finish && result_matches(cmd->Finish_0, o)
}

/// The components a finished creation may have invoked, with the way it ended.
pub open spec fn create_history(invoked: Seq<StepKind>, applied: bool, last: ReportEvent) -> bool {
    ||| invoked == seq![StepKind::RenderContext] && !applied && last is Failed
        && last->Failed_1.kind == ErrorKind::ContextRender
    ||| invoked == seq![StepKind::RenderContext, StepKind::ApplyChart] && !applied && last is Failed
        && last->Failed_1.kind != ErrorKind::ContextRender
    ||| invoked == seq![StepKind::RenderContext, StepKind::ApplyChart, StepKind::ListPending]
        && applied && (last is Succeeded || (last is Failed && last->Failed_1.kind
        != ErrorKind::ContextRender))
    ||| invoked == seq![
        StepKind::RenderContext,
        StepKind::ApplyChart,
        StepKind::ListPending,
        StepKind::DeletePending,
    ] && applied && (last is Succeeded || (last is Failed && last->Failed_1.kind
        == ErrorKind::Cleanup))
}

/// One create, pause or delete of a workload, driven step by step.
pub struct Transition {
    pub workload: Workload,
    pub namespace: String,
    pub action: Action,
    pub phase: Phase,
    /// Whether the chart apply of this transition has succeeded.
    pub applied: bool,
    /// The components invoked so far, in order.
    pub invoked: Vec<StepKind>,
    pub reporter: LongDeployment,
}

impl Transition {
    /// The phase agrees with the components invoked and the events reported.
    pub open spec fn wf(&self) -> bool {
        &&& self.reporter.action == self.action
        &&& self.reporter.workload@ == self.workload.name@
        &&& match self.phase {
            Phase::Idle => self.reporter.is_idle() && self.invoked@.len() == 0 && !self.applied,
            Phase::Rendering => self.action == Action::Create && self.reporter.is_running()
                && self.invoked@ == seq![StepKind::RenderContext] && !self.applied,
            Phase::Applying => self.action == Action::Create && self.reporter.is_running()
                && self.invoked@ == seq![StepKind::RenderContext, StepKind::ApplyChart]
                && !self.applied,
            Phase::ListingPending => self.action == Action::Create && self.reporter.is_running()
                && self.invoked@ == seq![
                StepKind::RenderContext,
                StepKind::ApplyChart,
                StepKind::ListPending,
            ] && self.applied,
            Phase::DeletingPending => self.action == Action::Create && self.reporter.is_running()
                && self.invoked@ == seq![
                StepKind::RenderContext,
                StepKind::ApplyChart,
                StepKind::ListPending,
                StepKind::DeletePending,
            ] && self.applied,
            Phase::Pausing => self.action == Action::Pause && self.reporter.is_running()
                && self.invoked@ == seq![StepKind::Pause] && !self.applied,
            Phase::Removing => self.action == Action::Delete && self.reporter.is_running()
                && self.invoked@ == seq![StepKind::RemoveChart] && !self.applied,
            Phase::Done => self.reporter.is_finished() && match self.action {
                Action::Create => create_history(
                    self.invoked@,
                    self.applied,
                    self.reporter.events@[1],
                ),
                Action::Pause => self.invoked@ == seq![StepKind::Pause] && !self.applied,
                Action::Delete => self.invoked@ == seq![StepKind::RemoveChart] && !self.applied,
            },
        }
    }

    /// The identity of the transition is kept from `old` to `self`.
    pub open spec fn same_subject(&self, old: Transition) -> bool {
        &&& self.workload == old.workload
        &&& self.namespace == old.namespace
        &&& self.action == old.action
    }

    /// A transition of `action` on `workload` within `namespace`, not yet begun.
    pub fn new(workload: Workload, namespace: String, action: Action) -> (r: Transition)
        ensures
            r.wf(),
            r.phase == Phase::Idle,
            r.reporter.workload@ == workload.name@,
            r.workload == workload,
            r.namespace == namespace,
            r.action == action,
    {
        let name = workload.name.clone();
        Transition {
            workload,
            namespace,
            action,
            phase: Phase::Idle,
            applied: false,
            invoked: Vec::new(),
            reporter: LongDeployment::new(action, name),
        }
    }

    /// Reports the result, ends the transition and hands the result back.
    fn conclude(&mut self, result: Result<(), EngineError>) -> (cmd: Command)
        requires
            old(self).reporter.is_running(),
        ensures
            cmd == Command::Finish(result),
            final(self).phase == Phase::Done,
            final(self).reporter.action == old(self).reporter.action,
            final(self).reporter.workload == old(self).reporter.workload,
            final(self).reporter.has_finished_with(result),
            final(self).reporter.is_finished(),
            final(self).same_subject(*old(self)),
            final(self).invoked == old(self).invoked,
            final(self).applied == old(self).applied,
    {
        let r = self.reporter.finish(result);
        self.phase = Phase::Done;
        Command::Finish(r)
    }

    /// Reports the start and asks for the first step of the transition.
    pub fn begin(&mut self) -> (cmd: Command)
        requires
            old(self).wf(),
            old(self).phase == Phase::Idle,
        ensures
            final(self).wf(),
            final(self).same_subject(*old(self)),
            final(self).reporter.is_running(),
            old(self).action == Action::Create ==> cmd is RenderContext && final(self).phase
                == Phase::Rendering,
            old(self).action == Action::Pause ==> cmd is Pause && pause_for(
                cmd->Pause_0,
                old(self).workload,
            ) && final(self).phase == Phase::Pausing,
            old(self).action == Action::Delete ==> cmd is RemoveChart && chart_for(
                cmd->RemoveChart_0,
                old(self).workload,
                Action::Delete,
            ) && context_keys(cmd->RemoveChart_0.context).is_empty() && final(self).phase
                == Phase::Removing,
    {
        self.reporter.start();
        match self.action {
            Action::Create => {
                self.invoked.push(StepKind::RenderContext);
                assert(self.invoked@ =~= seq![StepKind::RenderContext]);
                self.phase = Phase::Rendering;
                Command::RenderContext
            },
            Action::Pause => {
                self.invoked.push(StepKind::Pause);
                assert(self.invoked@ =~= seq![StepKind::Pause]);
                self.phase = Phase::Pausing;
                let p = PauseServiceAction::new(
                    self.workload.selector.clone(),
                    self.workload.is_stateful,
                    PAUSE_WAIT_BUDGET_MS,
                    EventDetails::new(Action::Pause, &self.workload.name),
                );
                Command::Pause(p)
            },
            Action::Delete => {
                self.invoked.push(StepKind::RemoveChart);
                assert(self.invoked@ =~= seq![StepKind::RemoveChart]);
                self.phase = Phase::Removing;
                let c = ChartDeployment::new(
                    self.workload.release_name.clone(),
                    tera::Context::new(),
                    self.workload.chart_dir.clone(),
                    self.workload.workspace_dir.clone(),
                    EventDetails::new(Action::Delete, &self.workload.name),
                    Some(self.workload.selector.clone()),
                );
                Command::RemoveChart(c)
            },
        }
    }

    /// Takes the templating context: applies the release rendered with it, or,
    /// where it could not be produced, ends the creation before any cluster
    /// mutation.
    pub fn on_context(&mut self, rendered: Result<tera::Context, String>) -> (cmd: Command)
        requires
            old(self).wf(),
            old(self).phase == Phase::Rendering,
        ensures
            final(self).wf(),
            final(self).same_subject(*old(self)),
            match rendered {
                Ok(ctx) => {
                    &&& cmd is ApplyChart
                    &&& cmd->ApplyChart_0.context == ctx
                    &&& chart_for(cmd->ApplyChart_0, old(self).workload, Action::Create)
                    &&& final(self).phase == Phase::Applying
                },
                Err(m) => {
                    &&& finishes_with(cmd, Err(ErrorKind::ContextRender))
                    &&& cmd->Finish_0->Err_0.message@ == m@
                    &&& final(self).reporter.has_finished_with(cmd->Finish_0)
                    &&& final(self).phase == Phase::Done
                    &&& !final(self).invoked@.contains(StepKind::ApplyChart)
                    &&& final(self).invoked == old(self).invoked
                },
            },
    {
        match rendered {
            Ok(ctx) => {
                self.invoked.push(StepKind::ApplyChart);
                assert(self.invoked@ =~= seq![StepKind::RenderContext, StepKind::ApplyChart]);
                self.phase = Phase::Applying;
                let c = ChartDeployment::new(
                    self.workload.release_name.clone(),
                    ctx,
                    self.workload.chart_dir.clone(),
                    self.workload.workspace_dir.clone(),
                    EventDetails::new(Action::Create, &self.workload.name),
                    Some(self.workload.selector.clone()),
                );
                Command::ApplyChart(c)
            },
            Err(m) => {
                let e = EngineError::new(ErrorKind::ContextRender, m);
                let cmd = self.conclude(Err(e));
                assert(!self.invoked@.contains(StepKind::ApplyChart)) by {
                    assert(self.invoked@[0] == StepKind::RenderContext);
                }
                cmd
            },
        }
    }

    /// Takes what the packaging tool reported for the apply: on success, lists
    /// the objects to clean up; otherwise ends the creation with the error.
    pub fn on_chart_applied(&mut self, chart: &ChartDeployment, report: ToolReport) -> (cmd: Command)
        requires
            old(self).wf(),
            old(self).phase == Phase::Applying,
        ensures
            final(self).wf(),
            final(self).same_subject(*old(self)),
            apply_outcome(report) is Ok ==> {
                &&& cmd is ListPending
                &&& cmd->ListPending_namespace == old(self).namespace
                &&& cmd->ListPending_selector == old(self).workload.selector
                &&& creation_details(cmd->ListPending_event_details, old(self).workload)
                &&& final(self).phase == Phase::ListingPending
                &&& final(self).applied
            },
            apply_outcome(report) is Err ==> {
                &&& finishes_with(cmd, apply_outcome(report))
                &&& final(self).reporter.has_finished_with(cmd->Finish_0)
                &&& final(self).phase == Phase::Done
                &&& !final(self).applied
                &&& final(self).invoked == old(self).invoked
            },
    {
        match chart.apply_result(report) {
            Ok(()) => {
                self.invoked.push(StepKind::ListPending);
                assert(self.invoked@ =~= seq![
                    StepKind::RenderContext,
                    StepKind::ApplyChart,
                    StepKind::ListPending,
                ]);
                self.applied = true;
                self.phase = Phase::ListingPending;
                Command::ListPending {
                    namespace: self.namespace.clone(),
                    selector: self.workload.selector.clone(),
                    event_details: EventDetails::new(Action::Create, &self.workload.name),
                }
            },
            Err(e) => self.conclude(Err(e)),
        }
    }

    /// Takes the outcome of listing the workload's objects: deletes those
    /// still pending, ends the creation successfully where none is, and ends it
    /// with the listing's error where the listing failed.
    pub fn on_pending_listed(&mut self, listed: Result<Vec<ServiceState>, ListingError>) -> (cmd: Command)
        requires
            old(self).wf(),
            old(self).phase == Phase::ListingPending,
        ensures
            final(self).wf(),
            final(self).same_subject(*old(self)),
            match listed {
                Err(f) => {
                    &&& finishes_with(cmd, Err(listing_error_kind(f)))
                    &&& cmd->Finish_0->Err_0.message@ == listing_error_message(f)
                    &&& final(self).reporter.has_finished_with(cmd->Finish_0)
                    &&& final(self).phase == Phase::Done
                    &&& final(self).invoked == old(self).invoked
                },
                Ok(services) => {
                    &&& pending_names(services@).len() == 0 ==> {
                        &&& finishes_with(cmd, Ok(()))
                        &&& final(self).reporter.has_finished_with(cmd->Finish_0)
                        &&& final(self).phase == Phase::Done
                        &&& final(self).invoked == old(self).invoked
                    }
                    &&& pending_names(services@).len() > 0 ==> {
                        &&& cmd is DeletePending
                        &&& cmd->DeletePending_namespace == old(self).namespace
                        &&& names_view(cmd->DeletePending_names@) == pending_names(services@)
                        &&& creation_details(cmd->DeletePending_event_details, old(self).workload)
                        &&& final(self).phase == Phase::DeletingPending
                    }
                },
            },
    {
        let services = match listed {
            Ok(services) => services,
            Err(f) => {
                return self.conclude(Err(listing_error(f)));
            },
        };
        let names = pending_services(&services);
        if names.len() == 0 {
            self.conclude(Ok(()))
        } else {
            self.invoked.push(StepKind::DeletePending);
            assert(self.invoked@ =~= seq![
                StepKind::RenderContext,
                StepKind::ApplyChart,
                StepKind::ListPending,
                StepKind::DeletePending,
            ]);
            self.phase = Phase::DeletingPending;
            Command::DeletePending {
                namespace: self.namespace.clone(),
                names,
                event_details: EventDetails::new(Action::Create, &self.workload.name),
            }
        }
    }

    /// Takes the pending objects whose deletion failed and ends the creation:
    /// successfully where there is none, with a cleanup error listing them otherwise.
    pub fn on_pending_deleted(&mut self, failed: Vec<String>) -> (cmd: Command)
        requires
            old(self).wf(),
            old(self).phase == Phase::DeletingPending,
        ensures
            final(self).wf(),
            final(self).same_subject(*old(self)),
            final(self).phase == Phase::Done,
            failed@.len() == 0 ==> finishes_with(cmd, Ok(())),
            failed@.len() > 0 ==> finishes_with(cmd, Err(ErrorKind::Cleanup))
                && cmd->Finish_0->Err_0.objects@ == failed@
                && cmd->Finish_0->Err_0.message@ == CLEANUP_FAILED@,
            final(self).invoked == old(self).invoked,
            cmd is Finish && final(self).reporter.has_finished_with(cmd->Finish_0),
    {
        let r = cleanup_result(failed);
        self.conclude(r)
    }

    /// Takes the result of the graceful pause and ends the transition with it.
    pub fn on_paused(&mut self, result: Result<(), EngineError>) -> (cmd: Command)
        requires
            old(self).wf(),
            old(self).phase == Phase::Pausing,
        ensures
            final(self).wf(),
            final(self).same_subject(*old(self)),
            final(self).phase == Phase::Done,
            cmd == Command::Finish(result),
            final(self).reporter.has_finished_with(result),
            final(self).invoked == old(self).invoked,
    {
        self.conclude(result)
    }

    /// Takes what the packaging tool reported for the uninstall and ends the
    /// deletion; a release that was not installed counts as removed.
    ///
    /// Persistent volume claims of the workload are not reclaimed by a
    /// deletion: their storage is left to the cluster's storage class.
    pub fn on_chart_removed(&mut self, chart: &ChartDeployment, report: ToolReport) -> (cmd: Command)
        requires
            old(self).wf(),
            old(self).phase == Phase::Removing,
        ensures
            final(self).wf(),
            final(self).same_subject(*old(self)),
            final(self).phase == Phase::Done,
            finishes_with(cmd, remove_outcome(report)),
            final(self).reporter.has_finished_with(cmd->Finish_0),
            final(self).invoked == old(self).invoked,
    {
        let r = chart.remove_result(report);
        self.conclude(r)
    }
}

/// Every transition, however far it got, reports exactly one start; it
/// reports no end while it runs and exactly one end once it is done; and
/// its events are tagged with the transition's kind and workload.
pub proof fn lemma_transition_reports_once(t: Transition)
    requires
        t.wf(),
        t.phase != Phase::Idle,
    ensures
        count_started(t.reporter.events@) == 1,
        t.phase != Phase::Done ==> count_terminal(t.reporter.events@) == 0,
        t.phase == Phase::Done ==> count_terminal(t.reporter.events@) == 1,
        t.reporter.events@[0] == ReportEvent::Started(t.action),
        t.phase == Phase::Done ==> (t.reporter.events@[1] is Succeeded
            && t.reporter.events@[1]->Succeeded_0 == t.action) || (t.reporter.events@[1] is Failed
            && t.reporter.events@[1]->Failed_0 == t.action),
        t.reporter.workload@ == t.workload.name@,
{
    let s = t.reporter.events@;
    if t.phase == Phase::Done {
        lemma_single_terminal(t.reporter);
    } else {
        assert(s.drop_last() =~= Seq::<ReportEvent>::empty());
        assert(count_started(s.drop_last()) == 0);
        assert(count_terminal(s.drop_last()) == 0);
    }
}

/// A creation asks to clean up stale objects only after its chart apply has
/// been invoked and has succeeded.
pub proof fn lemma_cleanup_after_apply(t: Transition)
    requires
        t.wf(),
    ensures
        forall|i: int|
            0 <= i < t.invoked@.len() && (t.invoked@[i] == StepKind::ListPending
                || t.invoked@[i] == StepKind::DeletePending) ==> {
                &&& t.applied
                &&& exists|j: int| 0 <= j < i && t.invoked@[j] == StepKind::ApplyChart
            },
{
    assert forall|i: int|
        0 <= i < t.invoked@.len() && (t.invoked@[i] == StepKind::ListPending
            || t.invoked@[i] == StepKind::DeletePending) implies {
            &&& t.applied
            &&& exists|j: int| 0 <= j < i && t.invoked@[j] == StepKind::ApplyChart
        } by {
        assert(t.invoked@[1] == StepKind::ApplyChart);
    }
}

/// A creation that ended because its templating context could not be
/// produced invoked nothing after the rendering: the chart apply never ran.
pub proof fn lemma_context_failure_stops(t: Transition)
    requires
        t.wf(),
        t.phase == Phase::Done,
        t.reporter.events@[1] is Failed,
        t.reporter.events@[1]->Failed_1.kind == ErrorKind::ContextRender,
    ensures
        t.action == Action::Create ==> t.invoked@ == seq![StepKind::RenderContext],
        !t.invoked@.contains(StepKind::ApplyChart),
{
    if t.action == Action::Create {
        assert(t.invoked@[0] == StepKind::RenderContext);
    } else {
        assert(t.invoked@[0] != StepKind::ApplyChart);
    }
}

} // verus!
