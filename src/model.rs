use vstd::prelude::*;

verus! {

/// The lifecycle transition in progress.
#[derive(Clone, Copy, Debug, PartialEq, Eq, Structural)]
pub enum Action {
    Create,
    Pause,
    Delete,
}

/// The stage of the environment pipeline an event originates from.
#[derive(Clone, Copy, Debug, PartialEq, Eq, Structural)]
pub enum EnvironmentStep {
    Deploy,
    Pause,
    Delete,
}

/// The pipeline stage that frames each transition.
pub open spec fn step_of(action: Action) -> EnvironmentStep {
    match action {
        Action::Create => EnvironmentStep::Deploy,
        Action::Pause => EnvironmentStep::Pause,
        Action::Delete => EnvironmentStep::Delete,
    }
}

/// Correlates every event of one transition: stage, transition kind and workload.
#[derive(Debug)]
pub struct EventDetails {
    pub step: EnvironmentStep,
    pub action: Action,
    pub workload: String,
}

impl EventDetails {
    /// The details of `action` on the workload called `workload`.
    pub fn new(action: Action, workload: &String) -> (r: EventDetails)
        ensures
            r.step == step_of(action),
            r.action == action,
            r.workload@ == workload@,
    {
        let step = match action {
            Action::Create => EnvironmentStep::Deploy,
            Action::Pause => EnvironmentStep::Pause,
            Action::Delete => EnvironmentStep::Delete,
        };
        EventDetails { step, action, workload: workload.clone() }
    }

    /// A copy with the same stage, transition and workload.
    pub fn duplicate(&self) -> (r: EventDetails)
        ensures
            r.step == self.step,
            r.action == self.action,
            r.workload@ == self.workload@,
    {
        EventDetails { step: self.step, action: self.action, workload: self.workload.clone() }
    }
}

/// The kinds of failure a transition can end with.
#[derive(Clone, Copy, Debug, PartialEq, Eq, Structural)]
pub enum ErrorKind {
    /// The templating context could not be produced.
    ContextRender,
    /// The chart could not be rendered.
    ChartRender,
    /// The cluster refused or did not converge on the applied chart.
    ChartApply,
    /// The release could not be uninstalled.
    ChartRemove,
    /// The workload did not quiesce within the wait budget.
    PauseTimeout,
    /// No cluster resource matches the workload's selector.
    NotFound,
    /// Some pending network-exposure objects could not be deleted.
    Cleanup,
    /// The cluster could not be reached.
    Connectivity,
}

/// A typed failure with its human-readable cause and, for a cleanup
/// failure, the objects that could not be deleted.
#[derive(Debug, PartialEq, Eq)]
pub struct EngineError {
    pub kind: ErrorKind,
    pub message: String,
    pub objects: Vec<String>,
}

impl EngineError {
    /// An error of `kind` caused by `message`, naming no object.
    pub fn new(kind: ErrorKind, message: String) -> (r: EngineError)
        ensures
            r.kind == kind,
            r.message == message,
            r.objects@ == Seq::<String>::empty(),
    {
        EngineError { kind, message, objects: Vec::new() }
    }

    /// A copy of this error, field for field.
    pub fn duplicate(&self) -> (r: EngineError)
        ensures
            same_error(r, *self),
    {
        let mut objects: Vec<String> = Vec::new();
        let mut i: usize = 0;
        while i < self.objects.len()
            invariant
                i <= self.objects.len(),
                objects@ == self.objects@.take(i as int),
            decreases self.objects.len() - i,
        {
            objects.push(self.objects[i].clone());
            assert(objects@ =~= self.objects@.take(i as int + 1));
            i = i + 1;
        }
        assert(self.objects@.take(i as int) =~= self.objects@);
        EngineError { kind: self.kind, message: self.message.clone(), objects }
    }
}

/// Two errors agree in kind, cause and listed objects.
pub open spec fn same_error(a: EngineError, b: EngineError) -> bool {
    a.kind == b.kind && a.message@ == b.message@ && a.objects@ == b.objects@
}

/// The unit being deployed, as the orchestration core reads it.
#[derive(Debug)]
pub struct Workload {
    pub name: String,
    pub release_name: String,
    pub selector: String,
    pub chart_dir: String,
    pub workspace_dir: String,
    pub is_stateful: bool,
}

} // verus!
