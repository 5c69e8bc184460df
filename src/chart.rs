use vstd::prelude::*;

use crate::model::{EngineError, ErrorKind, EventDetails};

verus! {

#[verifier::external_type_specification]
#[verifier::external_body]
pub struct ExContext(tera::Context);

/// The keys that a templating context holds.
pub uninterp spec fn context_keys(c: tera::Context) -> Set<Seq<char>>;

/// Relies on tera::Context::new: a context holding no key.
pub assume_specification[ tera::Context::new ]() -> (r: tera::Context)
    ensures
        context_keys(r) == Set::<Seq<char>>::empty(),
;

/// What the packaging tool reported for an install, upgrade or uninstall.
#[derive(Debug)]
pub enum ToolReport {
    /// The tool exited successfully.
    Succeeded,
    /// Templating the chart failed.
    RenderFailed(String),
    /// The cluster could not be reached.
    Unreachable(String),
    /// The named release is not installed.
    ReleaseNotFound,
    /// Any other failure, with the tool's diagnostics.
    Failed(String),
}

/// The outcome of applying a release, given what the tool reported.
pub open spec fn apply_outcome(report: ToolReport) -> Result<(), ErrorKind> {
    match report {
        ToolReport::Succeeded => Ok(()),
        ToolReport::RenderFailed(_) => Err(ErrorKind::ChartRender),
        ToolReport::Unreachable(_) => Err(ErrorKind::Connectivity),
        ToolReport::ReleaseNotFound => Err(ErrorKind::ChartApply),
        ToolReport::Failed(_) => Err(ErrorKind::ChartApply),
    }
}

/// The outcome of removing a release, given what the tool reported: a
/// release that is not installed is already removed.
pub open spec fn remove_outcome(report: ToolReport) -> Result<(), ErrorKind> {
    match report {
        ToolReport::Succeeded => Ok(()),
        ToolReport::ReleaseNotFound => Ok(()),
        ToolReport::Unreachable(_) => Err(ErrorKind::Connectivity),
        ToolReport::RenderFailed(_) => Err(ErrorKind::ChartRemove),
        ToolReport::Failed(_) => Err(ErrorKind::ChartRemove),
    }
}

/// The diagnostics a report carries, empty where it carries none.
pub open spec fn report_message(report: ToolReport) -> Seq<char> {
    match report {
        ToolReport::RenderFailed(m) => m@,
        ToolReport::Unreachable(m) => m@,
        ToolReport::Failed(m) => m@,
        _ => Seq::empty(),
    }
}

/// A `Result` of the library matches an outcome over error kinds.
pub open spec fn result_matches(r: Result<(), EngineError>, o: Result<(), ErrorKind>) -> bool {
    match (r, o) {
        (Ok(()), Ok(())) => true,
        (Err(e), Err(k)) => e.kind == k,
        _ => false,
    }
}

/// One templated release to apply to or remove from the cluster.
pub struct ChartDeployment {
    pub release_name: String,
    pub context: tera::Context,
    pub chart_path: String,
    pub workspace_path: String,
    pub event_details: EventDetails,
    /// Scopes the ownership check of the release's resources.
    pub selector: Option<String>,
}

/// The error for a failed report, carrying the tool's diagnostics.
fn report_error(kind: ErrorKind, report: ToolReport) -> (r: EngineError)
    ensures
        r.kind == kind,
        r.message@ == report_message(report),
        r.objects@.len() == 0,
{
    let message = match report {
        ToolReport::RenderFailed(m) => m,
        ToolReport::Unreachable(m) => m,
        ToolReport::Failed(m) => m,
        _ => String::new(),
    };
    EngineError::new(kind, message)
}

impl ChartDeployment {
    /// The deployment of `release_name` from `chart_path`, rendered with `context`.
    pub fn new(
        release_name: String,
        context: tera::Context,
        chart_path: String,
        workspace_path: String,
        event_details: EventDetails,
        selector: Option<String>,
    ) -> (r: ChartDeployment)
        ensures
            r.release_name == release_name,
            r.context == context,
            r.chart_path == chart_path,
            r.workspace_path == workspace_path,
            r.event_details == event_details,
            r.selector == selector,
    {
        ChartDeployment { release_name, context, chart_path, workspace_path, event_details, selector }
    }

    /// The result of an install or upgrade of the release.
    pub fn apply_result(&self, report: ToolReport) -> (r: Result<(), EngineError>)
        ensures
            result_matches(r, apply_outcome(report)),
            r is Err ==> r->Err_0.message@ == report_message(report),
    {
        match report {
            ToolReport::Succeeded => Ok(()),
            ToolReport::RenderFailed(_) => Err(report_error(ErrorKind::ChartRender, report)),
            ToolReport::Unreachable(_) => Err(report_error(ErrorKind::Connectivity, report)),
            _ => Err(report_error(ErrorKind::ChartApply, report)),
        }
    }

    /// The result of an uninstall of the release; removing a release that is
    /// not installed succeeds.
    pub fn remove_result(&self, report: ToolReport) -> (r: Result<(), EngineError>)
        ensures
            result_matches(r, remove_outcome(report)),
            r is Err ==> r->Err_0.message@ == report_message(report),
    {
        match report {
            ToolReport::Succeeded => Ok(()),
            ToolReport::ReleaseNotFound => Ok(()),
            ToolReport::Unreachable(_) => Err(report_error(ErrorKind::Connectivity, report)),
            _ => Err(report_error(ErrorKind::ChartRemove, report)),
        }
    }
}

/// Removing a release twice in succession succeeds both times: a first
/// removal succeeds only where the tool uninstalled the release or found it
/// absent, either way leaving it absent, and the tool's report of an absent
/// release is itself a successful removal, so the second call changes nothing.
pub proof fn lemma_remove_idempotent(first: ToolReport)
    requires
        remove_outcome(first) is Ok,
    ensures
        first is Succeeded || first is ReleaseNotFound,
        remove_outcome(ToolReport::ReleaseNotFound) == Ok::<(), ErrorKind>(()),
{
}

} // verus!
