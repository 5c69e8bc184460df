use deploy_engine::{
    Action, Command, EngineError, EnvironmentStep, ErrorKind, ListingError, Phase, ReportEvent, ServiceState, StepKind, ToolReport,
    Transition, Workload, PAUSE_WAIT_BUDGET_MS,
};

fn workload_w(is_stateful: bool) -> Workload {
    Workload {
        name: "w".to_string(),
        release_name: "release-w".to_string(),
        selector: "app=w".to_string(),
        chart_dir: "/charts/w".to_string(),
        workspace_dir: "/tmp/w".to_string(),
        is_stateful,
    }
}

fn context_of_w() -> tera::Context {
    let mut ctx = tera::Context::new();
    ctx.insert("name", "w");
    ctx
}

fn count_started(events: &[ReportEvent]) -> usize {
    events.iter().filter(|e| matches!(e, ReportEvent::Started(_))).count()
}

fn count_terminal(events: &[ReportEvent]) -> usize {
    events
        .iter()
        .filter(|e| matches!(e, ReportEvent::Succeeded(_) | ReportEvent::Failed(_, _)))
        .count()
}

fn finish_result(cmd: Command) -> Result<(), EngineError> {
    match cmd {
        Command::Finish(r) => r,
        _ => panic!("the transition should have finished"),
    }
}

/// Drives a creation up to the chart apply, returning the chart to apply.
fn create_until_apply(t: &mut Transition) -> deploy_engine::ChartDeployment {
    assert!(matches!(t.begin(), Command::RenderContext));
    match t.on_context(Ok(context_of_w())) {
        Command::ApplyChart(c) => c,
        _ => panic!("the chart should be applied after rendering"),
    }
}

#[test]
fn create_succeeds_with_no_pending_service() {
    let mut t = Transition::new(workload_w(false), "env".to_string(), Action::Create);
    let chart = create_until_apply(&mut t);
    assert_eq!(chart.release_name, "release-w");
    assert_eq!(chart.chart_path, "/charts/w");
    assert_eq!(chart.workspace_path, "/tmp/w");
    assert_eq!(chart.selector, Some("app=w".to_string()));
    assert!(chart.context.contains_key("name"));
    match t.on_chart_applied(&chart, ToolReport::Succeeded) {
        Command::ListPending { namespace, selector, event_details } => {
            assert_eq!(namespace, "env");
            assert_eq!(selector, "app=w");
            assert_eq!(event_details.step, EnvironmentStep::Deploy);
            assert_eq!(event_details.action, Action::Create);
            assert_eq!(event_details.workload, "w");
        }
        _ => panic!("pending services should be listed after the apply"),
    }
    let cmd = t.on_pending_listed(Ok(Vec::new()));
    assert_eq!(finish_result(cmd), Ok(()));
    assert_eq!(t.phase, Phase::Done);
    assert_eq!(t.reporter.workload, "w");
    assert_eq!(
        t.reporter.events,
        vec![ReportEvent::Started(Action::Create), ReportEvent::Succeeded(Action::Create)]
    );
    assert_eq!(
        t.invoked,
        vec![StepKind::RenderContext, StepKind::ApplyChart, StepKind::ListPending]
    );
}

#[test]
fn pause_times_out_on_a_cluster_that_never_drains() {
    let mut t = Transition::new(workload_w(false), "env".to_string(), Action::Pause);
    let pause = match t.begin() {
        Command::Pause(p) => p,
        _ => panic!("a pause should be asked for"),
    };
    assert_eq!(pause.max_wait_ms, PAUSE_WAIT_BUDGET_MS);
    assert_eq!(pause.selector, "app=w");
    assert_eq!(pause.event_details.step, EnvironmentStep::Pause);
    assert_eq!(t.reporter.workload, "w");
    assert!(!pause.is_stateful);
    let short = deploy_engine::PauseServiceAction::new(
        pause.selector.clone(),
        pause.is_stateful,
        2000,
        pause.event_details.duplicate(),
    );
    let obs = deploy_engine::PauseObservation { matched: 1, replicas: 3, storage_detached: false };
    assert!(matches!(short.decide(obs, 0), deploy_engine::PauseDecision::Wait));
    assert!(matches!(short.decide(obs, 1999), deploy_engine::PauseDecision::Wait));
    let err = match short.decide(obs, 2000) {
        deploy_engine::PauseDecision::Fail(e) => e,
        _ => panic!("the pause should time out once the budget has elapsed"),
    };
    assert_eq!(err.kind, ErrorKind::PauseTimeout);
    let cmd = t.on_paused(Err(err.duplicate()));
    assert_eq!(finish_result(cmd), Err(err.duplicate()));
    assert_eq!(
        t.reporter.events,
        vec![ReportEvent::Started(Action::Pause), ReportEvent::Failed(Action::Pause, err)]
    );
}

#[test]
fn delete_of_a_release_never_created_succeeds() {
    let mut t = Transition::new(workload_w(false), "env".to_string(), Action::Delete);
    let chart = match t.begin() {
        Command::RemoveChart(c) => c,
        _ => panic!("the release should be removed"),
    };
    assert_eq!(chart.release_name, "release-w");
    assert_eq!(chart.context, tera::Context::new());
    let cmd = t.on_chart_removed(&chart, ToolReport::ReleaseNotFound);
    assert_eq!(finish_result(cmd), Ok(()));
    assert_eq!(
        t.reporter.events,
        vec![ReportEvent::Started(Action::Delete), ReportEvent::Succeeded(Action::Delete)]
    );
}

#[test]
fn context_failure_stops_before_apply() {
    let mut t = Transition::new(workload_w(false), "env".to_string(), Action::Create);
    assert!(matches!(t.begin(), Command::RenderContext));
    let cmd = t.on_context(Err("no database url".to_string()));
    let err = finish_result(cmd).unwrap_err();
    assert_eq!(err.kind, ErrorKind::ContextRender);
    assert_eq!(err.message, "no database url");
    assert_eq!(t.invoked, vec![StepKind::RenderContext]);
    assert_eq!(count_started(&t.reporter.events), 1);
    assert_eq!(count_terminal(&t.reporter.events), 1);
}

#[test]
fn apply_failure_reports_once_and_skips_cleanup() {
    let mut t = Transition::new(workload_w(false), "env".to_string(), Action::Create);
    let chart = create_until_apply(&mut t);
    let cmd = t.on_chart_applied(&chart, ToolReport::Failed("rollout timed out".to_string()));
    let err = finish_result(cmd).unwrap_err();
    assert_eq!(err.kind, ErrorKind::ChartApply);
    assert_eq!(err.message, "rollout timed out");
    assert!(!t.applied);
    assert!(!t.invoked.contains(&StepKind::ListPending));
    assert_eq!(count_started(&t.reporter.events), 1);
    assert_eq!(count_terminal(&t.reporter.events), 1);
}

#[test]
fn apply_errors_keep_their_kind() {
    let mut t = Transition::new(workload_w(false), "env".to_string(), Action::Create);
    let chart = create_until_apply(&mut t);
    let cmd = t.on_chart_applied(&chart, ToolReport::RenderFailed("bad template".to_string()));
    assert_eq!(finish_result(cmd).unwrap_err().kind, ErrorKind::ChartRender);

    let mut t = Transition::new(workload_w(false), "env".to_string(), Action::Create);
    let chart = create_until_apply(&mut t);
    let cmd = t.on_chart_applied(&chart, ToolReport::Unreachable("no route".to_string()));
    assert_eq!(finish_result(cmd).unwrap_err().kind, ErrorKind::Connectivity);
}

#[test]
fn cleanup_failure_at_last_step_lists_objects() {
    let mut t = Transition::new(workload_w(false), "env".to_string(), Action::Create);
    let chart = create_until_apply(&mut t);
    assert!(matches!(
        t.on_chart_applied(&chart, ToolReport::Succeeded),
        Command::ListPending { .. }
    ));
    let services = vec![
        ServiceState { name: "lb-a".to_string(), ready: false },
        ServiceState { name: "lb-b".to_string(), ready: true },
        ServiceState { name: "lb-c".to_string(), ready: false },
    ];
    match t.on_pending_listed(Ok(services)) {
        Command::DeletePending { namespace, names, event_details } => {
            assert_eq!(namespace, "env");
            assert_eq!(event_details.step, EnvironmentStep::Deploy);
            assert_eq!(names, vec!["lb-a".to_string(), "lb-c".to_string()]);
        }
        _ => panic!("pending services should be deleted"),
    }
    assert_eq!(t.phase, Phase::DeletingPending);
    let cmd = t.on_pending_deleted(vec!["lb-c".to_string()]);
    let err = finish_result(cmd).unwrap_err();
    assert_eq!(err.kind, ErrorKind::Cleanup);
    assert_eq!(err.objects, vec!["lb-c".to_string()]);
    assert_eq!(err.message, deploy_engine::cleanup::CLEANUP_FAILED);
    assert_eq!(
        t.invoked,
        vec![
            StepKind::RenderContext,
            StepKind::ApplyChart,
            StepKind::ListPending,
            StepKind::DeletePending
        ]
    );
    assert_eq!(count_started(&t.reporter.events), 1);
    assert_eq!(count_terminal(&t.reporter.events), 1);
}

#[test]
fn cleanup_of_every_pending_object_succeeds() {
    let mut t = Transition::new(workload_w(false), "env".to_string(), Action::Create);
    let chart = create_until_apply(&mut t);
    t.on_chart_applied(&chart, ToolReport::Succeeded);
    let services = vec![ServiceState { name: "lb-a".to_string(), ready: false }];
    assert!(matches!(t.on_pending_listed(Ok(services)), Command::DeletePending { .. }));
    assert_eq!(finish_result(t.on_pending_deleted(Vec::new())), Ok(()));
    assert_eq!(t.reporter.events[1], ReportEvent::Succeeded(Action::Create));
}

#[test]
fn remove_failure_is_reported() {
    let mut t = Transition::new(workload_w(true), "env".to_string(), Action::Delete);
    let chart = match t.begin() {
        Command::RemoveChart(c) => c,
        _ => panic!("the release should be removed"),
    };
    let cmd = t.on_chart_removed(&chart, ToolReport::Failed("uninstall hook failed".to_string()));
    let err = finish_result(cmd).unwrap_err();
    assert_eq!(err.kind, ErrorKind::ChartRemove);
    assert_eq!(
        t.reporter.events,
        vec![ReportEvent::Started(Action::Delete), ReportEvent::Failed(Action::Delete, err)]
    );
}

#[test]
fn failed_listing_ends_the_creation_with_its_error() {
    let mut t = Transition::new(workload_w(false), "env".to_string(), Action::Create);
    let chart = create_until_apply(&mut t);
    t.on_chart_applied(&chart, ToolReport::Succeeded);
    let cmd = t.on_pending_listed(Err(ListingError::Unreachable("api down".to_string())));
    let err = finish_result(cmd).unwrap_err();
    assert_eq!(err.kind, ErrorKind::Connectivity);
    assert_eq!(err.message, "api down");
    assert_eq!(
        t.invoked,
        vec![StepKind::RenderContext, StepKind::ApplyChart, StepKind::ListPending]
    );
    assert_eq!(
        t.reporter.events,
        vec![ReportEvent::Started(Action::Create), ReportEvent::Failed(Action::Create, err)]
    );

    let mut t = Transition::new(workload_w(false), "env".to_string(), Action::Create);
    let chart = create_until_apply(&mut t);
    t.on_chart_applied(&chart, ToolReport::Succeeded);
    let cmd = t.on_pending_listed(Err(ListingError::Failed("forbidden".to_string())));
    assert_eq!(finish_result(cmd).unwrap_err().kind, ErrorKind::Cleanup);
}
