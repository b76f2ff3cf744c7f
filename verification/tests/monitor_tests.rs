use orchestrator::github::WorkflowRun;
use orchestrator::monitor::{
    classify_run, monitor_repos, placeholder_rows, set_all_loading, update_row, MonitorArgs,
};
use orchestrator::tui::ActionState;

fn run(status: &str, conclusion: Option<&str>) -> Option<WorkflowRun> {
    Some(WorkflowRun {
        status: status.to_string(),
        conclusion: conclusion.map(|c| c.to_string()),
    })
}

#[test]
fn completed_runs_map_by_conclusion() {
    assert_eq!(classify_run(&run("completed", Some("success"))), ActionState::Success);
    assert_eq!(classify_run(&run("completed", Some("failure"))), ActionState::Failure);
    assert_eq!(classify_run(&run("completed", Some("cancelled"))), ActionState::Failure);
    assert_eq!(classify_run(&run("completed", Some("timed_out"))), ActionState::Failure);
    assert_eq!(classify_run(&run("completed", Some("skipped"))), ActionState::Unknown);
    assert_eq!(classify_run(&run("completed", None)), ActionState::Unknown);
}

#[test]
fn uncompleted_runs_are_running_and_absence_is_unknown() {
    assert_eq!(classify_run(&run("in_progress", None)), ActionState::Running);
    assert_eq!(classify_run(&run("queued", Some("success"))), ActionState::Running);
    assert_eq!(classify_run(&None), ActionState::Unknown);
}

#[test]
fn placeholder_rows_cover_every_monitored_repo() {
    let rows = placeholder_rows();
    let names = monitor_repos();
    assert_eq!(rows.len(), names.len());
    assert_eq!(rows.len(), 12);
    for (row, name) in rows.iter().zip(names.iter()) {
        assert_eq!(&row.name, name);
        assert_eq!(row.action, ActionState::Unknown);
        assert!(row.latest_release.is_none());
        assert!(row.ahead_by.is_none());
        assert!(row.loading);
    }
}

#[test]
fn update_row_fills_one_repo_and_clears_loading() {
    let mut rows = placeholder_rows();
    update_row(
        &mut rows,
        2,
        ActionState::Success,
        Some("v1.4.0".to_string()),
        Some(5),
    );
    assert_eq!(rows[2].name, "installer");
    assert_eq!(rows[2].action, ActionState::Success);
    assert_eq!(rows[2].latest_release.as_deref(), Some("v1.4.0"));
    assert_eq!(rows[2].ahead_by, Some(5));
    assert!(!rows[2].loading);
    // The neighbours are untouched.
    assert!(rows[1].loading);
    assert!(rows[3].loading);
    assert_eq!(rows[3].action, ActionState::Unknown);
}

#[test]
fn set_all_loading_keeps_values_visible() {
    let mut rows = placeholder_rows();
    update_row(&mut rows, 0, ActionState::Failure, None, Some(0));
    set_all_loading(&mut rows, true);
    assert!(rows.iter().all(|r| r.loading));
    assert_eq!(rows[0].action, ActionState::Failure);
    assert_eq!(rows[0].ahead_by, Some(0));
    set_all_loading(&mut rows, false);
    assert!(rows.iter().all(|r| !r.loading));
}

#[test]
fn monitor_args_carry_owner_and_interval() {
    let args = MonitorArgs { owner: "acme".to_string(), poll_interval_ms: 30_000 };
    assert_eq!(args.owner, "acme");
    assert_eq!(args.poll_interval_ms, 30_000);
}
