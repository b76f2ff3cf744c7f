//! The fleet monitor's decision layer: the fixed repository list it
//! watches, the placeholder rows of the first paint, the mapping from a
//! CI run's status and conclusion to a row state, and the in-place row
//! refresh.
//!
//! The continuous polling loop — the hosting-service calls, the sliced
//! sleeps and the shutdown flag — is I/O and lives outside the library;
//! it feeds each repository's query results through these functions and
//! publishes the row set after every single repository, so progress is
//! visible incrementally.

use vstd::prelude::*;

use crate::github::WorkflowRun;
use crate::text::str_eq;
use crate::tui::{ActionState, RepoStatusRow};

verus! {

use vstd::pervasive::VecAdditionalExecFns;
use vstd::string::StringExecFns;

/// The operator-facing parameters of the fleet monitor. The poll interval
/// is in milliseconds.
#[derive(Clone, Debug)]
pub struct MonitorArgs {
    pub owner: String,
    pub poll_interval_ms: u64,
}

/// The fixed, statically declared repository list the monitor watches.
pub open spec fn spec_monitor_repos() -> Seq<Seq<char>> {
    seq![
        ".github"@,
        "docs"@,
        "installer"@,
        "installer-iso"@,
        "installer-kernel"@,
        "installer-kernel-builder-image"@,
        "orchestrator"@,
        "truthdb"@,
        "truthdb-cli"@,
        "truthdb-net"@,
        "truthdb-proto"@,
        "website"@,
    ]
}

/// The monitored repository names, as an owned list.
pub fn monitor_repos() -> (r: Vec<String>)
    ensures
        r.deep_view() == spec_monitor_repos(),
{
    let mut v: Vec<String> = Vec::new();
    v.push(String::from_str(".github"));
    v.push(String::from_str("docs"));
    v.push(String::from_str("installer"));
    v.push(String::from_str("installer-iso"));
    v.push(String::from_str("installer-kernel"));
    v.push(String::from_str("installer-kernel-builder-image"));
    v.push(String::from_str("orchestrator"));
    v.push(String::from_str("truthdb"));
    v.push(String::from_str("truthdb-cli"));
    v.push(String::from_str("truthdb-net"));
    v.push(String::from_str("truthdb-proto"));
    v.push(String::from_str("website"));
    proof {
        assert(v.deep_view() =~= spec_monitor_repos());
    }
    v
}

/// The initial paint: every monitored repository listed at once, loading,
/// with nothing known yet.
pub fn placeholder_rows() -> (r: Vec<RepoStatusRow>)
    ensures
        r@.len() == spec_monitor_repos().len(),
        forall|i: int|
            0 <= i < r@.len() ==> (#[trigger] r@[i]).name@ == spec_monitor_repos()[i]
                && r@[i].action is Unknown && r@[i].latest_release is None && r@[i].ahead_by
                is None && r@[i].loading,
{
    let names = monitor_repos();
    let n = names.len();
    let mut rows: Vec<RepoStatusRow> = Vec::new();
    let mut i: usize = 0;
    while i < n
        invariant
            0 <= i <= n,
            n == names@.len(),
            names.deep_view() == spec_monitor_repos(),
            rows@.len() == i,
            forall|j: int|
                0 <= j < i ==> (#[trigger] rows@[j]).name@ == spec_monitor_repos()[j]
                    && rows@[j].action is Unknown && rows@[j].latest_release is None
                    && rows@[j].ahead_by is None && rows@[j].loading,
        decreases n - i,
    {
        proof {
            assert(names@[i as int]@ == names.deep_view()[i as int]);
        }
        rows.push(
            RepoStatusRow {
                name: names[i].clone(),
                action: ActionState::Unknown,
                latest_release: None,
                ahead_by: None,
                loading: true,
            },
        );
        i = i + 1;
    }
    rows
}

/// The row state a CI run listing denotes: a completed run maps by its
/// conclusion (success; failure, cancelled or timed out; anything else
/// unknown), an uncompleted run is running, and no run at all is unknown.
pub open spec fn spec_classify_run(run: Option<WorkflowRun>) -> ActionState {
    match run {
        Some(w) => if w.status@ == "completed"@ {
            match w.conclusion {
                Some(c) => if c@ == "success"@ {
                    ActionState::Success
                } else if c@ == "failure"@ || c@ == "cancelled"@ || c@ == "timed_out"@ {
                    ActionState::Failure
                } else {
                    ActionState::Unknown
                },
                None => ActionState::Unknown,
            }
        } else {
            ActionState::Running
        },
        None => ActionState::Unknown,
    }
}

pub fn classify_run(run: &Option<WorkflowRun>) -> (r: ActionState)
    ensures
        r == spec_classify_run(*run),
{
    match run {
        Some(w) => {
            if str_eq(w.status.as_str(), "completed") {
                match &w.conclusion {
                    Some(c) => {
                        if str_eq(c.as_str(), "success") {
                            ActionState::Success
                        } else if str_eq(c.as_str(), "failure") || str_eq(c.as_str(), "cancelled")
                            || str_eq(c.as_str(), "timed_out") {
                            ActionState::Failure
                        } else {
                            ActionState::Unknown
                        }
                    },
                    None => ActionState::Unknown,
                }
            } else {
                ActionState::Running
            }
        },
        None => ActionState::Unknown,
    }
}

/// Set every row's loading flag, keeping everything else, so existing
/// values stay visible between refreshes.
pub fn set_all_loading(rows: &mut Vec<RepoStatusRow>, loading: bool)
    ensures
        final(rows)@.len() == old(rows)@.len(),
        forall|i: int|
            0 <= i < final(rows)@.len() ==> (#[trigger] final(rows)@[i]).name == old(rows)@[i].name
                && final(rows)@[i].action == old(rows)@[i].action && final(rows)@[i].latest_release
                == old(rows)@[i].latest_release && final(rows)@[i].ahead_by
                == old(rows)@[i].ahead_by && final(rows)@[i].loading == loading,
{
    let n = rows.len();
    let mut i: usize = 0;
    while i < n
        invariant
            0 <= i <= n,
            n == rows@.len(),
            rows@.len() == old(rows)@.len(),
            forall|j: int|
                i <= j < rows@.len() ==> (#[trigger] rows@[j]) == old(rows)@[j],
            forall|j: int|
                0 <= j < i ==> (#[trigger] rows@[j]).name == old(rows)@[j].name && rows@[j].action
                    == old(rows)@[j].action && rows@[j].latest_release
                    == old(rows)@[j].latest_release && rows@[j].ahead_by == old(rows)@[j].ahead_by
                    && rows@[j].loading == loading,
        decreases n - i,
    {
        let row = RepoStatusRow {
            name: rows[i].name.clone(),
            action: rows[i].action,
            latest_release: rows[i].latest_release.clone(),
            ahead_by: rows[i].ahead_by,
            loading,
        };
        rows.set(i, row);
        i = i + 1;
    }
}

/// Write one repository's freshly queried results into its row, clearing
/// its loading flag; the other rows are untouched.
pub fn update_row(
    rows: &mut Vec<RepoStatusRow>,
    i: usize,
    action: ActionState,
    latest_release: Option<String>,
    ahead_by: Option<u32>,
)
    requires
        i < old(rows)@.len(),
    ensures
        final(rows)@.len() == old(rows)@.len(),
        final(rows)@[i as int].name == old(rows)@[i as int].name,
        final(rows)@[i as int].action == action,
        final(rows)@[i as int].latest_release == latest_release,
        final(rows)@[i as int].ahead_by == ahead_by,
        !final(rows)@[i as int].loading,
        forall|j: int|
            0 <= j < old(rows)@.len() && j != i ==> (#[trigger] final(rows)@[j]) == old(rows)@[j],
{
    let row = RepoStatusRow {
        name: rows[i].name.clone(),
        action,
        latest_release,
        ahead_by,
        loading: false,
    };
    rows.set(i, row);
}

} // verus!
