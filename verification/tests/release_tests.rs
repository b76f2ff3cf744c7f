use orchestrator::errors::ReleaseError;
use orchestrator::release_iso::{
    expected_assets, plan_repos, release_order, Action, AssetOutcome, Event, GitCmd, Orchestrator,
    Phase,
};
use orchestrator::version::normalize;

fn machine(dry_run: bool, resume: bool) -> Orchestrator {
    let rv = normalize("2.0.0").unwrap();
    let repos = plan_repos("acme", "/srv/repos");
    Orchestrator::new(dry_run, resume, rv, repos)
}

/// A canned collaborator for tests: answers every query as a healthy,
/// clean, untagged set of repositories (or as configured).
struct Sim {
    dir_exists: bool,
    origin_url_ok: bool,
    fetch_ok: bool,
    remote_tagged: bool,
    dirty: Vec<String>,
    detached: bool,
    local_head: String,
    remote_head: String,
    local_tag: Option<String>,
    token: bool,
    asset_outcome_ready: bool,
}

impl Sim {
    fn healthy() -> Sim {
        Sim {
            dir_exists: true,
            origin_url_ok: true,
            fetch_ok: true,
            remote_tagged: false,
            dirty: vec![],
            detached: false,
            local_head: "abc123".to_string(),
            remote_head: "abc123".to_string(),
            local_tag: None,
            token: true,
            asset_outcome_ready: true,
        }
    }

    fn respond(&self, names: &[String], action: &Action) -> Event {
        match action {
            Action::CheckDir { .. } => Event::Dir { exists: self.dir_exists },
            Action::ReadToken => Event::Token { present: self.token },
            Action::AnnounceTag { .. } | Action::AnnounceAssetWait { .. } => Event::Ack,
            Action::WaitAssets { .. } => Event::Assets {
                outcome: if self.asset_outcome_ready {
                    AssetOutcome::Ready
                } else {
                    AssetOutcome::TimedOut {
                        missing: vec!["missing.bin".to_string()],
                        waited_ms: 1_900_000,
                        timeout_ms: 1_800_000,
                    }
                },
            },
            Action::Git { repo, cmd } => match cmd {
                GitCmd::RemoteUrl => {
                    let url = if self.origin_url_ok {
                        format!("git@github.com:ACME/{}.git", names[*repo])
                    } else {
                        format!("https://github.com/somebody-else/{}.git", names[*repo])
                    };
                    Event::Git { code: 0, stdout: url, stderr: String::new() }
                }
                GitCmd::FetchTags => {
                    if self.fetch_ok {
                        Event::Git { code: 0, stdout: String::new(), stderr: String::new() }
                    } else {
                        Event::Git { code: 1, stdout: String::new(), stderr: "no route".into() }
                    }
                }
                GitCmd::RemoteTagProbe { tag } => {
                    let out = if self.remote_tagged {
                        format!("deadbeef\trefs/tags/{}^{{}}", tag)
                    } else {
                        String::new()
                    };
                    Event::Git { code: 0, stdout: out, stderr: String::new() }
                }
                GitCmd::StatusPorcelain => Event::Status { dirty_paths: self.dirty.clone() },
                GitCmd::SymbolicRef => {
                    if self.detached {
                        Event::Git { code: 1, stdout: String::new(), stderr: String::new() }
                    } else {
                        Event::Git { code: 0, stdout: "main".into(), stderr: String::new() }
                    }
                }
                GitCmd::RevParseHead => Event::Git {
                    code: 0,
                    stdout: self.local_head.clone(),
                    stderr: String::new(),
                },
                GitCmd::RevParseRemote { .. } => Event::Git {
                    code: 0,
                    stdout: self.remote_head.clone(),
                    stderr: String::new(),
                },
                GitCmd::DivergedCounts { .. } => Event::Counts { ahead: 2, behind: 1 },
                GitCmd::VerifyLocalTag { .. } => match &self.local_tag {
                    Some(_) => Event::Git { code: 0, stdout: String::new(), stderr: String::new() },
                    None => Event::Git { code: 1, stdout: String::new(), stderr: String::new() },
                },
                GitCmd::LocalTagCommit { .. } => Event::Git {
                    code: 0,
                    stdout: self.local_tag.clone().unwrap_or_default(),
                    stderr: String::new(),
                },
                GitCmd::TagList { .. } => match &self.local_tag {
                    Some(tag) => Event::Git { code: 0, stdout: tag.clone(), stderr: String::new() },
                    None => Event::Git { code: 0, stdout: String::new(), stderr: String::new() },
                },
                GitCmd::RemoteTagExitProbe { .. } => {
                    let code = if self.remote_tagged { 0 } else { 2 };
                    Event::Git { code, stdout: String::new(), stderr: String::new() }
                }
                GitCmd::CreateTag { .. } => {
                    Event::Git { code: 0, stdout: String::new(), stderr: String::new() }
                }
                GitCmd::PushTag { .. } => {
                    Event::Git { code: 0, stdout: String::new(), stderr: String::new() }
                }
            },
        }
    }
}

fn drive(orch: &mut Orchestrator, sim: &Sim, limit: usize) -> Vec<Action> {
    let names: Vec<String> = release_order();
    let mut log = Vec::new();
    for _ in 0..limit {
        let action = match orch.next_action() {
            None => break,
            Some(a) => a,
        };
        let ev = sim.respond(&names, &action);
        log.push(action);
        orch.step(ev);
    }
    log
}

fn is_mutating(a: &Action) -> bool {
    matches!(
        a,
        Action::Git { cmd: GitCmd::CreateTag { .. }, .. }
            | Action::Git { cmd: GitCmd::PushTag { .. }, .. }
    )
}

#[test]
fn dry_run_succeeds_without_any_mutation() {
    let mut orch = machine(true, false);
    let sim = Sim { token: false, ..Sim::healthy() };
    let log = drive(&mut orch, &sim, 1000);
    assert!(matches!(orch.phase, Phase::Done));
    assert!(log.iter().all(|a| !is_mutating(a)));
    assert!(!log.iter().any(|a| matches!(a, Action::WaitAssets { .. })));
}

#[test]
fn dry_run_narration_names_every_expected_asset() {
    let mut orch = machine(true, false);
    let log = drive(&mut orch, &Sim::healthy(), 1000);
    assert!(matches!(orch.phase, Phase::Done));
    let names = release_order();
    for (i, name) in names.iter().enumerate() {
        let expected = expected_assets(name, "2.0.0");
        if expected.is_empty() {
            continue;
        }
        let announced = log.iter().find_map(|a| match a {
            Action::AnnounceAssetWait { repo, names } if *repo == i => Some(names.clone()),
            _ => None,
        });
        assert_eq!(announced.as_deref(), Some(&expected[..]), "repo {}", name);
    }
}

#[test]
fn live_run_creates_and_pushes_once_per_repo_after_full_preflight() {
    let mut orch = machine(false, false);
    let log = drive(&mut orch, &Sim::healthy(), 1000);
    assert!(matches!(orch.phase, Phase::Done));
    let n = release_order().len();
    for i in 0..n {
        let creates = log
            .iter()
            .filter(|a| {
                matches!(a, Action::Git { repo, cmd: GitCmd::CreateTag { .. } } if *repo == i)
            })
            .count();
        let pushes = log
            .iter()
            .filter(|a| {
                matches!(a, Action::Git { repo, cmd: GitCmd::PushTag { .. } } if *repo == i)
            })
            .count();
        assert_eq!(creates, 1);
        assert_eq!(pushes, 1);
    }
    // Ordering: every preflight query precedes the first mutation.
    let first_mutation = log.iter().position(is_mutating).unwrap();
    let last_preflight_probe = log
        .iter()
        .rposition(|a| matches!(a, Action::Git { cmd: GitCmd::RemoteTagProbe { .. }, .. }))
        .unwrap();
    assert!(last_preflight_probe < first_mutation);
    let token = log.iter().position(|a| matches!(a, Action::ReadToken)).unwrap();
    assert!(token < first_mutation);
}

#[test]
fn preflight_failure_on_a_later_repo_leaves_every_repo_unmutated() {
    let mut orch = machine(false, false);
    // Healthy until the third repository's status query reports a dirty
    // worktree; everything stops there.
    let names = release_order();
    let mut log = Vec::new();
    let healthy = Sim::healthy();
    for _ in 0..1000 {
        let action = match orch.next_action() {
            None => break,
            Some(a) => a,
        };
        let ev = match &action {
            Action::Git { repo, cmd: GitCmd::StatusPorcelain } if *repo == 2 => {
                Event::Status { dirty_paths: vec!["src/lib.rs".to_string()] }
            }
            other => healthy.respond(&names, other),
        };
        log.push(action);
        orch.step(ev);
    }
    match &orch.phase {
        Phase::Failed { err: ReleaseError::DirtyWorktree { repo, paths } } => {
            assert_eq!(repo, "truthdb");
            assert_eq!(paths, &vec!["src/lib.rs".to_string()]);
        }
        other => panic!("expected DirtyWorktree, got {:?}", other),
    }
    assert!(log.iter().all(|a| !is_mutating(a)));
}

#[test]
fn resume_against_fully_tagged_remote_is_idempotent() {
    let mut orch = machine(false, true);
    let sim = Sim { remote_tagged: true, ..Sim::healthy() };
    let log = drive(&mut orch, &sim, 1000);
    assert!(matches!(orch.phase, Phase::Done));
    assert!(log.iter().all(|a| !is_mutating(a)));
    // It still waited for every repository's assets.
    let waits = log.iter().filter(|a| matches!(a, Action::WaitAssets { .. })).count();
    assert_eq!(waits, release_order().len());
}

#[test]
fn non_resume_run_fails_when_remote_already_tagged() {
    let mut orch = machine(false, false);
    let sim = Sim { remote_tagged: true, ..Sim::healthy() };
    let log = drive(&mut orch, &sim, 1000);
    match &orch.phase {
        Phase::Failed { err: ReleaseError::TagAlreadyReleased { repo } } => {
            assert_eq!(repo, "installer-kernel");
        }
        other => panic!("expected TagAlreadyReleased, got {:?}", other),
    }
    assert!(log.iter().all(|a| !is_mutating(a)));
}

#[test]
fn missing_directory_is_fatal() {
    let mut orch = machine(false, false);
    let sim = Sim { dir_exists: false, ..Sim::healthy() };
    drive(&mut orch, &sim, 1000);
    assert!(matches!(
        orch.phase,
        Phase::Failed { err: ReleaseError::MissingDirectory { .. } }
    ));
}

#[test]
fn origin_mismatch_is_fatal() {
    let mut orch = machine(false, false);
    let sim = Sim { origin_url_ok: false, ..Sim::healthy() };
    drive(&mut orch, &sim, 1000);
    match &orch.phase {
        Phase::Failed { err: ReleaseError::OriginMismatch { repo, url } } => {
            assert_eq!(repo, "installer-kernel");
            assert!(url.contains("somebody-else"));
        }
        other => panic!("expected OriginMismatch, got {:?}", other),
    }
}

#[test]
fn fetch_failure_is_fatal() {
    let mut orch = machine(false, false);
    let sim = Sim { fetch_ok: false, ..Sim::healthy() };
    drive(&mut orch, &sim, 1000);
    match &orch.phase {
        Phase::Failed { err: ReleaseError::FetchFailed { detail, .. } } => {
            assert_eq!(detail, "no route");
        }
        other => panic!("expected FetchFailed, got {:?}", other),
    }
}

#[test]
fn detached_head_is_fatal() {
    let mut orch = machine(false, false);
    let sim = Sim { detached: true, ..Sim::healthy() };
    drive(&mut orch, &sim, 1000);
    assert!(matches!(
        orch.phase,
        Phase::Failed { err: ReleaseError::DetachedHead { .. } }
    ));
}

#[test]
fn diverged_branch_is_fatal_with_counts() {
    let mut orch = machine(false, false);
    let sim = Sim { remote_head: "fff000".to_string(), ..Sim::healthy() };
    drive(&mut orch, &sim, 1000);
    match &orch.phase {
        Phase::Failed {
            err: ReleaseError::BranchDiverged { local_sha, remote_sha, ahead, behind, .. },
        } => {
            assert_eq!(local_sha, "abc123");
            assert_eq!(remote_sha, "fff000");
            assert_eq!(*ahead, 2);
            assert_eq!(*behind, 1);
        }
        other => panic!("expected BranchDiverged, got {:?}", other),
    }
}

#[test]
fn stale_local_tag_blocks_a_non_resume_run() {
    let mut orch = machine(false, false);
    let sim = Sim { local_tag: Some("v2.0.0".to_string()), ..Sim::healthy() };
    drive(&mut orch, &sim, 1000);
    assert!(matches!(
        orch.phase,
        Phase::Failed { err: ReleaseError::TagAlreadyExists { .. } }
    ));
}

#[test]
fn resume_accepts_local_tag_at_head_and_skips_create() {
    let mut orch = machine(false, true);
    // The local tag points at HEAD: preflight passes, apply pushes
    // without re-creating the tag.
    let sim = Sim { local_tag: Some("abc123".to_string()), ..Sim::healthy() };
    let log = drive(&mut orch, &sim, 1000);
    assert!(matches!(orch.phase, Phase::Done));
    assert!(!log
        .iter()
        .any(|a| matches!(a, Action::Git { cmd: GitCmd::CreateTag { .. }, .. })));
    let pushes = log
        .iter()
        .filter(|a| matches!(a, Action::Git { cmd: GitCmd::PushTag { .. }, .. }))
        .count();
    assert_eq!(pushes, release_order().len());
}

#[test]
fn resume_rejects_local_tag_not_at_head() {
    let mut orch = machine(false, true);
    let sim = Sim { local_tag: Some("0ldc0mmit".to_string()), ..Sim::healthy() };
    drive(&mut orch, &sim, 1000);
    match &orch.phase {
        Phase::Failed { err: ReleaseError::TagConflict { existing_sha, head_sha, .. } } => {
            assert_eq!(existing_sha, "0ldc0mmit");
            assert_eq!(head_sha, "abc123");
        }
        other => panic!("expected TagConflict, got {:?}", other),
    }
}

#[test]
fn live_run_without_credential_is_fatal() {
    let mut orch = machine(false, false);
    let sim = Sim { token: false, ..Sim::healthy() };
    drive(&mut orch, &sim, 1000);
    assert!(matches!(orch.phase, Phase::Failed { err: ReleaseError::MissingToken }));
}

#[test]
fn asset_wait_timeout_is_fatal_with_missing_names() {
    let mut orch = machine(false, false);
    let sim = Sim { asset_outcome_ready: false, ..Sim::healthy() };
    drive(&mut orch, &sim, 1000);
    match &orch.phase {
        Phase::Failed {
            err: ReleaseError::AssetWaitTimeout { repo, missing, waited_ms, timeout_ms },
        } => {
            assert_eq!(repo, "installer-kernel");
            assert_eq!(missing, &vec!["missing.bin".to_string()]);
            assert_eq!(*waited_ms, 1_900_000);
            assert_eq!(*timeout_ms, 1_800_000);
        }
        other => panic!("expected AssetWaitTimeout, got {:?}", other),
    }
}

#[test]
fn api_failure_during_asset_wait_is_fatal() {
    let mut orch = machine(false, false);
    let names = release_order();
    let healthy = Sim::healthy();
    for _ in 0..1000 {
        let action = match orch.next_action() {
            None => break,
            Some(a) => a,
        };
        let ev = match &action {
            Action::WaitAssets { .. } => Event::Assets {
                outcome: AssetOutcome::Failed { detail: "status 500".to_string() },
            },
            other => healthy.respond(&names, other),
        };
        orch.step(ev);
    }
    match &orch.phase {
        Phase::Failed { err: ReleaseError::ApiError { detail, .. } } => {
            assert_eq!(detail, "status 500");
        }
        other => panic!("expected ApiError, got {:?}", other),
    }
}

#[test]
fn invalid_version_fails_before_any_machine_exists() {
    assert!(matches!(
        normalize("vv2.0.0"),
        Err(ReleaseError::InvalidVersion { .. })
    ));
}

#[test]
fn command_failure_is_fatal() {
    let mut orch = machine(false, false);
    let names = release_order();
    let healthy = Sim::healthy();
    for _ in 0..1000 {
        let action = match orch.next_action() {
            None => break,
            Some(a) => a,
        };
        let ev = match &action {
            Action::Git { cmd: GitCmd::RemoteTagProbe { .. }, .. } => Event::Git {
                code: 128,
                stdout: String::new(),
                stderr: "fatal: not a git repository".to_string(),
            },
            other => healthy.respond(&names, other),
        };
        orch.step(ev);
    }
    match &orch.phase {
        Phase::Failed { err: ReleaseError::CommandFailed { detail, .. } } => {
            assert_eq!(detail, "fatal: not a git repository");
        }
        other => panic!("expected CommandFailed, got {:?}", other),
    }
}

#[test]
fn mismatched_events_change_nothing() {
    let mut orch = machine(false, false);
    // The first pending action is the directory check; a token event is
    // not its answer and must be ignored.
    orch.step(Event::Token { present: true });
    assert!(matches!(
        orch.next_action(),
        Some(Action::CheckDir { repo: 0 })
    ));
}

#[test]
fn no_repositories_means_nothing_to_do() {
    let rv = normalize("1.0.0").unwrap();
    let mut orch = Orchestrator::new(false, false, rv, vec![]);
    assert!(matches!(orch.next_action(), Some(Action::ReadToken)));
    orch.step(Event::Token { present: true });
    assert!(matches!(orch.phase, Phase::Done));
}
