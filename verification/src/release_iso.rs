//! The release orchestrator: the ordered repository table, the expected
//! asset-name table, and the preflight/apply state machine that drives a
//! release run.
//!
//! The machine is pure: it holds the run's state, exposes the next action
//! the driver must perform (a directory check, one version-control
//! command, the credential lookup, a narration step, or an asset wait),
//! and consumes the action's result as a plain event. All decisions —
//! preflight ordering, the resume semantics, the two-phase mutation gate,
//! the error taxonomy — are made here and verified; performing the actions
//! is I/O and lives outside the library.

use vstd::prelude::*;

use crate::errors::ReleaseError;
use crate::git::{origin_ok, Repo};
use crate::text::{concat3, spec_first_token, str_eq};
use crate::version::ReleaseVersion;

verus! {

use vstd::pervasive::VecAdditionalExecFns;
use vstd::string::StringExecFns;

/// The fixed release order: each repository's CI depends on the tags of
/// the ones before it (bootloader, installer, core engine, auxiliary
/// crates, bootable image last).
pub open spec fn spec_release_order() -> Seq<Seq<char>> {
    seq![
        "installer-kernel"@,
        "installer"@,
        "truthdb"@,
        "truthdb-cli"@,
        "truthdb-net"@,
        "truthdb-proto"@,
        "installer-iso"@,
    ]
}

/// The ordered repository names of one release, as an owned list.
pub fn release_order() -> (r: Vec<String>)
    ensures
        r.deep_view() == spec_release_order(),
{
    let mut v: Vec<String> = Vec::new();
    v.push(String::from_str("installer-kernel"));
    v.push(String::from_str("installer"));
    v.push(String::from_str("truthdb"));
    v.push(String::from_str("truthdb-cli"));
    v.push(String::from_str("truthdb-net"));
    v.push(String::from_str("truthdb-proto"));
    v.push(String::from_str("installer-iso"));
    proof {
        assert(v.deep_view() =~= spec_release_order());
    }
    v
}

/// The static asset-name table: which artifact filenames each repository's
/// CI is expected to publish for a given version.
pub open spec fn spec_expected_assets(repo: Seq<char>, version: Seq<char>) -> Seq<Seq<char>> {
    if repo == "installer-kernel"@ {
        seq!["BOOTX64.EFI"@]
    } else if repo == "installer"@ {
        seq![
            "truthdb-installer-v"@ + version + "-x86_64-linux-musl.tar.gz"@,
            "truthdb-installer-v"@ + version + "-x86_64-linux-musl.sha256"@,
        ]
    } else if repo == "truthdb"@ {
        seq![
            "truthdb-v"@ + version + "-x86_64-linux-gnu.tar.gz"@,
            "truthdb-v"@ + version + "-x86_64-linux-gnu.sha256"@,
        ]
    } else if repo == "truthdb-cli"@ {
        seq![
            "truthdb-cli-v"@ + version + "-x86_64-linux-gnu.tar.gz"@,
            "truthdb-cli-v"@ + version + "-x86_64-linux-gnu.sha256"@,
        ]
    } else if repo == "truthdb-net"@ {
        seq![
            "truthdb-net-v"@ + version + "-x86_64-linux-gnu.tar.gz"@,
            "truthdb-net-v"@ + version + "-x86_64-linux-gnu.sha256"@,
        ]
    } else if repo == "truthdb-proto"@ {
        seq![
            "truthdb-proto-v"@ + version + "-x86_64-linux-gnu.tar.gz"@,
            "truthdb-proto-v"@ + version + "-x86_64-linux-gnu.sha256"@,
        ]
    } else if repo == "installer-iso"@ {
        seq![
            "truthdb-installer-v"@ + version + ".iso"@,
            "truthdb-installer-v"@ + version + ".iso.sha256"@,
        ]
    } else {
        Seq::empty()
    }
}

/// The artifact filenames expected of one repository at one version; empty
/// for repositories that publish no externally-polled artifact.
pub fn expected_assets(repo: &str, version: &str) -> (r: Vec<String>)
    ensures
        r.deep_view() == spec_expected_assets(repo@, version@),
{
    let mut v: Vec<String> = Vec::new();
    if str_eq(repo, "installer-kernel") {
        v.push(String::from_str("BOOTX64.EFI"));
        proof {
            assert(v.deep_view() =~= spec_expected_assets(repo@, version@));
        }
    } else if str_eq(repo, "installer") {
        v.push(concat3("truthdb-installer-v", version, "-x86_64-linux-musl.tar.gz"));
        v.push(concat3("truthdb-installer-v", version, "-x86_64-linux-musl.sha256"));
        proof {
            assert(v.deep_view() =~= spec_expected_assets(repo@, version@));
        }
    } else if str_eq(repo, "truthdb") {
        v.push(concat3("truthdb-v", version, "-x86_64-linux-gnu.tar.gz"));
        v.push(concat3("truthdb-v", version, "-x86_64-linux-gnu.sha256"));
        proof {
            assert(v.deep_view() =~= spec_expected_assets(repo@, version@));
        }
    } else if str_eq(repo, "truthdb-cli") {
        v.push(concat3("truthdb-cli-v", version, "-x86_64-linux-gnu.tar.gz"));
        v.push(concat3("truthdb-cli-v", version, "-x86_64-linux-gnu.sha256"));
        proof {
            assert(v.deep_view() =~= spec_expected_assets(repo@, version@));
        }
    } else if str_eq(repo, "truthdb-net") {
        v.push(concat3("truthdb-net-v", version, "-x86_64-linux-gnu.tar.gz"));
        v.push(concat3("truthdb-net-v", version, "-x86_64-linux-gnu.sha256"));
        proof {
            assert(v.deep_view() =~= spec_expected_assets(repo@, version@));
        }
    } else if str_eq(repo, "truthdb-proto") {
        v.push(concat3("truthdb-proto-v", version, "-x86_64-linux-gnu.tar.gz"));
        v.push(concat3("truthdb-proto-v", version, "-x86_64-linux-gnu.sha256"));
        proof {
            assert(v.deep_view() =~= spec_expected_assets(repo@, version@));
        }
    } else if str_eq(repo, "installer-iso") {
        v.push(concat3("truthdb-installer-v", version, ".iso"));
        v.push(concat3("truthdb-installer-v", version, ".iso.sha256"));
        proof {
            assert(v.deep_view() =~= spec_expected_assets(repo@, version@));
        }
    } else {
        proof {
            assert(v.deep_view() =~= spec_expected_assets(repo@, version@));
        }
    }
    v
}

/// The subdirectories whose joint presence marks a directory as the root
/// holding the release repositories.
pub open spec fn spec_root_markers() -> Seq<Seq<char>> {
    seq![
        "truthdb"@,
        "installer"@,
        "installer-kernel"@,
        "installer-iso"@,
        "truthdb-net"@,
        "truthdb-proto"@,
    ]
}

pub open spec fn spec_looks_like_repos_root(present: Seq<Seq<char>>) -> bool {
    forall|j: int|
        0 <= j < spec_root_markers().len() ==> present.contains(#[trigger] spec_root_markers()[j])
}

fn contains_str(v: &Vec<String>, name: &str) -> (r: bool)
    ensures
        r == v.deep_view().contains(name@),
{
    let n = v.len();
    let mut i: usize = 0;
    while i < n
        invariant
            0 <= i <= n,
            n == v@.len(),
            forall|j: int| 0 <= j < i ==> v.deep_view()[j] != name@,
        decreases n - i,
    {
        if str_eq(v[i].as_str(), name) {
            assert(v.deep_view()[i as int] == name@);
            return true;
        }
        assert(v.deep_view()[i as int] == v@[i as int]@);
        i = i + 1;
    }
    assert(!v.deep_view().contains(name@));
    false
}

/// Whether a directory looks like the repository root: it holds every
/// marker subdirectory. `present` lists the subdirectory names that exist.
pub fn looks_like_repos_root(present: &Vec<String>) -> (r: bool)
    ensures
        r == spec_looks_like_repos_root(present.deep_view()),
{
    let c0 = contains_str(present, "truthdb");
    let c1 = contains_str(present, "installer");
    let c2 = contains_str(present, "installer-kernel");
    let c3 = contains_str(present, "installer-iso");
    let c4 = contains_str(present, "truthdb-net");
    let c5 = contains_str(present, "truthdb-proto");
    let r = c0 && c1 && c2 && c3 && c4 && c5;
    proof {
        if r {
            assert forall|j: int|
                0 <= j < spec_root_markers().len() implies present.deep_view().contains(
                #[trigger] spec_root_markers()[j],
            ) by {
                if j == 0 {
                } else if j == 1 {
                } else if j == 2 {
                } else if j == 3 {
                } else if j == 4 {
                } else {
                }
            }
        } else {
            if !c0 {
                assert(!spec_looks_like_repos_root(present.deep_view())) by {
                    assert(spec_root_markers()[0] == "truthdb"@);
                }
            } else if !c1 {
                assert(!spec_looks_like_repos_root(present.deep_view())) by {
                    assert(spec_root_markers()[1] == "installer"@);
                }
            } else if !c2 {
                assert(!spec_looks_like_repos_root(present.deep_view())) by {
                    assert(spec_root_markers()[2] == "installer-kernel"@);
                }
            } else if !c3 {
                assert(!spec_looks_like_repos_root(present.deep_view())) by {
                    assert(spec_root_markers()[3] == "installer-iso"@);
                }
            } else if !c4 {
                assert(!spec_looks_like_repos_root(present.deep_view())) by {
                    assert(spec_root_markers()[4] == "truthdb-net"@);
                }
            } else {
                assert(!spec_looks_like_repos_root(present.deep_view())) by {
                    assert(spec_root_markers()[5] == "truthdb-proto"@);
                }
            }
        }
    }
    r
}

/// The operator-facing parameters of one release run. Durations are in
/// milliseconds.
#[derive(Clone, Debug)]
pub struct ReleaseIsoArgs {
    pub version: String,
    pub repos_root: Option<String>,
    pub owner: String,
    pub dry_run: bool,
    pub resume: bool,
    pub poll_interval_ms: u64,
    pub timeout_ms: u64,
}

/// Build the ordered repository handles under one root directory.
pub fn plan_repos(owner: &str, root: &str) -> (r: Vec<Repo>)
    ensures
        r@.len() == spec_release_order().len(),
        forall|i: int|
            0 <= i < r@.len() ==> (#[trigger] r@[i]).name@ == spec_release_order()[i] && r@[i].owner@
                == owner@ && r@[i].dir@ == root@ + seq!['/'] + spec_release_order()[i],
{
    let names = release_order();
    let n = names.len();
    let mut r: Vec<Repo> = Vec::new();
    let mut i: usize = 0;
    while i < n
        invariant
            0 <= i <= n,
            n == names@.len(),
            names.deep_view() == spec_release_order(),
            r@.len() == i,
            forall|j: int|
                0 <= j < i ==> (#[trigger] r@[j]).name@ == spec_release_order()[j] && r@[j].owner@
                    == owner@ && r@[j].dir@ == root@ + seq!['/'] + spec_release_order()[j],
        decreases n - i,
    {
        let dir = concat3(root, "/", names[i].as_str());
        proof {
            reveal_strlit("/");
            assert("/"@ =~= seq!['/']);
            assert(names@[i as int]@ == names.deep_view()[i as int]);
        }
        r.push(Repo::new(owner, names[i].as_str(), dir.as_str()));
        i = i + 1;
    }
    r
}

/// One version-control command the driver must run in a repository's
/// directory. The driver reports back the exit code and the trimmed
/// standard output and error (or, for the porcelain status and the
/// divergence count, their interpreted forms).
#[derive(Clone, Debug)]
pub enum GitCmd {
    /// `remote get-url origin`.
    RemoteUrl,
    /// `fetch --tags origin`.
    FetchTags,
    /// `ls-remote --tags origin refs/tags/<tag>^{}`.
    RemoteTagProbe { tag: String },
    /// `status --porcelain`, reported as the list of dirty paths.
    StatusPorcelain,
    /// `symbolic-ref --quiet --short HEAD`.
    SymbolicRef,
    /// `rev-parse HEAD`.
    RevParseHead,
    /// `rev-parse origin/<branch>`.
    RevParseRemote { branch: String },
    /// `rev-list --left-right --count HEAD...origin/<branch>`, reported as
    /// the two counts.
    DivergedCounts { branch: String },
    /// `rev-parse --verify <tag>`.
    VerifyLocalTag { tag: String },
    /// `rev-list -n 1 <tag>`.
    LocalTagCommit { tag: String },
    /// `tag -l <tag>`.
    TagList { tag: String },
    /// `ls-remote --exit-code --tags origin refs/tags/<tag>`.
    RemoteTagExitProbe { tag: String },
    /// `tag -a <tag> -m <message>`; the message is the fixed template.
    CreateTag { tag: String },
    /// `push origin <tag>`.
    PushTag { tag: String },
}

/// What the driver must do next.
#[derive(Clone, Debug)]
pub enum Action {
    /// Check that the repository's local directory exists.
    CheckDir { repo: usize },
    /// Run one version-control command in the repository's directory.
    Git { repo: usize, cmd: GitCmd },
    /// Look the release credential up in the environment.
    ReadToken,
    /// Narrate the tagging step of one repository (create-and-push, or a
    /// skip when the tag is already on the remote, or the dry-run form of
    /// either).
    AnnounceTag { repo: usize, already_tagged: bool, dry_run: bool },
    /// Narrate, in a dry run, the asset wait that a live run would
    /// perform, naming the expected asset filenames.
    AnnounceAssetWait { repo: usize, names: Vec<String> },
    /// Block on the asset-readiness poller for the named assets.
    WaitAssets { repo: usize, names: Vec<String> },
}

/// How an asset wait ended. A timeout carries the names still missing or
/// unstable at expiry and the elapsed wait beside the configured
/// deadline, both in milliseconds.
#[derive(Clone, Debug)]
pub enum AssetOutcome {
    Ready,
    TimedOut { missing: Vec<String>, waited_ms: u64, timeout_ms: u64 },
    Failed { detail: String },
}

/// The result of the pending action, as the driver reports it.
#[derive(Clone, Debug)]
pub enum Event {
    /// Whether the repository directory exists.
    Dir { exists: bool },
    /// A version-control command's exit code and trimmed output.
    Git { code: i32, stdout: String, stderr: String },
    /// The porcelain status, as the list of dirty paths.
    Status { dirty_paths: Vec<String> },
    /// The diverged-commit counts of HEAD versus the remote branch.
    Counts { ahead: u64, behind: u64 },
    /// Whether a release credential is present in the environment.
    Token { present: bool },
    /// How the asset wait ended.
    Assets { outcome: AssetOutcome },
    /// A narration action was performed.
    Ack,
}

/// Where preflight stands within one repository.
#[derive(Clone, Debug)]
pub enum PfStage {
    /// Awaiting the directory check.
    Dir,
    /// Awaiting the origin URL.
    Origin,
    /// Awaiting the tag fetch.
    Fetch,
    /// Awaiting the remote tag query whose answer becomes the snapshot.
    RemoteTag,
    /// Awaiting the porcelain status.
    Clean,
    /// Awaiting the current branch name.
    Branch,
    /// Awaiting the local HEAD commit.
    LocalHead { branch: String },
    /// Awaiting the remote-tracking branch's HEAD commit.
    RemoteHead { branch: String, local: String },
    /// Heads differ; awaiting the diverged-commit counts for the error.
    Diverged { branch: String, local: String, remote: String },
    /// Resume run: awaiting the local tag verify probe.
    ResumeProbe,
    /// Resume run: awaiting the local tag's commit.
    ResumeCommit,
    /// Resume run: awaiting HEAD, to compare against the local tag.
    ResumeHead { tag_commit: String },
    /// Non-resume run: awaiting the local tag listing.
    AbsentLocal,
    /// Non-resume run: awaiting the remote tag probe by exit code.
    AbsentRemote,
}

/// Where the apply phase stands within one repository.
#[derive(Clone, Debug)]
pub enum ApStage {
    /// Awaiting the narration acknowledgement of a skipped or dry-run
    /// tagging step.
    Announce { already: bool },
    /// Awaiting the local tag verify probe (a resume run may have created
    /// the tag already, or another actor may have).
    Probe,
    /// Awaiting the local tag's commit.
    Commit,
    /// Awaiting the tag creation.
    Create,
    /// Awaiting the tag push.
    Push,
    /// Dry run: awaiting the narration acknowledgement of the asset wait.
    AnnounceWait,
    /// Live run: awaiting the asset-readiness poller.
    Wait,
}

/// The run's phase: the read-only preflight pass over every repository in
/// order, the credential gate, the apply pass in the same order, and the
/// two terminal states.
#[derive(Clone, Debug)]
pub enum Phase {
    Preflight { repo: usize, stage: PfStage },
    TokenCheck,
    Apply { repo: usize, stage: ApStage },
    Done,
    Failed { err: ReleaseError },
}

/// The orchestration state machine.
///
/// `remote_tagged` is the preflight snapshot: for each repository, whether
/// the target tag already existed on the remote when preflight queried it.
/// The apply phase consults this snapshot and never re-queries — a
/// concurrent actor tagging between the phases is out of scope by design.
/// `assets` is the static expected-asset table with the version
/// substituted, fixed at construction.
#[derive(Clone, Debug)]
pub struct Orchestrator {
    pub dry_run: bool,
    pub resume: bool,
    pub rv: ReleaseVersion,
    pub repos: Vec<Repo>,
    pub assets: Vec<Vec<String>>,
    pub remote_tagged: Vec<bool>,
    pub phase: Phase,
}

/// The phase a fresh run starts in.
pub open spec fn spec_start_phase(n: int) -> Phase {
    if n == 0 {
        Phase::TokenCheck
    } else {
        Phase::Preflight { repo: 0, stage: PfStage::Dir }
    }
}

impl Orchestrator {
    /// Validity of the machine state: the snapshot and the asset table
    /// cover exactly the repositories, and any phase index is in range.
    pub open spec fn wf(self) -> bool {
        &&& self.remote_tagged@.len() == self.repos@.len()
        &&& self.assets@.len() == self.repos@.len()
        &&& match self.phase {
            Phase::Preflight { repo, stage } => repo < self.repos@.len(),
            Phase::Apply { repo, stage } => repo < self.repos@.len(),
            _ => true,
        }
    }

    /// A fresh machine over a repository list: preflight starts at the
    /// first repository, nothing is snapshotted as tagged yet, and the
    /// asset table is computed from the version once.
    pub fn new(dry_run: bool, resume: bool, rv: ReleaseVersion, repos: Vec<Repo>) -> (r:
        Orchestrator)
        ensures
            r.wf(),
            r.dry_run == dry_run,
            r.resume == resume,
            r.rv == rv,
            r.repos == repos,
            forall|i: int| 0 <= i < r.remote_tagged@.len() ==> !(#[trigger] r.remote_tagged@[i]),
            forall|i: int|
                0 <= i < r.assets@.len() ==> (#[trigger] r.assets@[i]).deep_view()
                    == spec_expected_assets(repos@[i].name@, rv.version@),
            r.phase == spec_start_phase(repos@.len() as int),
    {
        let n = repos.len();
        let mut tagged: Vec<bool> = Vec::new();
        let mut assets: Vec<Vec<String>> = Vec::new();
        let mut i: usize = 0;
        while i < n
            invariant
                0 <= i <= n,
                n == repos@.len(),
                tagged@.len() == i,
                assets@.len() == i,
                forall|j: int| 0 <= j < i ==> !(#[trigger] tagged@[j]),
                forall|j: int|
                    0 <= j < i ==> (#[trigger] assets@[j]).deep_view() == spec_expected_assets(
                        repos@[j].name@,
                        rv.version@,
                    ),
            decreases n - i,
        {
            tagged.push(false);
            assets.push(expected_assets(repos[i].name.as_str(), rv.version.as_str()));
            i = i + 1;
        }
        let phase = if n == 0 {
            Phase::TokenCheck
        } else {
            Phase::Preflight { repo: 0, stage: PfStage::Dir }
        };
        Orchestrator { dry_run, resume, rv, repos, assets, remote_tagged: tagged, phase }
    }
}

/// The fields a step never changes.
pub open spec fn keeps(pre: Orchestrator, post: Orchestrator) -> bool {
    &&& post.dry_run == pre.dry_run
    &&& post.resume == pre.resume
    &&& post.rv == pre.rv
    &&& post.repos == pre.repos
    &&& post.assets == pre.assets
}

/// A step that only moves to a new phase.
pub open spec fn moved_to(pre: Orchestrator, post: Orchestrator, ph: Phase) -> bool {
    keeps(pre, post) && post.remote_tagged@ == pre.remote_tagged@ && post.phase == ph
}

/// A step that records one repository's snapshot bit and moves on.
pub open spec fn recorded_to(
    pre: Orchestrator,
    post: Orchestrator,
    i: int,
    val: bool,
    ph: Phase,
) -> bool {
    keeps(pre, post) && post.remote_tagged@ == pre.remote_tagged@.update(i, val) && post.phase
        == ph
}

pub open spec fn pf_at(i: int, stage: PfStage) -> Phase {
    Phase::Preflight { repo: i as usize, stage }
}

pub open spec fn ap_at(i: int, stage: ApStage) -> Phase {
    Phase::Apply { repo: i as usize, stage }
}

pub open spec fn failed_with(e: ReleaseError) -> Phase {
    Phase::Failed { err: e }
}

/// After one repository's preflight: the next repository, or the
/// credential gate once every repository is done.
pub open spec fn pf_next(st: Orchestrator, i: int) -> Phase {
    if i + 1 < st.repos@.len() {
        pf_at(i + 1, PfStage::Dir)
    } else {
        Phase::TokenCheck
    }
}

/// Entering the apply phase for repository `i`: done past the end; a
/// narration-only tagging step when the run is dry or the snapshot says
/// the tag is already on the remote; the real create/push path otherwise.
pub open spec fn enter_apply(st: Orchestrator, i: int) -> Phase {
    if i >= st.repos@.len() {
        Phase::Done
    } else if st.dry_run || st.remote_tagged@[i] {
        ap_at(i, ApStage::Announce { already: st.remote_tagged@[i] })
    } else {
        ap_at(i, ApStage::Probe)
    }
}

/// After a repository's tagging step: no expected assets means the next
/// repository; otherwise a dry run narrates the wait and a live run
/// performs it.
pub open spec fn asset_phase(st: Orchestrator, i: int) -> Phase {
    if st.assets@[i]@.len() == 0 {
        enter_apply(st, i + 1)
    } else if st.dry_run {
        ap_at(i, ApStage::AnnounceWait)
    } else {
        ap_at(i, ApStage::Wait)
    }
}

/// The preflight transition relation for repository `i`.
pub open spec fn pf_rel(
    pre: Orchestrator,
    i: int,
    stage: PfStage,
    ev: Event,
    post: Orchestrator,
) -> bool {
    let name = pre.repos@[i].name;
    match stage {
        PfStage::Dir => match ev {
            Event::Dir { exists } => if exists {
                moved_to(pre, post, pf_at(i, PfStage::Origin))
            } else {
                moved_to(pre, post, failed_with(ReleaseError::MissingDirectory { repo: name }))
            },
            _ => post == pre,
        },
        PfStage::Origin => match ev {
            Event::Git { code, stdout, stderr } => if code != 0 {
                moved_to(
                    pre,
                    post,
                    failed_with(ReleaseError::CommandFailed { repo: name, detail: stderr }),
                )
            } else if origin_ok(pre.repos@[i].owner@, name@, stdout@) {
                moved_to(pre, post, pf_at(i, PfStage::Fetch))
            } else {
                moved_to(
                    pre,
                    post,
                    failed_with(ReleaseError::OriginMismatch { repo: name, url: stdout }),
                )
            },
            _ => post == pre,
        },
        PfStage::Fetch => match ev {
            Event::Git { code, stdout, stderr } => if code != 0 {
                moved_to(
                    pre,
                    post,
                    failed_with(ReleaseError::FetchFailed { repo: name, detail: stderr }),
                )
            } else {
                moved_to(pre, post, pf_at(i, PfStage::RemoteTag))
            },
            _ => post == pre,
        },
        PfStage::RemoteTag => match ev {
            Event::Git { code, stdout, stderr } => if code != 0 {
                moved_to(
                    pre,
                    post,
                    failed_with(ReleaseError::CommandFailed { repo: name, detail: stderr }),
                )
            } else {
                let present = spec_first_token(stdout@).len() > 0;
                if present {
                    if pre.resume {
                        recorded_to(pre, post, i, true, pf_next(pre, i))
                    } else {
                        recorded_to(
                            pre,
                            post,
                            i,
                            true,
                            failed_with(ReleaseError::TagAlreadyReleased { repo: name }),
                        )
                    }
                } else {
                    recorded_to(pre, post, i, false, pf_at(i, PfStage::Clean))
                }
            },
            _ => post == pre,
        },
        PfStage::Clean => match ev {
            Event::Status { dirty_paths } => if dirty_paths@.len() == 0 {
                moved_to(pre, post, pf_at(i, PfStage::Branch))
            } else {
                moved_to(
                    pre,
                    post,
                    failed_with(ReleaseError::DirtyWorktree { repo: name, paths: dirty_paths }),
                )
            },
            _ => post == pre,
        },
        PfStage::Branch => match ev {
            Event::Git { code, stdout, stderr } => if code != 0 || stdout@.len() == 0 {
                moved_to(pre, post, failed_with(ReleaseError::DetachedHead { repo: name }))
            } else {
                moved_to(pre, post, pf_at(i, PfStage::LocalHead { branch: stdout }))
            },
            _ => post == pre,
        },
        PfStage::LocalHead { branch } => match ev {
            Event::Git { code, stdout, stderr } => if code != 0 {
                moved_to(
                    pre,
                    post,
                    failed_with(ReleaseError::CommandFailed { repo: name, detail: stderr }),
                )
            } else {
                moved_to(pre, post, pf_at(i, PfStage::RemoteHead { branch, local: stdout }))
            },
            _ => post == pre,
        },
        PfStage::RemoteHead { branch, local } => match ev {
            Event::Git { code, stdout, stderr } => if code != 0 {
                moved_to(
                    pre,
                    post,
                    failed_with(ReleaseError::CommandFailed { repo: name, detail: stderr }),
                )
            } else if local@ == stdout@ {
                if pre.resume {
                    moved_to(pre, post, pf_at(i, PfStage::ResumeProbe))
                } else {
                    moved_to(pre, post, pf_at(i, PfStage::AbsentLocal))
                }
            } else {
                moved_to(
                    pre,
                    post,
                    pf_at(i, PfStage::Diverged { branch, local, remote: stdout }),
                )
            },
            _ => post == pre,
        },
        PfStage::Diverged { branch, local, remote } => match ev {
            Event::Counts { ahead, behind } => moved_to(
                pre,
                post,
                failed_with(
                    ReleaseError::BranchDiverged {
                        repo: name,
                        local_sha: local,
                        remote_sha: remote,
                        ahead,
                        behind,
                    },
                ),
            ),
            _ => post == pre,
        },
        PfStage::ResumeProbe => match ev {
            Event::Git { code, stdout, stderr } => if code != 0 {
                moved_to(pre, post, pf_next(pre, i))
            } else {
                moved_to(pre, post, pf_at(i, PfStage::ResumeCommit))
            },
            _ => post == pre,
        },
        PfStage::ResumeCommit => match ev {
            Event::Git { code, stdout, stderr } => if code != 0 {
                moved_to(
                    pre,
                    post,
                    failed_with(ReleaseError::CommandFailed { repo: name, detail: stderr }),
                )
            } else if stdout@.len() == 0 {
                moved_to(pre, post, pf_next(pre, i))
            } else {
                moved_to(pre, post, pf_at(i, PfStage::ResumeHead { tag_commit: stdout }))
            },
            _ => post == pre,
        },
        PfStage::ResumeHead { tag_commit } => match ev {
            Event::Git { code, stdout, stderr } => if code != 0 {
                moved_to(
                    pre,
                    post,
                    failed_with(ReleaseError::CommandFailed { repo: name, detail: stderr }),
                )
            } else if tag_commit@ == stdout@ {
                moved_to(pre, post, pf_next(pre, i))
            } else {
                moved_to(
                    pre,
                    post,
                    failed_with(
                        ReleaseError::TagConflict {
                            repo: name,
                            existing_sha: tag_commit,
                            head_sha: stdout,
                        },
                    ),
                )
            },
            _ => post == pre,
        },
        PfStage::AbsentLocal => match ev {
            Event::Git { code, stdout, stderr } => if code != 0 {
                moved_to(
                    pre,
                    post,
                    failed_with(ReleaseError::CommandFailed { repo: name, detail: stderr }),
                )
            } else if stdout@.len() > 0 {
                moved_to(pre, post, failed_with(ReleaseError::TagAlreadyExists { repo: name }))
            } else {
                moved_to(pre, post, pf_at(i, PfStage::AbsentRemote))
            },
            _ => post == pre,
        },
        PfStage::AbsentRemote => match ev {
            Event::Git { code, stdout, stderr } => if code == 0 {
                moved_to(pre, post, failed_with(ReleaseError::TagAlreadyExists { repo: name }))
            } else if code == 2 {
                moved_to(pre, post, pf_next(pre, i))
            } else {
                moved_to(
                    pre,
                    post,
                    failed_with(ReleaseError::CommandFailed { repo: name, detail: stderr }),
                )
            },
            _ => post == pre,
        },
    }
}

/// The apply transition relation for repository `i`.
pub open spec fn ap_rel(
    pre: Orchestrator,
    i: int,
    stage: ApStage,
    ev: Event,
    post: Orchestrator,
) -> bool {
    let name = pre.repos@[i].name;
    match stage {
        ApStage::Announce { already } => match ev {
            Event::Ack => moved_to(pre, post, asset_phase(pre, i)),
            _ => post == pre,
        },
        ApStage::Probe => match ev {
            Event::Git { code, stdout, stderr } => if code != 0 {
                moved_to(pre, post, ap_at(i, ApStage::Create))
            } else {
                moved_to(pre, post, ap_at(i, ApStage::Commit))
            },
            _ => post == pre,
        },
        ApStage::Commit => match ev {
            Event::Git { code, stdout, stderr } => if code != 0 {
                moved_to(
                    pre,
                    post,
                    failed_with(ReleaseError::CommandFailed { repo: name, detail: stderr }),
                )
            } else if stdout@.len() == 0 {
                moved_to(pre, post, ap_at(i, ApStage::Create))
            } else {
                moved_to(pre, post, ap_at(i, ApStage::Push))
            },
            _ => post == pre,
        },
        ApStage::Create => match ev {
            Event::Git { code, stdout, stderr } => if code != 0 {
                moved_to(
                    pre,
                    post,
                    failed_with(ReleaseError::CommandFailed { repo: name, detail: stderr }),
                )
            } else {
                moved_to(pre, post, ap_at(i, ApStage::Push))
            },
            _ => post == pre,
        },
        ApStage::Push => match ev {
            Event::Git { code, stdout, stderr } => if code != 0 {
                moved_to(
                    pre,
                    post,
                    failed_with(ReleaseError::CommandFailed { repo: name, detail: stderr }),
                )
            } else {
                moved_to(pre, post, asset_phase(pre, i))
            },
            _ => post == pre,
        },
        ApStage::AnnounceWait => match ev {
            Event::Ack => moved_to(pre, post, enter_apply(pre, i + 1)),
            _ => post == pre,
        },
        ApStage::Wait => match ev {
            Event::Assets { outcome } => match outcome {
                AssetOutcome::Ready => moved_to(pre, post, enter_apply(pre, i + 1)),
                AssetOutcome::TimedOut { missing, waited_ms, timeout_ms } => moved_to(
                    pre,
                    post,
                    failed_with(
                        ReleaseError::AssetWaitTimeout { repo: name, missing, waited_ms, timeout_ms },
                    ),
                ),
                AssetOutcome::Failed { detail } => moved_to(
                    pre,
                    post,
                    failed_with(ReleaseError::ApiError { repo: name, detail }),
                ),
            },
            _ => post == pre,
        },
    }
}

/// The whole transition relation: one event consumed in the current
/// phase. An event of the wrong shape for the phase changes nothing;
/// terminal phases consume nothing.
pub open spec fn step_rel(pre: Orchestrator, ev: Event, post: Orchestrator) -> bool {
    match pre.phase {
        Phase::Preflight { repo, stage } => pf_rel(pre, repo as int, stage, ev, post),
        Phase::TokenCheck => match ev {
            Event::Token { present } => if !pre.dry_run && !present {
                moved_to(pre, post, failed_with(ReleaseError::MissingToken))
            } else {
                moved_to(pre, post, enter_apply(pre, 0))
            },
            _ => post == pre,
        },
        Phase::Apply { repo, stage } => ap_rel(pre, repo as int, stage, ev, post),
        Phase::Done => post == pre,
        Phase::Failed { err } => post == pre,
    }
}

/// View-level equality of two optional actions: same shape, same indices
/// and flags, and equal text content.
pub open spec fn git_cmd_matches(a: GitCmd, b: GitCmd) -> bool {
    match (a, b) {
        (GitCmd::RemoteUrl, GitCmd::RemoteUrl) => true,
        (GitCmd::FetchTags, GitCmd::FetchTags) => true,
        (GitCmd::RemoteTagProbe { tag: x }, GitCmd::RemoteTagProbe { tag: y }) => x@ == y@,
        (GitCmd::StatusPorcelain, GitCmd::StatusPorcelain) => true,
        (GitCmd::SymbolicRef, GitCmd::SymbolicRef) => true,
        (GitCmd::RevParseHead, GitCmd::RevParseHead) => true,
        (GitCmd::RevParseRemote { branch: x }, GitCmd::RevParseRemote { branch: y }) => x@ == y@,
        (GitCmd::DivergedCounts { branch: x }, GitCmd::DivergedCounts { branch: y }) => x@ == y@,
        (GitCmd::VerifyLocalTag { tag: x }, GitCmd::VerifyLocalTag { tag: y }) => x@ == y@,
        (GitCmd::LocalTagCommit { tag: x }, GitCmd::LocalTagCommit { tag: y }) => x@ == y@,
        (GitCmd::TagList { tag: x }, GitCmd::TagList { tag: y }) => x@ == y@,
        (GitCmd::RemoteTagExitProbe { tag: x }, GitCmd::RemoteTagExitProbe { tag: y }) => x@ == y@,
        (GitCmd::CreateTag { tag: x }, GitCmd::CreateTag { tag: y }) => x@ == y@,
        (GitCmd::PushTag { tag: x }, GitCmd::PushTag { tag: y }) => x@ == y@,
        _ => false,
    }
}

pub open spec fn action_matches(a: Option<Action>, b: Option<Action>) -> bool {
    match (a, b) {
        (Option::None, Option::None) => true,
        (Option::Some(x), Option::Some(y)) => match (x, y) {
            (Action::CheckDir { repo: r1 }, Action::CheckDir { repo: r2 }) => r1 == r2,
            (Action::Git { repo: r1, cmd: c1 }, Action::Git { repo: r2, cmd: c2 }) => r1 == r2
                && git_cmd_matches(c1, c2),
            (Action::ReadToken, Action::ReadToken) => true,
            (
                Action::AnnounceTag { repo: r1, already_tagged: a1, dry_run: d1 },
                Action::AnnounceTag { repo: r2, already_tagged: a2, dry_run: d2 },
            ) => r1 == r2 && a1 == a2 && d1 == d2,
            (
                Action::AnnounceAssetWait { repo: r1, names: n1 },
                Action::AnnounceAssetWait { repo: r2, names: n2 },
            ) => r1 == r2 && n1.deep_view() == n2.deep_view(),
            (
                Action::WaitAssets { repo: r1, names: n1 },
                Action::WaitAssets { repo: r2, names: n2 },
            ) => r1 == r2 && n1.deep_view() == n2.deep_view(),
            _ => false,
        },
        _ => false,
    }
}

/// The action pending in a state: what the driver must perform before the
/// machine can step. Terminal states have none.
pub open spec fn spec_next_action(st: Orchestrator) -> Option<Action> {
    match st.phase {
        Phase::Preflight { repo, stage } => Some(
            match stage {
                PfStage::Dir => Action::CheckDir { repo },
                PfStage::Origin => Action::Git { repo, cmd: GitCmd::RemoteUrl },
                PfStage::Fetch => Action::Git { repo, cmd: GitCmd::FetchTags },
                PfStage::RemoteTag => Action::Git {
                    repo,
                    cmd: GitCmd::RemoteTagProbe { tag: st.rv.tag },
                },
                PfStage::Clean => Action::Git { repo, cmd: GitCmd::StatusPorcelain },
                PfStage::Branch => Action::Git { repo, cmd: GitCmd::SymbolicRef },
                PfStage::LocalHead { branch } => Action::Git { repo, cmd: GitCmd::RevParseHead },
                PfStage::RemoteHead { branch, local } => Action::Git {
                    repo,
                    cmd: GitCmd::RevParseRemote { branch },
                },
                PfStage::Diverged { branch, local, remote } => Action::Git {
                    repo,
                    cmd: GitCmd::DivergedCounts { branch },
                },
                PfStage::ResumeProbe => Action::Git {
                    repo,
                    cmd: GitCmd::VerifyLocalTag { tag: st.rv.tag },
                },
                PfStage::ResumeCommit => Action::Git {
                    repo,
                    cmd: GitCmd::LocalTagCommit { tag: st.rv.tag },
                },
                PfStage::ResumeHead { tag_commit } => Action::Git {
                    repo,
                    cmd: GitCmd::RevParseHead,
                },
                PfStage::AbsentLocal => Action::Git {
                    repo,
                    cmd: GitCmd::TagList { tag: st.rv.tag },
                },
                PfStage::AbsentRemote => Action::Git {
                    repo,
                    cmd: GitCmd::RemoteTagExitProbe { tag: st.rv.tag },
                },
            },
        ),
        Phase::TokenCheck => Some(Action::ReadToken),
        Phase::Apply { repo, stage } => Some(
            match stage {
                ApStage::Announce { already } => Action::AnnounceTag {
                    repo,
                    already_tagged: already,
                    dry_run: st.dry_run,
                },
                ApStage::Probe => Action::Git {
                    repo,
                    cmd: GitCmd::VerifyLocalTag { tag: st.rv.tag },
                },
                ApStage::Commit => Action::Git {
                    repo,
                    cmd: GitCmd::LocalTagCommit { tag: st.rv.tag },
                },
                ApStage::Create => Action::Git { repo, cmd: GitCmd::CreateTag { tag: st.rv.tag } },
                ApStage::Push => Action::Git { repo, cmd: GitCmd::PushTag { tag: st.rv.tag } },
                ApStage::AnnounceWait => Action::AnnounceAssetWait {
                    repo,
                    names: st.assets@[repo as int],
                },
                ApStage::Wait => Action::WaitAssets { repo, names: st.assets@[repo as int] },
            },
        ),
        Phase::Done => None,
        Phase::Failed { err } => None,
    }
}

fn clone_names(v: &Vec<String>) -> (r: Vec<String>)
    ensures
        r@ == v@,
{
    let n = v.len();
    let mut r: Vec<String> = Vec::new();
    let mut i: usize = 0;
    while i < n
        invariant
            0 <= i <= n,
            n == v@.len(),
            r@ == v@.take(i as int),
        decreases n - i,
    {
        r.push(v[i].clone());
        proof {
            assert(v@.take(i as int).push(v@[i as int]) =~= v@.take(i as int + 1));
        }
        i = i + 1;
    }
    proof {
        assert(v@.take(n as int) =~= v@);
    }
    r
}

impl Orchestrator {
    /// The run's outcome, once a terminal phase is reached.
    pub fn outcome(&self) -> (r: Option<Result<(), &ReleaseError>>)
        ensures
            match r {
                Some(res) => match res {
                    Ok(()) => self.phase is Done,
                    Err(e) => self.phase matches Phase::Failed { err } && *e == err,
                },
                None => !(self.phase is Done) && !(self.phase is Failed),
            },
    {
        match &self.phase {
            Phase::Done => Some(Ok(())),
            Phase::Failed { err } => Some(Err(err)),
            _ => None,
        }
    }

    /// The action the driver must perform next, or nothing in a terminal
    /// phase.
    pub fn next_action(&self) -> (r: Option<Action>)
        requires
            self.wf(),
        ensures
            action_matches(r, spec_next_action(*self)),
    {
        match &self.phase {
            Phase::Preflight { repo, stage } => {
                let repo = *repo;
                Some(
                    match stage {
                        PfStage::Dir => Action::CheckDir { repo },
                        PfStage::Origin => Action::Git { repo, cmd: GitCmd::RemoteUrl },
                        PfStage::Fetch => Action::Git { repo, cmd: GitCmd::FetchTags },
                        PfStage::RemoteTag => Action::Git {
                            repo,
                            cmd: GitCmd::RemoteTagProbe { tag: self.rv.tag.clone() },
                        },
                        PfStage::Clean => Action::Git { repo, cmd: GitCmd::StatusPorcelain },
                        PfStage::Branch => Action::Git { repo, cmd: GitCmd::SymbolicRef },
                        PfStage::LocalHead { branch } => Action::Git {
                            repo,
                            cmd: GitCmd::RevParseHead,
                        },
                        PfStage::RemoteHead { branch, local } => Action::Git {
                            repo,
                            cmd: GitCmd::RevParseRemote { branch: branch.clone() },
                        },
                        PfStage::Diverged { branch, local, remote } => Action::Git {
                            repo,
                            cmd: GitCmd::DivergedCounts { branch: branch.clone() },
                        },
                        PfStage::ResumeProbe => Action::Git {
                            repo,
                            cmd: GitCmd::VerifyLocalTag { tag: self.rv.tag.clone() },
                        },
                        PfStage::ResumeCommit => Action::Git {
                            repo,
                            cmd: GitCmd::LocalTagCommit { tag: self.rv.tag.clone() },
                        },
                        PfStage::ResumeHead { tag_commit } => Action::Git {
                            repo,
                            cmd: GitCmd::RevParseHead,
                        },
                        PfStage::AbsentLocal => Action::Git {
                            repo,
                            cmd: GitCmd::TagList { tag: self.rv.tag.clone() },
                        },
                        PfStage::AbsentRemote => Action::Git {
                            repo,
                            cmd: GitCmd::RemoteTagExitProbe { tag: self.rv.tag.clone() },
                        },
                    },
                )
            },
            Phase::TokenCheck => Some(Action::ReadToken),
            Phase::Apply { repo, stage } => {
                let repo = *repo;
                Some(
                    match stage {
                        ApStage::Announce { already } => Action::AnnounceTag {
                            repo,
                            already_tagged: *already,
                            dry_run: self.dry_run,
                        },
                        ApStage::Probe => Action::Git {
                            repo,
                            cmd: GitCmd::VerifyLocalTag { tag: self.rv.tag.clone() },
                        },
                        ApStage::Commit => Action::Git {
                            repo,
                            cmd: GitCmd::LocalTagCommit { tag: self.rv.tag.clone() },
                        },
                        ApStage::Create => Action::Git {
                            repo,
                            cmd: GitCmd::CreateTag { tag: self.rv.tag.clone() },
                        },
                        ApStage::Push => Action::Git {
                            repo,
                            cmd: GitCmd::PushTag { tag: self.rv.tag.clone() },
                        },
                        ApStage::AnnounceWait => Action::AnnounceAssetWait {
                            repo,
                            names: clone_names(&self.assets[repo]),
                        },
                        ApStage::Wait => Action::WaitAssets {
                            repo,
                            names: clone_names(&self.assets[repo]),
                        },
                    },
                )
            },
            Phase::Done => None,
            Phase::Failed { err } => None,
        }
    }

    fn enter_apply_at(&self, i: usize) -> (p: Phase)
        requires
            self.wf(),
            i <= self.repos@.len(),
        ensures
            p == enter_apply(*self, i as int),
    {
        if i >= self.repos.len() {
            Phase::Done
        } else if self.dry_run || self.remote_tagged[i] {
            Phase::Apply { repo: i, stage: ApStage::Announce { already: self.remote_tagged[i] } }
        } else {
            Phase::Apply { repo: i, stage: ApStage::Probe }
        }
    }

    fn asset_phase_at(&self, i: usize) -> (p: Phase)
        requires
            self.wf(),
            i < self.repos@.len(),
        ensures
            p == asset_phase(*self, i as int),
    {
        let n = self.repos.len();
        if self.assets[i].len() == 0 {
            self.enter_apply_at(i + 1)
        } else if self.dry_run {
            Phase::Apply { repo: i, stage: ApStage::AnnounceWait }
        } else {
            Phase::Apply { repo: i, stage: ApStage::Wait }
        }
    }

    fn pf_next_at(&self, i: usize) -> (p: Phase)
        requires
            self.wf(),
            i < self.repos@.len(),
        ensures
            p == pf_next(*self, i as int),
    {
        let n = self.repos.len();
        if i + 1 < n {
            Phase::Preflight { repo: i + 1, stage: PfStage::Dir }
        } else {
            Phase::TokenCheck
        }
    }

    /// Consume the pending action's result and move the machine forward.
    /// An event of the wrong shape for the current phase changes nothing.
    pub fn step(&mut self, ev: Event)
        requires
            old(self).wf(),
        ensures
            final(self).wf(),
            step_rel(*old(self), ev, *final(self)),
    {
        let (new_phase, record): (Phase, Option<(usize, bool)>) = match (&self.phase, ev) {
            (Phase::Preflight { repo, stage: PfStage::Dir }, Event::Dir { exists }) => {
                let i = *repo;
                if exists {
                    (Phase::Preflight { repo: i, stage: PfStage::Origin }, None)
                } else {
                    (
                        Phase::Failed {
                            err: ReleaseError::MissingDirectory {
                                repo: self.repos[i].name.clone(),
                            },
                        },
                        None,
                    )
                }
            },
            (
                Phase::Preflight { repo, stage: PfStage::Origin },
                Event::Git { code, stdout, stderr },
            ) => {
                let i = *repo;
                if code != 0 {
                    (
                        Phase::Failed {
                            err: ReleaseError::CommandFailed {
                                repo: self.repos[i].name.clone(),
                                detail: stderr,
                            },
                        },
                        None,
                    )
                } else {
                    match self.repos[i].ensure_origin_matches_expected(stdout) {
                        Ok(()) => (Phase::Preflight { repo: i, stage: PfStage::Fetch }, None),
                        Err(e) => (Phase::Failed { err: e }, None),
                    }
                }
            },
            (
                Phase::Preflight { repo, stage: PfStage::Fetch },
                Event::Git { code, stdout, stderr },
            ) => {
                let i = *repo;
                if code != 0 {
                    (
                        Phase::Failed {
                            err: ReleaseError::FetchFailed {
                                repo: self.repos[i].name.clone(),
                                detail: stderr,
                            },
                        },
                        None,
                    )
                } else {
                    (Phase::Preflight { repo: i, stage: PfStage::RemoteTag }, None)
                }
            },
            (
                Phase::Preflight { repo, stage: PfStage::RemoteTag },
                Event::Git { code, stdout, stderr },
            ) => {
                let i = *repo;
                match self.repos[i].remote_tag_commit(code, stdout, stderr) {
                    Err(e) => (Phase::Failed { err: e }, None),
                    Ok(found) => {
                        let present = found.is_some();
                        if present {
                            if self.resume {
                                (self.pf_next_at(i), Some((i, true)))
                            } else {
                                (
                                    Phase::Failed {
                                        err: ReleaseError::TagAlreadyReleased {
                                            repo: self.repos[i].name.clone(),
                                        },
                                    },
                                    Some((i, true)),
                                )
                            }
                        } else {
                            (
                                Phase::Preflight { repo: i, stage: PfStage::Clean },
                                Some((i, false)),
                            )
                        }
                    },
                }
            },
            (Phase::Preflight { repo, stage: PfStage::Clean }, Event::Status { dirty_paths }) => {
                let i = *repo;
                match self.repos[i].ensure_worktree_clean(dirty_paths) {
                    Ok(()) => (Phase::Preflight { repo: i, stage: PfStage::Branch }, None),
                    Err(e) => (Phase::Failed { err: e }, None),
                }
            },
            (
                Phase::Preflight { repo, stage: PfStage::Branch },
                Event::Git { code, stdout, stderr },
            ) => {
                let i = *repo;
                if code != 0 || stdout.as_str().unicode_len() == 0 {
                    (
                        Phase::Failed {
                            err: ReleaseError::DetachedHead { repo: self.repos[i].name.clone() },
                        },
                        None,
                    )
                } else {
                    (
                        Phase::Preflight { repo: i, stage: PfStage::LocalHead { branch: stdout } },
                        None,
                    )
                }
            },
            (
                Phase::Preflight { repo, stage: PfStage::LocalHead { branch } },
                Event::Git { code, stdout, stderr },
            ) => {
                let i = *repo;
                if code != 0 {
                    (
                        Phase::Failed {
                            err: ReleaseError::CommandFailed {
                                repo: self.repos[i].name.clone(),
                                detail: stderr,
                            },
                        },
                        None,
                    )
                } else {
                    (
                        Phase::Preflight {
                            repo: i,
                            stage: PfStage::RemoteHead { branch: branch.clone(), local: stdout },
                        },
                        None,
                    )
                }
            },
            (
                Phase::Preflight { repo, stage: PfStage::RemoteHead { branch, local } },
                Event::Git { code, stdout, stderr },
            ) => {
                let i = *repo;
                if code != 0 {
                    (
                        Phase::Failed {
                            err: ReleaseError::CommandFailed {
                                repo: self.repos[i].name.clone(),
                                detail: stderr,
                            },
                        },
                        None,
                    )
                } else if str_eq(local.as_str(), stdout.as_str()) {
                    if self.resume {
                        (Phase::Preflight { repo: i, stage: PfStage::ResumeProbe }, None)
                    } else {
                        (Phase::Preflight { repo: i, stage: PfStage::AbsentLocal }, None)
                    }
                } else {
                    (
                        Phase::Preflight {
                            repo: i,
                            stage: PfStage::Diverged {
                                branch: branch.clone(),
                                local: local.clone(),
                                remote: stdout,
                            },
                        },
                        None,
                    )
                }
            },
            (
                Phase::Preflight { repo, stage: PfStage::Diverged { branch, local, remote } },
                Event::Counts { ahead, behind },
            ) => {
                let i = *repo;
                (
                    Phase::Failed {
                        err: ReleaseError::BranchDiverged {
                            repo: self.repos[i].name.clone(),
                            local_sha: local.clone(),
                            remote_sha: remote.clone(),
                            ahead,
                            behind,
                        },
                    },
                    None,
                )
            },
            (
                Phase::Preflight { repo, stage: PfStage::ResumeProbe },
                Event::Git { code, stdout, stderr },
            ) => {
                let i = *repo;
                if code != 0 {
                    (self.pf_next_at(i), None)
                } else {
                    (Phase::Preflight { repo: i, stage: PfStage::ResumeCommit }, None)
                }
            },
            (
                Phase::Preflight { repo, stage: PfStage::ResumeCommit },
                Event::Git { code, stdout, stderr },
            ) => {
                let i = *repo;
                if code != 0 {
                    (
                        Phase::Failed {
                            err: ReleaseError::CommandFailed {
                                repo: self.repos[i].name.clone(),
                                detail: stderr,
                            },
                        },
                        None,
                    )
                } else if stdout.as_str().unicode_len() == 0 {
                    (self.pf_next_at(i), None)
                } else {
                    (
                        Phase::Preflight {
                            repo: i,
                            stage: PfStage::ResumeHead { tag_commit: stdout },
                        },
                        None,
                    )
                }
            },
            (
                Phase::Preflight { repo, stage: PfStage::ResumeHead { tag_commit } },
                Event::Git { code, stdout, stderr },
            ) => {
                let i = *repo;
                if code != 0 {
                    (
                        Phase::Failed {
                            err: ReleaseError::CommandFailed {
                                repo: self.repos[i].name.clone(),
                                detail: stderr,
                            },
                        },
                        None,
                    )
                } else if str_eq(tag_commit.as_str(), stdout.as_str()) {
                    (self.pf_next_at(i), None)
                } else {
                    (
                        Phase::Failed {
                            err: ReleaseError::TagConflict {
                                repo: self.repos[i].name.clone(),
                                existing_sha: tag_commit.clone(),
                                head_sha: stdout,
                            },
                        },
                        None,
                    )
                }
            },
            (
                Phase::Preflight { repo, stage: PfStage::AbsentLocal },
                Event::Git { code, stdout, stderr },
            ) => {
                let i = *repo;
                if code != 0 {
                    (
                        Phase::Failed {
                            err: ReleaseError::CommandFailed {
                                repo: self.repos[i].name.clone(),
                                detail: stderr,
                            },
                        },
                        None,
                    )
                } else if stdout.as_str().unicode_len() > 0 {
                    (
                        Phase::Failed {
                            err: ReleaseError::TagAlreadyExists {
                                repo: self.repos[i].name.clone(),
                            },
                        },
                        None,
                    )
                } else {
                    (Phase::Preflight { repo: i, stage: PfStage::AbsentRemote }, None)
                }
            },
            (
                Phase::Preflight { repo, stage: PfStage::AbsentRemote },
                Event::Git { code, stdout, stderr },
            ) => {
                let i = *repo;
                if code == 0 {
                    (
                        Phase::Failed {
                            err: ReleaseError::TagAlreadyExists {
                                repo: self.repos[i].name.clone(),
                            },
                        },
                        None,
                    )
                } else if code == 2 {
                    (self.pf_next_at(i), None)
                } else {
                    (
                        Phase::Failed {
                            err: ReleaseError::CommandFailed {
                                repo: self.repos[i].name.clone(),
                                detail: stderr,
                            },
                        },
                        None,
                    )
                }
            },
            (Phase::TokenCheck, Event::Token { present }) => {
                if !self.dry_run && !present {
                    (Phase::Failed { err: ReleaseError::MissingToken }, None)
                } else {
                    (self.enter_apply_at(0), None)
                }
            },
            (Phase::Apply { repo, stage: ApStage::Announce { already } }, Event::Ack) => {
                let i = *repo;
                (self.asset_phase_at(i), None)
            },
            (
                Phase::Apply { repo, stage: ApStage::Probe },
                Event::Git { code, stdout, stderr },
            ) => {
                let i = *repo;
                if code != 0 {
                    (Phase::Apply { repo: i, stage: ApStage::Create }, None)
                } else {
                    (Phase::Apply { repo: i, stage: ApStage::Commit }, None)
                }
            },
            (
                Phase::Apply { repo, stage: ApStage::Commit },
                Event::Git { code, stdout, stderr },
            ) => {
                let i = *repo;
                if code != 0 {
                    (
                        Phase::Failed {
                            err: ReleaseError::CommandFailed {
                                repo: self.repos[i].name.clone(),
                                detail: stderr,
                            },
                        },
                        None,
                    )
                } else if stdout.as_str().unicode_len() == 0 {
                    (Phase::Apply { repo: i, stage: ApStage::Create }, None)
                } else {
                    (Phase::Apply { repo: i, stage: ApStage::Push }, None)
                }
            },
            (
                Phase::Apply { repo, stage: ApStage::Create },
                Event::Git { code, stdout, stderr },
            ) => {
                let i = *repo;
                if code != 0 {
                    (
                        Phase::Failed {
                            err: ReleaseError::CommandFailed {
                                repo: self.repos[i].name.clone(),
                                detail: stderr,
                            },
                        },
                        None,
                    )
                } else {
                    (Phase::Apply { repo: i, stage: ApStage::Push }, None)
                }
            },
            (
                Phase::Apply { repo, stage: ApStage::Push },
                Event::Git { code, stdout, stderr },
            ) => {
                let i = *repo;
                if code != 0 {
                    (
                        Phase::Failed {
                            err: ReleaseError::CommandFailed {
                                repo: self.repos[i].name.clone(),
                                detail: stderr,
                            },
                        },
                        None,
                    )
                } else {
                    (self.asset_phase_at(i), None)
                }
            },
            (Phase::Apply { repo, stage: ApStage::AnnounceWait }, Event::Ack) => {
                let i = *repo;
                let n = self.repos.len();
                (self.enter_apply_at(i + 1), None)
            },
            (Phase::Apply { repo, stage: ApStage::Wait }, Event::Assets { outcome }) => {
                let i = *repo;
                let n = self.repos.len();
                match outcome {
                    AssetOutcome::Ready => (self.enter_apply_at(i + 1), None),
                    AssetOutcome::TimedOut { missing, waited_ms, timeout_ms } => (
                        Phase::Failed {
                            err: ReleaseError::AssetWaitTimeout {
                                repo: self.repos[i].name.clone(),
                                missing,
                                waited_ms,
                                timeout_ms,
                            },
                        },
                        None,
                    ),
                    AssetOutcome::Failed { detail } => (
                        Phase::Failed {
                            err: ReleaseError::ApiError {
                                repo: self.repos[i].name.clone(),
                                detail,
                            },
                        },
                        None,
                    ),
                }
            },
            _ => {
                return ;
            },
        };
        if let Some((i, b)) = record {
            self.remote_tagged.set(i, b);
        }
        self.phase = new_phase;
    }
}

/// A mutating version-control command: creating or pushing a tag. All
/// other actions of the machine are read-only.
pub open spec fn is_mutating_cmd(c: GitCmd) -> bool {
    c is CreateTag || c is PushTag
}

pub open spec fn is_mutating_action(a: Option<Action>) -> bool {
    match a {
        Some(Action::Git { repo, cmd }) => is_mutating_cmd(cmd),
        _ => false,
    }
}

/// A freshly constructed machine (what `new` returns).
pub open spec fn is_start(st: Orchestrator) -> bool {
    st.wf() && st.phase == spec_start_phase(st.repos@.len() as int)
}

/// The machine has passed the preflight gate: every repository's
/// preflight completed without a failure.
pub open spec fn preflight_passed(st: Orchestrator) -> bool {
    st.phase is TokenCheck || st.phase is Apply || st.phase is Done
}

/// One complete run, as the sequence of states it passes through:
/// `states[0]` is the starting machine and each consumed event links two
/// adjacent states by the transition relation.
pub open spec fn is_trace(evs: Seq<Event>, states: Seq<Orchestrator>) -> bool {
    &&& states.len() == evs.len() + 1
    &&& forall|k: int|
        0 <= k < evs.len() ==> step_rel(states[k], evs[k], #[trigger] states[k + 1])
}

/// A step preserves validity of the machine state.
pub proof fn lemma_step_rel_wf(pre: Orchestrator, ev: Event, post: Orchestrator)
    requires
        pre.wf(),
        step_rel(pre, ev, post),
    ensures
        post.wf(),
{
}

/// The step between two adjacent trace points.
pub proof fn lemma_trace_step(evs: Seq<Event>, states: Seq<Orchestrator>, k: int)
    requires
        is_trace(evs, states),
        1 <= k < states.len(),
    ensures
        step_rel(states[k - 1], evs[k - 1], states[k]),
{
    let j = k - 1;
    assert(step_rel(states[j], evs[j], states[j + 1]));
}

/// Validity holds at every point of a trace that starts valid.
pub proof fn lemma_trace_wf(evs: Seq<Event>, states: Seq<Orchestrator>, k: int)
    requires
        is_trace(evs, states),
        states[0].wf(),
        0 <= k < states.len(),
    ensures
        states[k].wf(),
    decreases k,
{
    if k > 0 {
        lemma_trace_wf(evs, states, k - 1);
        lemma_trace_step(evs, states, k);
        lemma_step_rel_wf(states[k - 1], evs[k - 1], states[k]);
    }
}

/// A mutating action is only ever pending in the apply phase.
pub proof fn lemma_mutation_only_in_apply(st: Orchestrator)
    requires
        is_mutating_action(spec_next_action(st)),
    ensures
        st.phase is Apply,
{
}

/// The repository index a preflight state works on.
pub open spec fn pf_index(p: Phase) -> int {
    match p {
        Phase::Preflight { repo, stage } => repo as int,
        _ => -1,
    }
}

/// Within preflight, the repository index never skips: it either stays or
/// advances by one, so the credential gate is reached only after every
/// repository in order.
pub proof fn lemma_preflight_in_order(pre: Orchestrator, ev: Event, post: Orchestrator)
    requires
        step_rel(pre, ev, post),
        pre.phase is Preflight,
        post.phase is Preflight,
    ensures
        pf_index(post.phase) == pf_index(pre.phase) || pf_index(post.phase) == pf_index(pre.phase)
            + 1,
{
    vstd::std_specs::vec::axiom_spec_len(&pre.repos);
    match pre.phase {
        Phase::Preflight { repo, stage } => {
            match stage {
                PfStage::Dir => {},
                PfStage::Origin => {},
                PfStage::Fetch => {},
                PfStage::RemoteTag => {},
                PfStage::Clean => {},
                PfStage::Branch => {},
                PfStage::LocalHead { branch } => {},
                PfStage::RemoteHead { branch, local } => {},
                PfStage::Diverged { branch, local, remote } => {},
                PfStage::ResumeProbe => {},
                PfStage::ResumeCommit => {},
                PfStage::ResumeHead { tag_commit } => {},
                PfStage::AbsentLocal => {},
                PfStage::AbsentRemote => {},
            }
        },
        _ => {},
    }
}

/// The only way into the post-preflight region is the credential gate,
/// entered from the last repository's preflight.
pub proof fn lemma_token_gate(pre: Orchestrator, ev: Event, post: Orchestrator)
    requires
        pre.wf(),
        step_rel(pre, ev, post),
        !preflight_passed(pre),
        preflight_passed(post),
    ensures
        post.phase is TokenCheck,
        pre.phase is Preflight,
        pf_index(pre.phase) + 1 == pre.repos@.len(),
{
    vstd::std_specs::vec::axiom_spec_len(&pre.repos);
    match pre.phase {
        Phase::Preflight { repo, stage } => {
            match stage {
                PfStage::Dir => {},
                PfStage::Origin => {},
                PfStage::Fetch => {},
                PfStage::RemoteTag => {},
                PfStage::Clean => {},
                PfStage::Branch => {},
                PfStage::LocalHead { branch } => {},
                PfStage::RemoteHead { branch, local } => {},
                PfStage::Diverged { branch, local, remote } => {},
                PfStage::ResumeProbe => {},
                PfStage::ResumeCommit => {},
                PfStage::ResumeHead { tag_commit } => {},
                PfStage::AbsentLocal => {},
                PfStage::AbsentRemote => {},
            }
        },
        _ => {},
    }
}

/// Every trace point past the preflight gate has an earlier trace point
/// at the credential gate.
pub proof fn lemma_passed_has_gate_point(evs: Seq<Event>, states: Seq<Orchestrator>, k: int)
    requires
        is_trace(evs, states),
        is_start(states[0]),
        states[0].repos@.len() > 0,
        0 <= k < states.len(),
        preflight_passed(states[k]),
    ensures
        exists|j: int| 0 <= j <= k && (#[trigger] states[j]).phase is TokenCheck,
    decreases k,
{
    if k == 0 {
        assert(false);
    } else {
        if preflight_passed(states[k - 1]) {
            lemma_passed_has_gate_point(evs, states, k - 1);
        } else {
            lemma_trace_wf(evs, states, k - 1);
            lemma_trace_step(evs, states, k);
            lemma_token_gate(states[k - 1], evs[k - 1], states[k]);
            assert(states[k].phase is TokenCheck);
        }
    }
}

/// Ordering law of the two-phase protocol: along any run, a tag-create or
/// tag-push action can only become pending after preflight has completed
/// for all repositories — the trace holds an earlier state at the
/// credential gate, which is entered only from the last repository's
/// preflight, and the preflight index walks the repositories in order
/// without skipping. A run whose preflight fails therefore performs no
/// mutation at all.
pub proof fn theorem_mutation_needs_full_preflight(
    evs: Seq<Event>,
    states: Seq<Orchestrator>,
    k: int,
)
    requires
        is_trace(evs, states),
        is_start(states[0]),
        states[0].repos@.len() > 0,
        0 <= k < states.len(),
        is_mutating_action(spec_next_action(states[k])),
    ensures
        states[k].phase is Apply,
        exists|j: int| 0 <= j <= k && (#[trigger] states[j]).phase is TokenCheck,
{
    lemma_mutation_only_in_apply(states[k]);
    lemma_passed_has_gate_point(evs, states, k);
}

/// In a dry run, the apply phase only ever narrates: it never reaches the
/// probe, create, push or live-wait stages.
pub open spec fn dry_run_safe(st: Orchestrator) -> bool {
    st.dry_run ==> match st.phase {
        Phase::Apply { repo, stage } => stage is Announce || stage is AnnounceWait,
        _ => true,
    }
}

pub proof fn lemma_dry_run_safe_step(pre: Orchestrator, ev: Event, post: Orchestrator)
    requires
        dry_run_safe(pre),
        step_rel(pre, ev, post),
    ensures
        dry_run_safe(post),
        post.dry_run == pre.dry_run,
{
}

pub proof fn lemma_dry_run_no_mutation(st: Orchestrator)
    requires
        st.dry_run,
        dry_run_safe(st),
    ensures
        !is_mutating_action(spec_next_action(st)),
        !(spec_next_action(st) matches Some(Action::WaitAssets { repo, names })),
{
}

/// Dry-run law: a dry run never has a tag-create, tag-push or live
/// asset-wait action pending, at any point of any run. It performs the
/// read-only preflight checks and narration only.
pub proof fn theorem_dry_run_is_read_only(evs: Seq<Event>, states: Seq<Orchestrator>, k: int)
    requires
        is_trace(evs, states),
        is_start(states[0]),
        states[0].dry_run,
        0 <= k < states.len(),
    ensures
        !is_mutating_action(spec_next_action(states[k])),
        !(spec_next_action(states[k]) matches Some(Action::WaitAssets { repo, names })),
    decreases k,
{
    lemma_dry_run_safe_point(evs, states, k);
    lemma_dry_run_no_mutation(states[k]);
}

pub proof fn lemma_dry_run_safe_point(evs: Seq<Event>, states: Seq<Orchestrator>, k: int)
    requires
        is_trace(evs, states),
        is_start(states[0]),
        states[0].dry_run,
        0 <= k < states.len(),
    ensures
        states[k].dry_run,
        dry_run_safe(states[k]),
    decreases k,
{
    if k > 0 {
        lemma_dry_run_safe_point(evs, states, k - 1);
        lemma_trace_step(evs, states, k);
        lemma_dry_run_safe_step(states[k - 1], evs[k - 1], states[k]);
    }
}

/// The invariant of a resume run against remote state where every
/// repository already carries the tag: the snapshot records every
/// preflighted repository as tagged, preflight never proceeds past the
/// remote-tag query within one repository, and the apply phase only ever
/// narrates or waits.
pub open spec fn resume_tagged_inv(st: Orchestrator) -> bool {
    st.resume && match st.phase {
        Phase::Preflight { repo, stage } => (forall|j: int|
            0 <= j < repo ==> st.remote_tagged@[j]) && (stage is Dir || stage is Origin
            || stage is Fetch || stage is RemoteTag),
        Phase::TokenCheck => forall|j: int|
            0 <= j < st.remote_tagged@.len() ==> st.remote_tagged@[j],
        Phase::Apply { repo, stage } => (forall|j: int|
            0 <= j < st.remote_tagged@.len() ==> st.remote_tagged@[j]) && (stage is Announce
            || stage is AnnounceWait || stage is Wait),
        Phase::Done => forall|j: int| 0 <= j < st.remote_tagged@.len() ==> st.remote_tagged@[j],
        Phase::Failed { err } => true,
    }
}

/// The machine is awaiting the answer to a remote-tag existence query.
pub open spec fn at_remote_tag_query(st: Orchestrator) -> bool {
    st.phase matches Phase::Preflight { repo, stage } && stage is RemoteTag
}

/// The event answering a remote-tag query reports the tag as present.
pub open spec fn reports_remote_tag(ev: Event) -> bool {
    ev matches Event::Git { code, stdout, stderr } && code == 0 && spec_first_token(stdout@).len()
        > 0
}

pub proof fn lemma_resume_inv_step(pre: Orchestrator, ev: Event, post: Orchestrator)
    requires
        pre.wf(),
        resume_tagged_inv(pre),
        step_rel(pre, ev, post),
        at_remote_tag_query(pre) ==> reports_remote_tag(ev),
    ensures
        resume_tagged_inv(post),
{
}

pub proof fn lemma_resume_inv_no_mutation(st: Orchestrator)
    requires
        resume_tagged_inv(st),
    ensures
        !is_mutating_action(spec_next_action(st)),
{
}

/// Resume idempotence law: in a resume run against remote state where
/// every remote-tag query answers that the tag already exists, no
/// tag-create or tag-push action is ever pending — re-running issues no
/// duplicate mutation.
pub proof fn theorem_resume_is_idempotent(evs: Seq<Event>, states: Seq<Orchestrator>, k: int)
    requires
        is_trace(evs, states),
        is_start(states[0]),
        states[0].resume,
        forall|j: int|
            0 <= j < evs.len() && at_remote_tag_query(#[trigger] states[j]) ==> reports_remote_tag(
                evs[j],
            ),
        0 <= k < states.len(),
    ensures
        resume_tagged_inv(states[k]),
        !is_mutating_action(spec_next_action(states[k])),
    decreases k,
{
    if k == 0 {
        assert(resume_tagged_inv(states[0]));
    } else {
        theorem_resume_is_idempotent(evs, states, k - 1);
        lemma_trace_wf(evs, states, k - 1);
        lemma_trace_step(evs, states, k);
        lemma_resume_inv_step(states[k - 1], evs[k - 1], states[k]);
    }
    lemma_resume_inv_no_mutation(states[k]);
}

} // verus!
