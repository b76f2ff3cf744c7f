//! The hosting-service collaborator: the plain data its endpoints return,
//! the classification of its response statuses, and the asset-readiness
//! poller — the stability debounce that decides when a release's assets
//! have finished uploading.
//!
//! Performing the HTTP calls is I/O and lives outside the library; the
//! poller here consumes one observation per tick (the release's asset list,
//! or its absence) and decides readiness: every expected asset must be
//! present with a positive size, and the identical size map must be
//! observed on two consecutive ticks.

use vstd::prelude::*;

use crate::text::str_eq;

verus! {


/// One asset of a published release, as the hosting service reports it.
#[derive(Clone, Debug, PartialEq, Eq)]
pub struct ReleaseAsset {
    pub name: String,
    pub size: u64,
}

/// A release looked up by tag.
#[derive(Clone, Debug, PartialEq, Eq)]
pub struct Release {
    pub assets: Vec<ReleaseAsset>,
}

/// Repository information: the default branch.
#[derive(Clone, Debug, PartialEq, Eq)]
pub struct RepoInfo {
    pub default_branch: String,
}

/// One CI run: its lifecycle status and, once completed, its conclusion.
#[derive(Clone, Debug, PartialEq, Eq)]
pub struct WorkflowRun {
    pub status: String,
    pub conclusion: Option<String>,
}

/// The CI run listing, most recent first.
#[derive(Clone, Debug, PartialEq, Eq)]
pub struct WorkflowRunsResponse {
    pub workflow_runs: Vec<WorkflowRun>,
}

/// The most recent published release.
#[derive(Clone, Debug, PartialEq, Eq)]
pub struct LatestRelease {
    pub tag_name: String,
}

/// A two-ref comparison: how many commits the head is ahead.
#[derive(Clone, Debug, PartialEq, Eq)]
pub struct CompareResponse {
    pub ahead_by: u32,
}

impl WorkflowRunsResponse {
    /// The most recent run of the listing, when there is one.
    pub fn latest(self) -> (r: Option<WorkflowRun>)
        ensures
            match r {
                Some(w) => self.workflow_runs@.len() > 0 && w == self.workflow_runs@[0],
                None => self.workflow_runs@.len() == 0,
            },
    {
        let mut v = self.workflow_runs;
        if v.len() == 0 {
            None
        } else {
            Some(v.remove(0))
        }
    }
}

/// What a response status means for a lookup whose absence is meaningful:
/// 404 is absence, 401 and 403 are authentication failures, any other
/// non-success is a plain failure, success means the body is usable.
#[derive(Clone, Copy, Debug, PartialEq, Eq)]
pub enum LookupOutcome {
    TreatAbsent,
    TreatAuthError,
    TreatError,
    ParseBody,
}

pub open spec fn spec_release_lookup(status: u16) -> LookupOutcome {
    if status == 404 {
        LookupOutcome::TreatAbsent
    } else if status == 401 || status == 403 {
        LookupOutcome::TreatAuthError
    } else if 200 <= status < 300 {
        LookupOutcome::ParseBody
    } else {
        LookupOutcome::TreatError
    }
}

/// Classify the status of a lookup where 404 means the thing does not
/// exist (release by tag, latest run, latest release).
pub fn release_lookup_outcome(status: u16) -> (r: LookupOutcome)
    ensures
        r == spec_release_lookup(status),
{
    if status == 404 {
        LookupOutcome::TreatAbsent
    } else if status == 401 || status == 403 {
        LookupOutcome::TreatAuthError
    } else if 200 <= status && status < 300 {
        LookupOutcome::ParseBody
    } else {
        LookupOutcome::TreatError
    }
}

pub open spec fn spec_plain_lookup(status: u16) -> LookupOutcome {
    if status == 401 || status == 403 {
        LookupOutcome::TreatAuthError
    } else if 200 <= status < 300 {
        LookupOutcome::ParseBody
    } else {
        LookupOutcome::TreatError
    }
}

/// Classify the status of a lookup with no meaningful absence (repository
/// information): every non-success short of an auth failure is a plain
/// failure.
pub fn plain_lookup_outcome(status: u16) -> (r: LookupOutcome)
    ensures
        r == spec_plain_lookup(status),
{
    if status == 401 || status == 403 {
        LookupOutcome::TreatAuthError
    } else if 200 <= status && status < 300 {
        LookupOutcome::ParseBody
    } else {
        LookupOutcome::TreatError
    }
}

/// What a response status means for the ref comparison: there is no
/// meaningful absence here — 404 means the comparison itself is
/// unavailable, its own failure distinct from a plain API error.
#[derive(Clone, Copy, Debug, PartialEq, Eq)]
pub enum CompareLookup {
    Unavailable,
    AuthFailed,
    Failure,
    ParseBody,
}

pub open spec fn spec_compare_lookup(status: u16) -> CompareLookup {
    if status == 404 {
        CompareLookup::Unavailable
    } else if status == 401 || status == 403 {
        CompareLookup::AuthFailed
    } else if 200 <= status < 300 {
        CompareLookup::ParseBody
    } else {
        CompareLookup::Failure
    }
}

/// Classify the status of the two-ref comparison.
pub fn compare_lookup_outcome(status: u16) -> (r: CompareLookup)
    ensures
        r == spec_compare_lookup(status),
{
    if status == 404 {
        CompareLookup::Unavailable
    } else if status == 401 || status == 403 {
        CompareLookup::AuthFailed
    } else if 200 <= status && status < 300 {
        CompareLookup::ParseBody
    } else {
        CompareLookup::Failure
    }
}

/// The size map an asset listing denotes: name to reported size, a later
/// entry overriding an earlier one of the same name.
pub open spec fn assets_map(s: Seq<ReleaseAsset>) -> Map<Seq<char>, u64>
    decreases s.len(),
{
    if s.len() == 0 {
        Map::empty()
    } else {
        assets_map(s.drop_last()).insert(s.last().name@, s.last().size)
    }
}

pub proof fn lemma_assets_map_contains(s: Seq<ReleaseAsset>, k: Seq<char>)
    ensures
        assets_map(s).contains_key(k) <==> exists|i: int|
            0 <= i < s.len() && (#[trigger] s[i]).name@ == k,
    decreases s.len(),
{
    if s.len() > 0 {
        lemma_assets_map_contains(s.drop_last(), k);
        if s.last().name@ == k {
            assert(s[s.len() - 1].name@ == k);
        } else if assets_map(s).contains_key(k) {
            let i = choose|i: int| 0 <= i < s.drop_last().len() && (#[trigger] s.drop_last()[i]).name@ == k;
            assert(s[i].name@ == k);
        } else {
            if exists|i: int| 0 <= i < s.len() && (#[trigger] s[i]).name@ == k {
                let i = choose|i: int| 0 <= i < s.len() && (#[trigger] s[i]).name@ == k;
                assert(i < s.len() - 1);
                assert(s.drop_last()[i].name@ == k);
            }
        }
    }
}

pub proof fn lemma_assets_map_value(s: Seq<ReleaseAsset>, j: int)
    requires
        0 <= j < s.len(),
        forall|i: int| j < i < s.len() ==> (#[trigger] s[i]).name@ != s[j].name@,
    ensures
        assets_map(s).contains_key(s[j].name@),
        assets_map(s)[s[j].name@] == s[j].size,
    decreases s.len(),
{
    if j == s.len() - 1 {
    } else {
        assert(s.drop_last()[j] == s[j]);
        assert(forall|i: int|
            j < i < s.drop_last().len() ==> (#[trigger] s.drop_last()[i]).name@ != s.drop_last()[j].name@);
        lemma_assets_map_value(s.drop_last(), j);
        assert(s.last().name@ != s[j].name@);
    }
}

/// The reported size of a named asset, the last listing winning.
fn lookup_size(assets: &Vec<ReleaseAsset>, name: &str) -> (r: Option<u64>)
    ensures
        match r {
            Some(sz) => assets_map(assets@).contains_key(name@) && assets_map(assets@)[name@]
                == sz,
            None => !assets_map(assets@).contains_key(name@),
        },
{
    let n = assets.len();
    let mut t: usize = 0;
    while t < n
        invariant
            0 <= t <= n,
            n == assets@.len(),
            forall|i: int| n - t <= i < n ==> (#[trigger] assets@[i]).name@ != name@,
        decreases n - t,
    {
        let idx = n - 1 - t;
        if str_eq(assets[idx].name.as_str(), name) {
            proof {
                lemma_assets_map_value(assets@, idx as int);
            }
            return Some(assets[idx].size);
        }
        t = t + 1;
    }
    proof {
        lemma_assets_map_contains(assets@, name@);
    }
    None
}

/// Agreement of two size maps at one key.
pub open spec fn map_agrees(ma: Map<Seq<char>, u64>, mb: Map<Seq<char>, u64>, k: Seq<char>) -> bool {
    ma.contains_key(k) == mb.contains_key(k) && (ma.contains_key(k) ==> ma[k] == mb[k])
}

fn opt_u64_eq(a: &Option<u64>, b: &Option<u64>) -> (r: bool)
    ensures
        r == (a == b),
{
    match (a, b) {
        (Some(x), Some(y)) => x == y,
        (None, None) => true,
        _ => false,
    }
}

fn maps_agree_on_names(a: &Vec<ReleaseAsset>, b: &Vec<ReleaseAsset>) -> (r: bool)
    ensures
        r == forall|i: int|
            0 <= i < a@.len() ==> map_agrees(assets_map(a@), assets_map(b@), (#[trigger] a@[i]).name@),
{
    let n = a.len();
    let mut i: usize = 0;
    while i < n
        invariant
            0 <= i <= n,
            n == a@.len(),
            forall|j: int|
                0 <= j < i ==> map_agrees(assets_map(a@), assets_map(b@), (#[trigger] a@[j]).name@),
        decreases n - i,
    {
        let la = lookup_size(a, a[i].name.as_str());
        let lb = lookup_size(b, a[i].name.as_str());
        if !opt_u64_eq(&la, &lb) {
            assert(!map_agrees(assets_map(a@), assets_map(b@), a@[i as int].name@));
            return false;
        }
        assert(map_agrees(assets_map(a@), assets_map(b@), a@[i as int].name@));
        i = i + 1;
    }
    true
}

/// Whether two asset listings denote the same size map.
pub fn maps_equal(a: &Vec<ReleaseAsset>, b: &Vec<ReleaseAsset>) -> (r: bool)
    ensures
        r == (assets_map(a@) == assets_map(b@)),
{
    let ghost ma = assets_map(a@);
    let ghost mb = assets_map(b@);
    if !maps_agree_on_names(a, b) {
        proof {
            let i = choose|i: int| 0 <= i < a@.len() && !map_agrees(ma, mb, (#[trigger] a@[i]).name@);
            assert(ma != mb);
        }
        return false;
    }
    if !maps_agree_on_names(b, a) {
        proof {
            let i = choose|i: int| 0 <= i < b@.len() && !map_agrees(mb, ma, (#[trigger] b@[i]).name@);
            assert(ma != mb);
        }
        return false;
    }
    proof {
        assert forall|k: Seq<char>| #[trigger] ma.dom().contains(k) implies mb.dom().contains(k)
            && ma[k] == mb[k] by {
            assert(ma.contains_key(k));
            lemma_assets_map_contains(a@, k);
            let i = choose|i: int| 0 <= i < a@.len() && (#[trigger] a@[i]).name@ == k;
            assert(map_agrees(ma, mb, a@[i].name@));
            assert(mb.contains_key(k));
        }
        assert forall|k: Seq<char>| #[trigger] mb.dom().contains(k) implies ma.dom().contains(
            k,
        ) by {
            assert(mb.contains_key(k));
            lemma_assets_map_contains(b@, k);
            let i = choose|i: int| 0 <= i < b@.len() && (#[trigger] b@[i]).name@ == k;
            assert(map_agrees(mb, ma, b@[i].name@));
            assert(ma.contains_key(k));
        }
        assert(ma.dom() =~= mb.dom());
        assert(ma =~= mb);
    }
    true
}

/// An expected asset counts as present when the size map reports it with a
/// positive size.
pub open spec fn asset_ok(m: Map<Seq<char>, u64>, name: Seq<char>) -> bool {
    m.contains_key(name) && m[name] > 0
}

/// The predicate selecting the expected names still missing from a size
/// map.
pub open spec fn miss_pred(m: Map<Seq<char>, u64>) -> spec_fn(String) -> bool {
    |n: String| !asset_ok(m, n@)
}

/// The expected names absent from the size map or reported non-positive.
pub open spec fn missing_of(expected: Seq<String>, m: Map<Seq<char>, u64>) -> Seq<String> {
    expected.filter(miss_pred(m))
}

/// The predicate selecting the expected names not yet confirmed stable
/// between a baseline listing and the current size map.
pub open spec fn unstable_pred(last: Option<Vec<ReleaseAsset>>, m: Map<Seq<char>, u64>) -> spec_fn(
    String,
) -> bool {
    |n: String|
        !match last {
            Some(prev) => assets_map(prev@).contains_key(n@) && m.contains_key(n@) && assets_map(
                prev@,
            )[n@] == m[n@],
            None => false,
        }
}

/// The expected names whose size differs from the baseline, or all of them
/// when no baseline exists yet.
pub open spec fn unstable_of(
    expected: Seq<String>,
    last: Option<Vec<ReleaseAsset>>,
    m: Map<Seq<char>, u64>,
) -> Seq<String> {
    expected.filter(unstable_pred(last, m))
}

proof fn lemma_filter_one_string(x: String, pred: spec_fn(String) -> bool)
    ensures
        seq![x].filter(pred) == if pred(x) {
            seq![x]
        } else {
            Seq::<String>::empty()
        },
{
    reveal(Seq::filter);
    assert(seq![x].drop_last() =~= Seq::<String>::empty());
    assert(Seq::<String>::empty().filter(pred) =~= Seq::<String>::empty());
    if pred(x) {
        assert(seq![x].filter(pred) =~= Seq::<String>::empty().push(x));
        assert(Seq::<String>::empty().push(x) =~= seq![x]);
    }
}

fn compute_missing(expected: &Vec<String>, assets: &Vec<ReleaseAsset>) -> (r: Vec<String>)
    ensures
        r@ == missing_of(expected@, assets_map(assets@)),
{
    let ghost m = assets_map(assets@);
    let ghost pred = miss_pred(m);
    let n = expected.len();
    let mut r: Vec<String> = Vec::new();
    proof {
        reveal(Seq::filter);
        assert(expected@.take(0) =~= Seq::<String>::empty());
        assert(Seq::<String>::empty().filter(pred) =~= Seq::<String>::empty());
    }
    let mut i: usize = 0;
    while i < n
        invariant
            0 <= i <= n,
            n == expected@.len(),
            m == assets_map(assets@),
            pred == miss_pred(m),
            r@ == expected@.take(i as int).filter(pred),
        decreases n - i,
    {
        let ok = match lookup_size(assets, expected[i].as_str()) {
            Some(sz) => sz > 0,
            None => false,
        };
        if !ok {
            r.push(expected[i].clone());
        }
        proof {
            assert(expected@.take(i as int + 1) =~= expected@.take(i as int) + seq![
                expected@[i as int],
            ]);
            Seq::filter_distributes_over_add(expected@.take(i as int), seq![expected@[i as int]], pred);
            lemma_filter_one_string(expected@[i as int], pred);
            assert(pred(expected@[i as int]) == !asset_ok(m, expected@[i as int]@));
        }
        i = i + 1;
    }
    proof {
        assert(expected@.take(n as int) =~= expected@);
    }
    r
}

fn compute_unstable(
    expected: &Vec<String>,
    last: &Option<Vec<ReleaseAsset>>,
    assets: &Vec<ReleaseAsset>,
) -> (r: Vec<String>)
    ensures
        r@ == unstable_of(expected@, *last, assets_map(assets@)),
{
    let ghost m = assets_map(assets@);
    let ghost pred = unstable_pred(*last, m);
    let n = expected.len();
    let mut r: Vec<String> = Vec::new();
    proof {
        reveal(Seq::filter);
        assert(expected@.take(0) =~= Seq::<String>::empty());
        assert(Seq::<String>::empty().filter(pred) =~= Seq::<String>::empty());
    }
    let mut i: usize = 0;
    while i < n
        invariant
            0 <= i <= n,
            n == expected@.len(),
            m == assets_map(assets@),
            pred == unstable_pred(*last, m),
            r@ == expected@.take(i as int).filter(pred),
        decreases n - i,
    {
        let stable = match last {
            Some(prev) => {
                let la = lookup_size(prev, expected[i].as_str());
                let lc = lookup_size(assets, expected[i].as_str());
                match (la, lc) {
                    (Some(x), Some(y)) => x == y,
                    _ => false,
                }
            },
            None => false,
        };
        if !stable {
            r.push(expected[i].clone());
        }
        proof {
            assert(expected@.take(i as int + 1) =~= expected@.take(i as int) + seq![
                expected@[i as int],
            ]);
            Seq::filter_distributes_over_add(expected@.take(i as int), seq![expected@[i as int]], pred);
            lemma_filter_one_string(expected@[i as int], pred);
        }
        i = i + 1;
    }
    proof {
        assert(expected@.take(n as int) =~= expected@);
    }
    r
}

/// A stability counter bump that cannot overflow.
pub open spec fn bump(c: u32) -> u32 {
    if c == u32::MAX {
        c
    } else {
        (c + 1) as u32
    }
}

/// Whether the current size map equals the baseline's.
pub open spec fn baseline_matches(last: Option<Vec<ReleaseAsset>>, m: Map<Seq<char>, u64>) -> bool {
    match last {
        Some(prev) => assets_map(prev@) == m,
        None => false,
    }
}

/// What one poll tick concluded.
#[derive(Clone, Copy, Debug, PartialEq, Eq)]
pub enum PollVerdict {
    Ready,
    Waiting,
}

/// The asset-readiness poller: the expected asset names, the last fully
/// present size map adopted as a baseline, the count of consecutive ticks
/// the baseline was re-observed, and the names still missing or unstable
/// as of the last tick (what a timeout reports).
#[derive(Clone, Debug)]
pub struct AssetPoller {
    pub expected: Vec<String>,
    pub last: Option<Vec<ReleaseAsset>>,
    pub stable_count: u32,
    pub pending: Vec<String>,
}

impl AssetPoller {
    /// A fresh poller: no baseline yet, every expected asset pending.
    pub fn new(expected: Vec<String>) -> (r: Self)
        ensures
            r.expected == expected,
            r.last is None,
            r.stable_count == 0,
            r.pending@ == expected@,
    {
        let n = expected.len();
        let mut pending: Vec<String> = Vec::new();
        let mut i: usize = 0;
        while i < n
            invariant
                0 <= i <= n,
                n == expected@.len(),
                pending@ == expected@.take(i as int),
            decreases n - i,
        {
            pending.push(expected[i].clone());
            proof {
                assert(expected@.take(i as int).push(expected@[i as int]) =~= expected@.take(
                    i as int + 1,
                ));
            }
            i = i + 1;
        }
        proof {
            assert(expected@.take(n as int) =~= expected@);
        }
        AssetPoller { expected, last: None, stable_count: 0, pending }
    }

    /// Consume one tick's observation: the release's asset listing, or
    /// `None` when the release does not exist yet (no state is reset).
    ///
    /// Readiness is declared exactly when every expected asset is present
    /// with a positive size and the identical size map was observed on the
    /// previous tick. A fully present but changed map is adopted as the
    /// new baseline; an incomplete map resets the stability count.
    pub fn observe(&mut self, release: Option<Vec<ReleaseAsset>>) -> (v: PollVerdict)
        ensures
            final(self).expected == old(self).expected,
            match release {
                None => v == PollVerdict::Waiting && *final(self) == *old(self),
                Some(assets) => {
                    let m = assets_map(assets@);
                    let miss = missing_of(old(self).expected@, m);
                    if miss.len() > 0 {
                        v == PollVerdict::Waiting && final(self).stable_count == 0 && final(self).pending@ == miss && final(self).last == old(self).last
                    } else if baseline_matches(old(self).last, m) {
                        v == PollVerdict::Ready && final(self).stable_count == bump(
                            old(self).stable_count,
                        ) && final(self).last == old(self).last && final(self).pending == old(self).pending
                    } else {
                        v == PollVerdict::Waiting && final(self).stable_count == 0 && final(self).pending@ == unstable_of(old(self).expected@, old(self).last, m) && (final(self).last matches Some(cur) && cur@ == assets@)
                    }
                },
            },
    {
        match release {
            None => PollVerdict::Waiting,
            Some(assets) => {
                let miss = compute_missing(&self.expected, &assets);
                if miss.len() > 0 {
                    self.stable_count = 0;
                    self.pending = miss;
                    PollVerdict::Waiting
                } else {
                    let same = match &self.last {
                        Some(prev) => maps_equal(prev, &assets),
                        None => false,
                    };
                    if same {
                        if self.stable_count < u32::MAX {
                            self.stable_count = self.stable_count + 1;
                        }
                        PollVerdict::Ready
                    } else {
                        self.stable_count = 0;
                        self.pending = compute_unstable(&self.expected, &self.last, &assets);
                        self.last = Some(assets);
                        PollVerdict::Waiting
                    }
                }
            },
        }
    }
}

} // verus!
