//! The version normalizer: validation of an operator-supplied release
//! version against the SemVer 2.0 grammar, and its normal form as a pair of
//! a bare version string and a `v`-prefixed tag.
//!
//! The grammar is stated as spec functions over character sequences
//! (`major.minor.patch`, an optional dot-separated prerelease, an optional
//! dot-separated build-metadata suffix), and the checker is proved against
//! it. A string that passes the grammar is already in normal form: numeric
//! components carry no leading zeros, and prerelease and build metadata are
//! preserved verbatim.

use vstd::prelude::*;

use crate::errors::ReleaseError;
use crate::text::concat2;

verus! {

use vstd::string::StringExecFns;
use vstd::string::StrSliceExecFns;

pub open spec fn is_digit(c: char) -> bool {
    '0' <= c && c <= '9'
}

pub open spec fn is_letter(c: char) -> bool {
    ('A' <= c && c <= 'Z') || ('a' <= c && c <= 'z')
}

/// A non-digit identifier character: a letter or a hyphen.
pub open spec fn is_nondigit(c: char) -> bool {
    c == '-' || is_letter(c)
}

pub open spec fn is_ident_char(c: char) -> bool {
    is_digit(c) || is_nondigit(c)
}

pub open spec fn all_digits(s: Seq<char>) -> bool {
    forall|i: int| 0 <= i < s.len() ==> is_digit(#[trigger] s[i])
}

/// A numeric identifier: digits only, no leading zero unless the value is
/// the single digit `0`.
pub open spec fn is_numeric_ident(s: Seq<char>) -> bool {
    s.len() > 0 && all_digits(s) && (s.len() > 1 ==> s[0] != '0')
}

/// An alphanumeric identifier: identifier characters with at least one
/// non-digit among them.
pub open spec fn is_alphanum_ident(s: Seq<char>) -> bool {
    s.len() > 0 && (forall|i: int| 0 <= i < s.len() ==> is_ident_char(#[trigger] s[i])) && (exists|
        i: int,
    |
        0 <= i < s.len() && is_nondigit(#[trigger] s[i]))
}

pub open spec fn is_prerelease_ident(s: Seq<char>) -> bool {
    is_numeric_ident(s) || is_alphanum_ident(s)
}

/// A build-metadata identifier: identifier characters, leading zeros
/// allowed.
pub open spec fn is_build_ident(s: Seq<char>) -> bool {
    s.len() > 0 && (forall|i: int| 0 <= i < s.len() ==> is_ident_char(#[trigger] s[i]))
}

/// The index of the first occurrence of `c` in `s`, or `s.len()` when `c`
/// does not occur.
pub open spec fn first_idx(s: Seq<char>, c: char) -> int
    decreases s.len(),
{
    if s.len() == 0 {
        0
    } else if s[0] == c {
        0
    } else {
        1 + first_idx(s.drop_first(), c)
    }
}

/// `first_idx` is exactly the position with no earlier occurrence.
pub proof fn lemma_first_idx_is(s: Seq<char>, c: char, k: int)
    requires
        0 <= k <= s.len(),
        forall|i: int| 0 <= i < k ==> #[trigger] s[i] != c,
        k < s.len() ==> s[k] == c,
    ensures
        first_idx(s, c) == k,
    decreases s.len(),
{
    if s.len() == 0 {
    } else if k == 0 {
    } else {
        assert(s[0] != c);
        let t = s.drop_first();
        assert(forall|i: int| 0 <= i < k - 1 ==> #[trigger] t[i] != c) by {
            assert(forall|i: int| 0 <= i < k - 1 ==> t[i] == s[i + 1]);
        }
        if k - 1 < t.len() {
            assert(t[k - 1] == s[k]);
        }
        lemma_first_idx_is(t, c, k - 1);
    }
}

/// A non-empty dot-separated list of prerelease identifiers.
pub open spec fn is_prerelease_list(s: Seq<char>) -> bool
    decreases s.len(),
{
    let k = first_idx(s, '.');
    if 0 <= k && k < s.len() {
        is_prerelease_ident(s.take(k)) && is_prerelease_list(s.skip(k + 1))
    } else {
        is_prerelease_ident(s)
    }
}

/// A non-empty dot-separated list of build-metadata identifiers.
pub open spec fn is_build_list(s: Seq<char>) -> bool
    decreases s.len(),
{
    let k = first_idx(s, '.');
    if 0 <= k && k < s.len() {
        is_build_ident(s.take(k)) && is_build_list(s.skip(k + 1))
    } else {
        is_build_ident(s)
    }
}

/// `major.minor.patch`, three numeric identifiers.
pub open spec fn is_version_core(s: Seq<char>) -> bool {
    let k1 = first_idx(s, '.');
    0 <= k1 && k1 < s.len() && is_numeric_ident(s.take(k1)) && {
        let rest = s.skip(k1 + 1);
        let k2 = first_idx(rest, '.');
        0 <= k2 && k2 < rest.len() && is_numeric_ident(rest.take(k2)) && is_numeric_ident(
            rest.skip(k2 + 1),
        )
    }
}

/// The SemVer 2.0 grammar: a version core, an optional `-`-introduced
/// prerelease list, an optional `+`-introduced build-metadata list. The
/// build metadata starts at the first `+`; the prerelease starts at the
/// first `-` before it.
pub open spec fn is_valid_semver(s: Seq<char>) -> bool {
    let p = first_idx(s, '+');
    let head = if p < s.len() {
        s.take(p)
    } else {
        s
    };
    let build_ok = if p < s.len() {
        is_build_list(s.skip(p + 1))
    } else {
        true
    };
    let h = first_idx(head, '-');
    let core = if h < head.len() {
        head.take(h)
    } else {
        head
    };
    let pre_ok = if h < head.len() {
        is_prerelease_list(head.skip(h + 1))
    } else {
        true
    };
    is_version_core(core) && pre_ok && build_ok
}

fn is_digit_exec(c: char) -> (r: bool)
    ensures
        r == is_digit(c),
{
    '0' <= c && c <= '9'
}

fn is_nondigit_exec(c: char) -> (r: bool)
    ensures
        r == is_nondigit(c),
{
    c == '-' || ('A' <= c && c <= 'Z') || ('a' <= c && c <= 'z')
}

fn to_chars(s: &str) -> (v: Vec<char>)
    ensures
        v@ == s@,
{
    let n = s.unicode_len();
    let mut v: Vec<char> = Vec::new();
    let mut i: usize = 0;
    while i < n
        invariant
            n == s@.len(),
            0 <= i <= n,
            v@ == s@.take(i as int),
        decreases n - i,
    {
        v.push(s.get_char(i));
        proof {
            assert(s@.take(i as int).push(s@[i as int]) =~= s@.take(i as int + 1));
        }
        i = i + 1;
    }
    proof {
        assert(s@.take(n as int) =~= s@);
    }
    v
}

/// The first occurrence of `c` within `[lo, hi)` of `v`, or `hi`.
fn find_char(v: &Vec<char>, lo: usize, hi: usize, c: char) -> (r: usize)
    requires
        lo <= hi <= v@.len(),
    ensures
        lo <= r <= hi,
        r - lo == first_idx(v@.subrange(lo as int, hi as int), c),
        r < hi ==> v@[r as int] == c,
        forall|j: int| lo <= j < r ==> #[trigger] v@[j] != c,
{
    let ghost s = v@.subrange(lo as int, hi as int);
    let mut i: usize = lo;
    while i < hi
        invariant
            lo <= i <= hi <= v@.len(),
            s == v@.subrange(lo as int, hi as int),
            forall|j: int| lo <= j < i ==> #[trigger] v@[j] != c,
        decreases hi - i,
    {
        if v[i] == c {
            proof {
                assert(forall|j: int| 0 <= j < i - lo ==> #[trigger] s[j] != c);
                lemma_first_idx_is(s, c, i - lo);
            }
            return i;
        }
        i = i + 1;
    }
    proof {
        assert(forall|j: int| 0 <= j < hi - lo ==> #[trigger] s[j] != c);
        lemma_first_idx_is(s, c, (hi - lo) as int);
    }
    hi
}

/// Whether `[lo, hi)` of `v` is a numeric identifier.
fn check_numeric(v: &Vec<char>, lo: usize, hi: usize) -> (r: bool)
    requires
        lo <= hi <= v@.len(),
    ensures
        r == is_numeric_ident(v@.subrange(lo as int, hi as int)),
{
    let ghost s = v@.subrange(lo as int, hi as int);
    if lo == hi {
        return false;
    }
    let mut i: usize = lo;
    while i < hi
        invariant
            lo <= i <= hi <= v@.len(),
            s == v@.subrange(lo as int, hi as int),
            forall|j: int| lo <= j < i ==> is_digit(#[trigger] v@[j]),
        decreases hi - i,
    {
        if !is_digit_exec(v[i]) {
            assert(!all_digits(s)) by {
                assert(s[i - lo] == v@[i as int]);
            }
            return false;
        }
        i = i + 1;
    }
    assert(all_digits(s)) by {
        assert(forall|j: int| 0 <= j < s.len() ==> #[trigger] s[j] == v@[lo + j]);
    }
    if hi - lo > 1 && v[lo] == '0' {
        assert(s[0] == v@[lo as int]);
        return false;
    }
    assert(s[0] == v@[lo as int]);
    true
}

/// Whether `[lo, hi)` of `v` is a prerelease identifier (`pre` set) or a
/// build-metadata identifier (`pre` clear).
fn check_ident(v: &Vec<char>, lo: usize, hi: usize, pre: bool) -> (r: bool)
    requires
        lo <= hi <= v@.len(),
    ensures
        pre ==> r == is_prerelease_ident(v@.subrange(lo as int, hi as int)),
        !pre ==> r == is_build_ident(v@.subrange(lo as int, hi as int)),
{
    let ghost s = v@.subrange(lo as int, hi as int);
    proof {
        assert(forall|j: int| 0 <= j < s.len() ==> #[trigger] s[j] == v@[lo + j]);
    }
    if lo == hi {
        return false;
    }
    let mut i: usize = lo;
    let mut has_nondigit = false;
    while i < hi
        invariant
            lo <= i <= hi <= v@.len(),
            s == v@.subrange(lo as int, hi as int),
            forall|j: int| lo <= j < i ==> is_ident_char(#[trigger] v@[j]),
            has_nondigit == exists|j: int| lo <= j < i && is_nondigit(#[trigger] v@[j]),
        decreases hi - i,
    {
        let c = v[i];
        let nd = is_nondigit_exec(c);
        if !nd && !is_digit_exec(c) {
            assert(s[i - lo] == v@[i as int]);
            assert(!is_prerelease_ident(s) && !is_build_ident(s));
            return false;
        }
        if nd {
            has_nondigit = true;
        }
        i = i + 1;
    }
    assert(forall|j: int| 0 <= j < s.len() ==> is_ident_char(#[trigger] s[j]));
    if !pre {
        return true;
    }
    if has_nondigit {
        assert(is_alphanum_ident(s)) by {
            let j = choose|j: int| lo <= j < hi && is_nondigit(#[trigger] v@[j]);
            assert(s[j - lo] == v@[j]);
        }
        return true;
    }
    assert(!is_alphanum_ident(s)) by {
        if exists|j: int| 0 <= j < s.len() && is_nondigit(#[trigger] s[j]) {
            let j = choose|j: int| 0 <= j < s.len() && is_nondigit(#[trigger] s[j]);
            assert(v@[lo + j] == s[j]);
        }
    }
    assert(all_digits(s));
    if hi - lo > 1 && v[lo] == '0' {
        assert(s[0] == v@[lo as int]);
        return false;
    }
    assert(s[0] == v@[lo as int]);
    true
}

/// Whether `[lo, hi)` of `v` is a dot-separated identifier list, of
/// prerelease identifiers (`pre` set) or build-metadata identifiers.
fn check_list(v: &Vec<char>, lo: usize, hi: usize, pre: bool) -> (r: bool)
    requires
        lo <= hi <= v@.len(),
    ensures
        pre ==> r == is_prerelease_list(v@.subrange(lo as int, hi as int)),
        !pre ==> r == is_build_list(v@.subrange(lo as int, hi as int)),
{
    let ghost s0 = v@.subrange(lo as int, hi as int);
    let mut cur: usize = lo;
    loop
        invariant
            lo <= cur <= hi <= v@.len(),
            s0 == v@.subrange(lo as int, hi as int),
            pre ==> is_prerelease_list(s0) == is_prerelease_list(
                v@.subrange(cur as int, hi as int),
            ),
            !pre ==> is_build_list(s0) == is_build_list(v@.subrange(cur as int, hi as int)),
        decreases hi - cur,
    {
        let ghost s = v@.subrange(cur as int, hi as int);
        let k = find_char(v, cur, hi, '.');
        proof {
            assert(s.take(k - cur) =~= v@.subrange(cur as int, k as int));
        }
        if k < hi {
            proof {
                assert(s.skip(k - cur + 1) =~= v@.subrange(k as int + 1, hi as int));
            }
            if !check_ident(v, cur, k, pre) {
                return false;
            }
            cur = k + 1;
        } else {
            proof {
                assert(s.take(k - cur) =~= s);
            }
            return check_ident(v, cur, hi, pre);
        }
    }
}

/// Whether `[lo, hi)` of `v` is `major.minor.patch`.
fn check_version_core(v: &Vec<char>, lo: usize, hi: usize) -> (r: bool)
    requires
        lo <= hi <= v@.len(),
    ensures
        r == is_version_core(v@.subrange(lo as int, hi as int)),
{
    let ghost s = v@.subrange(lo as int, hi as int);
    let k1 = find_char(v, lo, hi, '.');
    if k1 == hi {
        return false;
    }
    proof {
        assert(s.take(k1 - lo) =~= v@.subrange(lo as int, k1 as int));
        assert(s.skip(k1 - lo + 1) =~= v@.subrange(k1 as int + 1, hi as int));
    }
    if !check_numeric(v, lo, k1) {
        return false;
    }
    let ghost rest = s.skip(k1 - lo + 1);
    let k2 = find_char(v, k1 + 1, hi, '.');
    if k2 == hi {
        return false;
    }
    proof {
        assert(rest.take(k2 - (k1 + 1)) =~= v@.subrange(k1 as int + 1, k2 as int));
        assert(rest.skip(k2 - (k1 + 1) + 1) =~= v@.subrange(k2 as int + 1, hi as int));
    }
    if !check_numeric(v, k1 + 1, k2) {
        return false;
    }
    check_numeric(v, k2 + 1, hi)
}

/// Whether a string matches the SemVer 2.0 grammar.
pub fn check_semver(input: &str) -> (r: bool)
    ensures
        r == is_valid_semver(input@),
{
    let v = to_chars(input);
    let n = v.len();
    proof {
        assert(v@.subrange(0, n as int) =~= v@);
    }
    let p = find_char(&v, 0, n, '+');
    proof {
        assert(first_idx(v@, '+') == first_idx(v@.subrange(0, n as int), '+'));
        if p < n {
            assert(v@.take(p as int) =~= v@.subrange(0, p as int));
        } else {
            assert(v@ =~= v@.subrange(0, p as int));
        }
    }
    let ghost head = if (p as int) < v@.len() {
        v@.take(p as int)
    } else {
        v@
    };
    proof {
        assert(head =~= v@.subrange(0, p as int));
    }
    let h = find_char(&v, 0, p, '-');
    proof {
        assert(first_idx(head, '-') == first_idx(v@.subrange(0, p as int), '-'));
        if h < p {
            assert(head.take(h as int) =~= v@.subrange(0, h as int));
            assert(head.skip(h as int + 1) =~= v@.subrange(h as int + 1, p as int));
        } else {
            assert(head =~= v@.subrange(0, h as int));
        }
    }
    let core_ok = check_version_core(&v, 0, h);
    if !core_ok {
        return false;
    }
    if h < p {
        if !check_list(&v, h + 1, p, true) {
            return false;
        }
    }
    if p < n {
        proof {
            assert(v@.skip(p as int + 1) =~= v@.subrange(p as int + 1, n as int));
        }
        if !check_list(&v, p + 1, n, false) {
            return false;
        }
    }
    true
}

/// `s` with one leading `v` removed.
pub open spec fn strip_v(s: Seq<char>) -> Seq<char> {
    if s.len() > 0 && s[0] == 'v' {
        s.drop_first()
    } else {
        s
    }
}

/// A doubled `v` prefix, the guarded-against typo.
pub open spec fn has_double_v(s: Seq<char>) -> bool {
    s.len() >= 2 && s[0] == 'v' && s[1] == 'v'
}

/// A parsed release version: the bare version string and the tag it is
/// released under. Immutable once parsed.
#[derive(Clone, Debug, PartialEq, Eq)]
pub struct ReleaseVersion {
    pub tag: String,
    pub version: String,
}

impl ReleaseVersion {
    /// The invariant of a parsed version: the tag is `v` followed by the
    /// version, and the version matches the SemVer grammar.
    pub open spec fn wf(self) -> bool {
        self.tag@ == seq!['v'] + self.version@ && is_valid_semver(self.version@)
    }
}

/// Parse and normalize an operator-supplied version string.
///
/// One leading `v` is stripped; a doubled `v` is rejected; the remainder
/// must match the SemVer 2.0 grammar. On success the version is the
/// stripped remainder verbatim and the tag is `v` plus the version.
pub fn normalize(input: &str) -> (r: Result<ReleaseVersion, ReleaseError>)
    ensures
        match r {
            Ok(rv) => !has_double_v(input@) && is_valid_semver(strip_v(input@)) && rv.wf()
                && rv.version@ == strip_v(input@),
            Err(e) => (has_double_v(input@) || !is_valid_semver(strip_v(input@))) && (e matches
            ReleaseError::InvalidVersion { input: orig } && orig@ == input@),
        },
{
    let n = input.unicode_len();
    let stripped: &str = if n > 0 && input.get_char(0) == 'v' {
        if n > 1 && input.get_char(1) == 'v' {
            return Err(ReleaseError::InvalidVersion { input: String::from_str(input) });
        }
        proof {
            assert(input@.subrange(1, n as int) =~= input@.drop_first());
        }
        input.substring_char(1, n)
    } else {
        input
    };
    assert(stripped@ == strip_v(input@));
    if !check_semver(stripped) {
        return Err(ReleaseError::InvalidVersion { input: String::from_str(input) });
    }
    let tag = concat2("v", stripped);
    proof {
        reveal_strlit("v");
        assert("v"@ =~= seq!['v']);
    }
    Ok(ReleaseVersion { tag, version: String::from_str(stripped) })
}

} // verus!
