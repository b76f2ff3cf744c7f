//! Small verified helpers over strings and characters that the rest of the
//! library builds on: concatenation, ASCII case folding, case-insensitive
//! substring search, token extraction and blank detection.

use vstd::prelude::*;

verus! {

use vstd::string::StringExecFns;
use vstd::string::StrSliceExecFns;

/// Concatenation of two string slices.
pub fn concat2(a: &str, b: &str) -> (r: String)
    ensures
        r@ == a@ + b@,
{
    let mut s = String::from_str(a);
    s.append(b);
    s
}

/// Concatenation of three string slices.
pub fn concat3(a: &str, b: &str, c: &str) -> (r: String)
    ensures
        r@ == a@ + b@ + c@,
{
    let mut s = String::from_str(a);
    s.append(b);
    s.append(c);
    s
}

/// ASCII whitespace, the separators git output is split on.
pub open spec fn is_space(c: char) -> bool {
    c == ' ' || c == '\t' || c == '\n' || c == '\r'
}

fn space_at(s: &str, i: usize) -> (r: bool)
    requires
        i < s@.len(),
    ensures
        r == is_space(s@[i as int]),
{
    is_space_exec(s.get_char(i))
}

fn is_space_exec(c: char) -> (r: bool)
    ensures
        r == is_space(c),
{
    c == ' ' || c == '\t' || c == '\n' || c == '\r'
}

/// ASCII lower-casing of a single character; other characters are unchanged.
pub open spec fn lower_char(c: char) -> char {
    match c {
        'A' => 'a',
        'B' => 'b',
        'C' => 'c',
        'D' => 'd',
        'E' => 'e',
        'F' => 'f',
        'G' => 'g',
        'H' => 'h',
        'I' => 'i',
        'J' => 'j',
        'K' => 'k',
        'L' => 'l',
        'M' => 'm',
        'N' => 'n',
        'O' => 'o',
        'P' => 'p',
        'Q' => 'q',
        'R' => 'r',
        'S' => 's',
        'T' => 't',
        'U' => 'u',
        'V' => 'v',
        'W' => 'w',
        'X' => 'x',
        'Y' => 'y',
        'Z' => 'z',
        _ => c,
    }
}

fn lower_char_exec(c: char) -> (r: char)
    ensures
        r == lower_char(c),
{
    match c {
        'A' => 'a',
        'B' => 'b',
        'C' => 'c',
        'D' => 'd',
        'E' => 'e',
        'F' => 'f',
        'G' => 'g',
        'H' => 'h',
        'I' => 'i',
        'J' => 'j',
        'K' => 'k',
        'L' => 'l',
        'M' => 'm',
        'N' => 'n',
        'O' => 'o',
        'P' => 'p',
        'Q' => 'q',
        'R' => 'r',
        'S' => 's',
        'T' => 't',
        'U' => 'u',
        'V' => 'v',
        'W' => 'w',
        'X' => 'x',
        'Y' => 'y',
        'Z' => 'z',
        _ => c,
    }
}

/// ASCII lower-casing of a whole character sequence.
pub open spec fn lower_seq(s: Seq<char>) -> Seq<char> {
    s.map_values(|c: char| lower_char(c))
}

/// Whether `needle` occurs in `hay` when both are compared after ASCII
/// lower-casing.
pub open spec fn contains_ci_seq(hay: Seq<char>, needle: Seq<char>) -> bool {
    exists|i: int|
        0 <= i && i + needle.len() <= hay.len() && #[trigger] lower_seq(hay).subrange(
            i,
            i + needle.len() as int,
        ) == lower_seq(needle)
}

fn match_ci_at(hay: &str, needle: &str, i: usize, hlen: usize, nlen: usize) -> (r: bool)
    requires
        hlen == hay@.len(),
        nlen == needle@.len(),
        i + nlen <= hlen,
    ensures
        r == (lower_seq(hay@).subrange(i as int, i as int + needle@.len() as int) == lower_seq(
            needle@,
        )),
{
    let ghost lh = lower_seq(hay@);
    let ghost ln = lower_seq(needle@);
    let mut k: usize = 0;
    while k < nlen
        invariant
            hlen == hay@.len(),
            nlen == needle@.len(),
            i + nlen <= hlen,
            0 <= k <= nlen,
            lh == lower_seq(hay@),
            ln == lower_seq(needle@),
            forall|j: int| 0 <= j < k ==> lh[i + j] == ln[j],
        decreases nlen - k,
    {
        let hc = lower_char_exec(hay.get_char(i + k));
        let nc = lower_char_exec(needle.get_char(k));
        if hc != nc {
            assert(lh[i + k as int] != ln[k as int]);
            assert(lh.subrange(i as int, i as int + nlen as int) != ln) by {
                assert(lh.subrange(i as int, i as int + nlen as int)[k as int] == lh[i + k as int]);
            }
            return false;
        }
        k = k + 1;
    }
    assert(lh.subrange(i as int, i as int + nlen as int) =~= ln);
    true
}

/// Case-insensitive (ASCII) substring test.
pub fn contains_ci(hay: &str, needle: &str) -> (r: bool)
    ensures
        r == contains_ci_seq(hay@, needle@),
{
    let hlen = hay.unicode_len();
    let nlen = needle.unicode_len();
    if nlen > hlen {
        assert(!contains_ci_seq(hay@, needle@));
        return false;
    }
    if nlen == 0 {
        proof {
            let z: int = 0;
            assert(lower_seq(hay@).subrange(z, z + needle@.len() as int) =~= lower_seq(needle@));
        }
        return true;
    }
    let mut i: usize = 0;
    while i <= hlen - nlen
        invariant
            hlen == hay@.len(),
            nlen == needle@.len(),
            1 <= nlen <= hlen,
            0 <= i <= hlen - nlen + 1,
            forall|j: int|
                0 <= j < i ==> #[trigger] lower_seq(hay@).subrange(j, j + needle@.len() as int)
                    != lower_seq(needle@),
        decreases hlen - nlen - i + 1,
    {
        if match_ci_at(hay, needle, i, hlen, nlen) {
            assert(contains_ci_seq(hay@, needle@));
            return true;
        }
        i = i + 1;
    }
    assert(!contains_ci_seq(hay@, needle@));
    false
}

/// Exact equality of two string slices.
pub fn str_eq(a: &str, b: &str) -> (r: bool)
    ensures
        r == (a@ == b@),
{
    let alen = a.unicode_len();
    let blen = b.unicode_len();
    if alen != blen {
        assert(a@ != b@);
        return false;
    }
    let mut i: usize = 0;
    while i < alen
        invariant
            alen == a@.len(),
            blen == b@.len(),
            alen == blen,
            0 <= i <= alen,
            forall|j: int| 0 <= j < i ==> a@[j] == b@[j],
        decreases alen - i,
    {
        if a.get_char(i) != b.get_char(i) {
            return false;
        }
        i = i + 1;
    }
    assert(a@ =~= b@);
    true
}

/// Whether a string consists of whitespace only (so a display layer may
/// suppress it).
pub open spec fn is_blank(s: Seq<char>) -> bool {
    forall|i: int| 0 <= i < s.len() ==> is_space(s[i])
}

pub fn blank(s: &str) -> (r: bool)
    ensures
        r == is_blank(s@),
{
    let n = s.unicode_len();
    let mut i: usize = 0;
    while i < n
        invariant
            n == s@.len(),
            0 <= i <= n,
            forall|j: int| 0 <= j < i ==> is_space(s@[j]),
        decreases n - i,
    {
        if !is_space_exec(s.get_char(i)) {
            return false;
        }
        i = i + 1;
    }
    true
}

/// The first whitespace-separated token of a string, after any leading
/// whitespace; empty when the string holds no token.
pub open spec fn spec_first_token(s: Seq<char>) -> Seq<char>
    decreases s.len(),
{
    if s.len() == 0 {
        Seq::empty()
    } else if is_space(s[0]) {
        spec_first_token(s.drop_first())
    } else {
        spec_token_head(s)
    }
}

/// The maximal whitespace-free prefix of a string.
pub open spec fn spec_token_head(s: Seq<char>) -> Seq<char>
    decreases s.len(),
{
    if s.len() == 0 || is_space(s[0]) {
        Seq::empty()
    } else {
        seq![s[0]] + spec_token_head(s.drop_first())
    }
}

pub fn first_token(s: &str) -> (r: String)
    ensures
        r@ == spec_first_token(s@),
{
    let n = s.unicode_len();
    proof {
        assert(s@.skip(0) =~= s@);
    }
    let mut i: usize = 0;
    while i < n && space_at(s, i)
        invariant
            n == s@.len(),
            0 <= i <= n,
            spec_first_token(s@) == spec_first_token(s@.skip(i as int)),
        decreases n - i,
    {
        proof {
            assert(s@.skip(i as int).drop_first() =~= s@.skip(i as int + 1));
        }
        i = i + 1;
    }
    if i == n {
        proof {
            assert(s@.skip(i as int) =~= Seq::<char>::empty());
        }
        return String::new();
    }
    let mut j: usize = i;
    while j < n && !space_at(s, j)
        invariant
            n == s@.len(),
            0 <= i <= j <= n,
            spec_first_token(s@) == spec_token_head(s@.skip(i as int)),
            spec_token_head(s@.skip(i as int)) == s@.subrange(i as int, j as int) + spec_token_head(
                s@.skip(j as int),
            ),
        decreases n - j,
    {
        proof {
            let t = s@.skip(j as int);
            assert(t[0] == s@[j as int]);
            assert(t.drop_first() =~= s@.skip(j as int + 1));
            assert(s@.subrange(i as int, j as int) + seq![s@[j as int]] =~= s@.subrange(
                i as int,
                j as int + 1,
            ));
            assert(s@.subrange(i as int, j as int) + (seq![t[0]] + spec_token_head(t.drop_first()))
                =~= s@.subrange(i as int, j as int + 1) + spec_token_head(s@.skip(j as int + 1)));
        }
        j = j + 1;
    }
    proof {
        let t = s@.skip(j as int);
        if j == n {
            assert(t =~= Seq::<char>::empty());
        }
        assert(spec_token_head(t) =~= Seq::<char>::empty());
        assert(s@.subrange(i as int, j as int) + Seq::<char>::empty() =~= s@.subrange(
            i as int,
            j as int,
        ));
    }
    let tok = s.substring_char(i, j);
    String::from_str(tok)
}

} // verus!
