//! Text as a sequence of characters: searching, counting and replacing.
//!
//! Rust's `str` searches byte-wise, but a pattern that is itself valid UTF-8
//! can only match at character boundaries, so the character-level model used
//! here gives the same matches, counts and replacements.
use vstd::prelude::*;

verus! {

broadcast use vstd::string::axiom_spec_iter;

/// Appends one character to a string (`String::push`).
#[verifier::external_body]
fn push_char(s: &mut String, c: char)
    ensures
        final(s)@ == old(s)@.push(c),
{
    s.push(c);
}

/// The characters of `s`, in order.
pub fn chars_of(s: &str) -> (v: Vec<char>)
    ensures
        v@ == s@,
{
    let mut v: Vec<char> = Vec::new();
    for c in it: s.chars()
        invariant
            it.seq() == s@,
            v@ == it.seq().take(it.index()),
    {
        v.push(c);
    }
    v
}

/// The string made of the characters of `v`.
pub fn string_of(v: &[char]) -> (s: String)
    ensures
        s@ == v@,
{
    let mut s = String::new();
    let mut i: usize = 0;
    while i < v.len()
        invariant
            i <= v.len(),
            s@ == v@.take(i as int),
        decreases v.len() - i,
    {
        push_char(&mut s, v[i]);
        assert(v@.take(i + 1) =~= v@.take(i as int).push(v@[i as int]));
        i += 1;
    }
    assert(v@.take(v.len() as int) =~= v@);
    s
}

/// Appends `s[lo..hi]` to `v`.
pub fn push_range(v: &mut Vec<char>, s: &[char], lo: usize, hi: usize)
    requires
        lo <= hi <= s.len(),
    ensures
        final(v)@ == old(v)@ + s@.subrange(lo as int, hi as int),
{
    let mut k: usize = lo;
    while k < hi
        invariant
            lo <= k <= hi <= s.len(),
            v@ == old(v)@ + s@.subrange(lo as int, k as int),
        decreases hi - k,
    {
        v.push(s[k]);
        assert(s@.subrange(lo as int, k + 1) =~= s@.subrange(lo as int, k as int).push(s@[k as int]));
        k += 1;
    }
}

/// Appends all of `s` to `v`.
pub fn push_all(v: &mut Vec<char>, s: &[char])
    ensures
        final(v)@ == old(v)@ + s@,
{
    push_range(v, s, 0, s.len());
    assert(s@.subrange(0, s.len() as int) =~= s@);
}

/// Whether `a` and `b` hold the same characters.
pub fn chars_equal(a: &[char], b: &[char]) -> (r: bool)
    ensures
        r == (a@ == b@),
{
    if a.len() != b.len() {
        return false;
    }
    let mut i: usize = 0;
    while i < a.len()
        invariant
            a.len() == b.len(),
            i <= a.len(),
            forall|j: int| 0 <= j < i ==> a@[j] == b@[j],
        decreases a.len() - i,
    {
        if a[i] != b[i] {
            return false;
        }
        i += 1;
    }
    assert(a@ =~= b@);
    true
}

/// Whether `m` occurs in `s` at index `i`.
pub fn matches_at_exec(s: &[char], m: &[char], i: usize) -> (b: bool)
    ensures
        b == matches_at(s@, m@, i as int),
{
    if i > s.len() || m.len() > s.len() - i {
        return false;
    }
    let mut k: usize = 0;
    while k < m.len()
        invariant
            i + m.len() <= s.len(),
            k <= m.len(),
            forall|j: int| 0 <= j < k ==> s@[i + j] == m@[j],
        decreases m.len() - k,
    {
        if s[i + k] != m[k] {
            assert(s@.subrange(i as int, i + m.len())[k as int] != m@[k as int]);
            return false;
        }
        k += 1;
    }
    assert(s@.subrange(i as int, i + m.len()) =~= m@);
    true
}

/// The first occurrence of `m` in `s` at or after `from`.
pub fn find_from_exec(s: &[char], m: &[char], from: usize) -> (r: Option<usize>)
    ensures
        match r {
            Some(i) => find_from(s@, m@, from as int) == Some(i as int),
            None => find_from(s@, m@, from as int) is None,
        },
{
    let mut i: usize = from;
    while i <= s.len() && m.len() <= s.len() - i
        invariant
            from <= i,
            find_from(s@, m@, from as int) == find_from(s@, m@, i as int),
        decreases s.len() + 1 - i,
    {
        if matches_at_exec(s, m, i) {
            return Some(i);
        }
        proof {
            if m.len() == 0 {
                assert(s@.subrange(i as int, i as int) =~= m@);
            }
        }
        i += 1;
    }
    None
}

/// The last occurrence of `m` lying wholly inside `s[lo..hi]`.
pub fn rfind_within_exec(s: &[char], m: &[char], lo: usize, hi: usize) -> (r: Option<usize>)
    requires
        lo <= hi <= s.len(),
    ensures
        match r {
            Some(i) => rfind_within(s@, m@, lo as int, hi as int) == Some(i as int),
            None => rfind_within(s@, m@, lo as int, hi as int) is None,
        },
{
    if m.len() == 0 {
        assert(s@.subrange(hi as int, hi as int) =~= m@);
        return Some(hi);
    }
    let mut j: usize = hi;
    while j >= lo && j - lo >= m.len()
        invariant
            lo <= hi <= s.len(),
            j <= hi,
            m.len() > 0,
            rfind_within(s@, m@, lo as int, hi as int) == rfind_within(s@, m@, lo as int, j as int),
        decreases j,
    {
        if matches_at_exec(s, m, j - m.len()) {
            return Some(j - m.len());
        }
        j -= 1;
    }
    None
}

/// Number of non-overlapping occurrences of `m` in `s`.
pub fn count_matches_exec(s: &[char], m: &[char]) -> (n: usize)
    requires
        m.len() > 0 || s.len() < usize::MAX,
    ensures
        n == count_matches(s@, m@),
{
    if m.len() == 0 {
        return s.len() + 1;
    }
    let mut n: usize = 0;
    let mut pos: usize = 0;
    loop
        invariant
            m.len() > 0,
            pos <= s.len(),
            n <= pos,
            n + count_from(s@, m@, pos as int) == count_from(s@, m@, 0),
        decreases s.len() - pos,
    {
        proof {
            lemma_find_from(s@, m@, pos as int);
        }
        match find_from_exec(s, m, pos) {
            None => {
                return n;
            },
            Some(i) => {
                n += 1;
                pos = i + m.len();
            },
        }
    }
}

/// `s` with its first occurrence of `m` replaced by `r`.
pub fn replace_first_exec(s: &[char], m: &[char], r: &[char]) -> (t: Vec<char>)
    ensures
        t@ == replace_first(s@, m@, r@),
{
    proof {
        lemma_find_from(s@, m@, 0);
    }
    let mut t: Vec<char> = Vec::new();
    match find_from_exec(s, m, 0) {
        None => {
            push_all(&mut t, s);
        },
        Some(i) => {
            push_range(&mut t, s, 0, i);
            push_all(&mut t, r);
            push_range(&mut t, s, i + m.len(), s.len());
            assert(s@.take(i as int) =~= s@.subrange(0, i as int));
            assert(s@.skip(i + m.len()) =~= s@.subrange(i + m.len(), s.len() as int));
        },
    }
    t
}

/// `s` with every non-overlapping occurrence of the non-empty `m` replaced by `r`.
pub fn replace_all_exec(s: &[char], m: &[char], r: &[char]) -> (t: Vec<char>)
    requires
        m.len() > 0,
    ensures
        t@ == replace_all(s@, m@, r@),
{
    let mut t: Vec<char> = Vec::new();
    let mut pos: usize = 0;
    loop
        invariant
            m.len() > 0,
            pos <= s.len(),
            t@ + replace_all_from(s@, m@, r@, pos as int) == replace_all(s@, m@, r@),
        decreases s.len() - pos,
    {
        proof {
            lemma_find_from(s@, m@, pos as int);
        }
        match find_from_exec(s, m, pos) {
            None => {
                push_range(&mut t, s, pos, s.len());
                assert(s@.skip(pos as int) =~= s@.subrange(pos as int, s.len() as int));
                return t;
            },
            Some(i) => {
                let ghost before = t@;
                push_range(&mut t, s, pos, i);
                push_all(&mut t, r);
                assert(before + replace_all_from(s@, m@, r@, pos as int) =~= t@
                    + replace_all_from(s@, m@, r@, i + m.len()));
                pos = i + m.len();
            },
        }
    }
}

/// `m` occurs in `s` starting at character index `i`.
pub open spec fn matches_at(s: Seq<char>, m: Seq<char>, i: int) -> bool {
    &&& 0 <= i
    &&& i + m.len() <= s.len()
    &&& s.subrange(i, i + m.len()) == m
}

/// The first index `i >= from` at which `m` occurs in `s` (what `str::find`
/// gives on the suffix starting at `from`, shifted by `from`).
pub open spec fn find_from(s: Seq<char>, m: Seq<char>, from: int) -> Option<int>
    decreases s.len() + 1 - from,
{
    if from < 0 || from + m.len() > s.len() {
        None
    } else if matches_at(s, m, from) {
        Some(from)
    } else {
        find_from(s, m, from + 1)
    }
}

/// The first occurrence of `m` in `s` at or after `from` starts at `i`.
pub open spec fn first_match_from(s: Seq<char>, m: Seq<char>, from: int, i: int) -> bool {
    &&& from <= i
    &&& matches_at(s, m, i)
    &&& forall|j: int| from <= j < i ==> !#[trigger] matches_at(s, m, j)
}

/// `s` contains `m` somewhere.
pub open spec fn contains(s: Seq<char>, m: Seq<char>) -> bool {
    find_from(s, m, 0) is Some
}

/// The last index `i` with `lo <= i` and `i + m.len() <= hi` at which `m`
/// occurs in `s`: what `rfind` gives on the slice `s[lo..hi]`, shifted by `lo`.
pub open spec fn rfind_within(s: Seq<char>, m: Seq<char>, lo: int, hi: int) -> Option<int>
    decreases hi - lo + 1,
{
    if lo < 0 || hi > s.len() || hi - m.len() < lo {
        None
    } else if matches_at(s, m, hi - m.len()) {
        Some(hi - m.len())
    } else {
        rfind_within(s, m, lo, hi - 1)
    }
}

/// Number of non-overlapping occurrences of `m` in `s[from..]`, found left to
/// right (what `str::matches(..).count()` gives).  The empty pattern matches
/// at every character boundary.
pub open spec fn count_from(s: Seq<char>, m: Seq<char>, from: int) -> nat
    decreases s.len() + 1 - from,
{
    if from < 0 || from > s.len() {
        0
    } else if m.len() == 0 {
        (s.len() - from + 1) as nat
    } else {
        match find_from(s, m, from) {
            Some(i) => {
                if i >= from && i + m.len() <= s.len() {
                    1 + count_from(s, m, i + m.len())
                } else {
                    0
                }
            },
            None => 0,
        }
    }
}

/// Number of non-overlapping occurrences of `m` in `s`.
pub open spec fn count_matches(s: Seq<char>, m: Seq<char>) -> nat {
    count_from(s, m, 0)
}

/// `s` with its first occurrence of `m` replaced by `r` (`str::replacen(m, r, 1)`).
pub open spec fn replace_first(s: Seq<char>, m: Seq<char>, r: Seq<char>) -> Seq<char> {
    match find_from(s, m, 0) {
        Some(i) => s.take(i) + r + s.skip(i + m.len()),
        None => s,
    }
}

/// `s[from..]` with every non-overlapping occurrence of the non-empty `m`
/// replaced by `r`, left to right (`str::replace`).
pub open spec fn replace_all_from(s: Seq<char>, m: Seq<char>, r: Seq<char>, from: int) -> Seq<char>
    decreases s.len() + 1 - from,
{
    if from < 0 || from > s.len() || m.len() == 0 {
        s.skip(from)
    } else {
        match find_from(s, m, from) {
            Some(i) => {
                if i >= from && i + m.len() <= s.len() {
                    s.subrange(from, i) + r + replace_all_from(s, m, r, i + m.len())
                } else {
                    s.skip(from)
                }
            },
            None => s.skip(from),
        }
    }
}

/// `s` with every non-overlapping occurrence of the non-empty `m` replaced by `r`.
pub open spec fn replace_all(s: Seq<char>, m: Seq<char>, r: Seq<char>) -> Seq<char> {
    replace_all_from(s, m, r, 0)
}

/// What `find_from` returns is a match, at or after `from`, and no earlier
/// index from `from` on matches.
pub proof fn lemma_find_from(s: Seq<char>, m: Seq<char>, from: int)
    requires
        0 <= from,
    ensures
        match find_from(s, m, from) {
            Some(i) => from <= i && matches_at(s, m, i) && forall|j: int|
                from <= j < i ==> !#[trigger] matches_at(s, m, j),
            None => forall|j: int| from <= j ==> !#[trigger] matches_at(s, m, j),
        },
    decreases s.len() + 1 - from,
{
    if from + m.len() > s.len() {
    } else if matches_at(s, m, from) {
    } else {
        lemma_find_from(s, m, from + 1);
    }
}

/// What `rfind_within` returns is a match lying wholly inside `[lo, hi)`,
/// and no later match lies wholly inside it.
pub proof fn lemma_rfind_within(s: Seq<char>, m: Seq<char>, lo: int, hi: int)
    ensures
        rfind_within(s, m, lo, hi) matches Some(i) ==> lo <= i && i + m.len() <= hi
            && matches_at(s, m, i) && forall|j: int|
            i < j && j + m.len() <= hi ==> !#[trigger] matches_at(s, m, j),
    decreases hi - lo + 1,
{
    if lo < 0 || hi > s.len() || hi - m.len() < lo {
    } else if matches_at(s, m, hi - m.len()) {
    } else {
        lemma_rfind_within(s, m, lo, hi - 1);
    }
}

} // verus!
