//! White space and trimming, as `char::is_whitespace` and `str::trim` define them.
use vstd::prelude::*;
use crate::text::chars_of;
use crate::text::push_range;
use crate::text::string_of;

verus! {

/// `c` has the Unicode `White_Space` property (`char::is_whitespace`).
pub open spec fn is_whitespace(c: char) -> bool {
    ||| '\u{9}' <= c && c <= '\u{d}'
    ||| c == ' '
    ||| c == '\u{85}'
    ||| c == '\u{a0}'
    ||| c == '\u{1680}'
    ||| '\u{2000}' <= c && c <= '\u{200a}'
    ||| c == '\u{2028}'
    ||| c == '\u{2029}'
    ||| c == '\u{202f}'
    ||| c == '\u{205f}'
    ||| c == '\u{3000}'
}

/// Whether `c` is white space.
pub fn is_whitespace_exec(c: char) -> (b: bool)
    ensures
        b == is_whitespace(c),
{
    ('\u{9}' <= c && c <= '\u{d}') || c == ' ' || c == '\u{85}' || c == '\u{a0}' || c
        == '\u{1680}' || ('\u{2000}' <= c && c <= '\u{200a}') || c == '\u{2028}' || c
        == '\u{2029}' || c == '\u{202f}' || c == '\u{205f}' || c == '\u{3000}'
}

/// The number of white-space characters at the start of `s`.
pub open spec fn leading_whitespace(s: Seq<char>) -> nat
    decreases s.len(),
{
    if s.len() > 0 && is_whitespace(s[0]) {
        1 + leading_whitespace(s.drop_first())
    } else {
        0
    }
}

/// The number of white-space characters at the end of `s`.
pub open spec fn trailing_whitespace(s: Seq<char>) -> nat
    decreases s.len(),
{
    if s.len() > 0 && is_whitespace(s.last()) {
        1 + trailing_whitespace(s.drop_last())
    } else {
        0
    }
}

/// `s` without its leading white space (`str::trim_start`).
pub open spec fn trim_start(s: Seq<char>) -> Seq<char> {
    s.skip(leading_whitespace(s) as int)
}

/// `s` without its trailing white space (`str::trim_end`).
pub open spec fn trim_end(s: Seq<char>) -> Seq<char> {
    s.take(s.len() - trailing_whitespace(s))
}

/// `s` without white space at either end (`str::trim`).
pub open spec fn trim(s: Seq<char>) -> Seq<char> {
    trim_end(trim_start(s))
}

proof fn lemma_leading_whitespace(s: Seq<char>, i: int)
    requires
        0 <= i <= s.len(),
        forall|j: int| 0 <= j < i ==> is_whitespace(#[trigger] s[j]),
    ensures
        leading_whitespace(s) >= i,
        leading_whitespace(s) <= s.len(),
        i < s.len() && !is_whitespace(s[i]) ==> leading_whitespace(s) == i,
        i == s.len() ==> leading_whitespace(s) == i,
    decreases i,
{
    if i > 0 {
        let rest = s.drop_first();
        assert forall|j: int| 0 <= j < i - 1 implies is_whitespace(#[trigger] rest[j]) by {
            assert(rest[j] == s[j + 1]);
        }
        lemma_leading_whitespace(rest, i - 1);
        if i < s.len() {
            assert(rest[i - 1] == s[i]);
        }
    } else {
        lemma_leading_bound(s);
    }
}

/// At most all of `s` is leading white space.
pub proof fn lemma_leading_bound(s: Seq<char>)
    ensures
        leading_whitespace(s) <= s.len(),
    decreases s.len(),
{
    if s.len() > 0 {
        lemma_leading_bound(s.drop_first());
    }
}

proof fn lemma_trailing_whitespace(s: Seq<char>, n: int)
    requires
        0 <= n <= s.len(),
        forall|j: int| s.len() - n <= j < s.len() ==> is_whitespace(#[trigger] s[j]),
    ensures
        trailing_whitespace(s) >= n,
        trailing_whitespace(s) <= s.len(),
        n < s.len() && !is_whitespace(s[s.len() - n - 1]) ==> trailing_whitespace(s) == n,
        n == s.len() ==> trailing_whitespace(s) == n,
    decreases n,
{
    if n > 0 {
        let rest = s.drop_last();
        assert forall|j: int| rest.len() - (n - 1) <= j < rest.len() implies is_whitespace(
            #[trigger] rest[j],
        ) by {
            assert(rest[j] == s[j]);
        }
        lemma_trailing_whitespace(rest, n - 1);
    } else {
        lemma_trailing_bound(s);
    }
}

proof fn lemma_trailing_bound(s: Seq<char>)
    ensures
        trailing_whitespace(s) <= s.len(),
    decreases s.len(),
{
    if s.len() > 0 {
        lemma_trailing_bound(s.drop_last());
    }
}

/// The number of white-space characters at the start of `s`.
pub fn leading_whitespace_exec(s: &[char]) -> (n: usize)
    ensures
        n == leading_whitespace(s@),
{
    let mut i: usize = 0;
    while i < s.len() && is_whitespace_exec(s[i])
        invariant
            i <= s.len(),
            forall|j: int| 0 <= j < i ==> is_whitespace(#[trigger] s@[j]),
        decreases s.len() - i,
    {
        i += 1;
    }
    proof {
        lemma_leading_whitespace(s@, i as int);
    }
    i
}

/// The number of white-space characters at the end of `s`.
pub fn trailing_whitespace_exec(s: &[char]) -> (n: usize)
    ensures
        n == trailing_whitespace(s@),
{
    let mut n: usize = 0;
    while n < s.len() && is_whitespace_exec(s[s.len() - n - 1])
        invariant
            n <= s.len(),
            forall|j: int| s.len() - n <= j < s.len() ==> is_whitespace(#[trigger] s@[j]),
        decreases s.len() - n,
    {
        n += 1;
    }
    proof {
        lemma_trailing_whitespace(s@, n as int);
    }
    n
}

/// `s` without white space at either end.
pub fn trim_chars(s: &[char]) -> (t: Vec<char>)
    ensures
        t@ == trim(s@),
{
    let lead = leading_whitespace_exec(s);
    proof {
        lemma_leading_bound(s@);
    }
    let mut rest: Vec<char> = Vec::new();
    push_range(&mut rest, s, lead, s.len());
    assert(rest@ =~= trim_start(s@));
    let trail = trailing_whitespace_exec(rest.as_slice());
    proof {
        lemma_trailing_bound(rest@);
    }
    let mut t: Vec<char> = Vec::new();
    push_range(&mut t, rest.as_slice(), 0, rest.len() - trail);
    assert(t@ =~= trim(s@));
    t
}

/// `s` without white space at either end (`str::trim`).
pub fn trim_str(s: &str) -> (t: String)
    ensures
        t@ == trim(s@),
{
    let v = chars_of(s);
    let t = trim_chars(v.as_slice());
    string_of(t.as_slice())
}

} // verus!
