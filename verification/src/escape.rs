//! Values put inside single-quoted PowerShell string literals.
use vstd::prelude::*;
use crate::text::chars_of;
use crate::text::find_from;
use crate::text::lemma_find_from;
use crate::text::matches_at;
use crate::text::replace_all;
use crate::text::replace_all_from;
use crate::text::string_of;

verus! {

/// `c` ends a single-quoted PowerShell literal unless doubled: the ASCII
/// apostrophe and the typographic single quotes U+2018 to U+201B.
pub open spec fn is_quote_char(c: char) -> bool {
    c == '\'' || c == '\u{2018}' || c == '\u{2019}' || c == '\u{201A}' || c == '\u{201B}'
}

/// `s` with every `'` doubled (`str::replace('\'', "''")`).
pub open spec fn escape_quotes(s: Seq<char>) -> Seq<char>
    decreases s.len(),
{
    if s.len() == 0 {
        Seq::empty()
    } else if s[0] == '\'' {
        seq!['\'', '\''] + escape_quotes(s.drop_first())
    } else {
        seq![s[0]] + escape_quotes(s.drop_first())
    }
}

/// The value PowerShell reads from a single-quoted literal whose body is `t`,
/// or `None` when a lone quote character in `t` would end the literal early.
pub open spec fn single_quoted_value(t: Seq<char>) -> Option<Seq<char>>
    decreases t.len(),
{
    if t.len() == 0 {
        Some(Seq::empty())
    } else if is_quote_char(t[0]) {
        if t.len() >= 2 && is_quote_char(t[1]) {
            match single_quoted_value(t.skip(2)) {
                Some(v) => Some(seq![t[0]] + v),
                None => None,
            }
        } else {
            None
        }
    } else {
        match single_quoted_value(t.drop_first()) {
            Some(v) => Some(seq![t[0]] + v),
            None => None,
        }
    }
}

proof fn lemma_escape_append(a: Seq<char>, c: char)
    ensures
        escape_quotes(a.push(c)) == escape_quotes(a) + escape_quotes(seq![c]),
    decreases a.len(),
{
    if a.len() == 0 {
        assert(a.push(c) =~= seq![c]);
    } else {
        lemma_escape_append(a.drop_first(), c);
        assert(a.push(c).drop_first() =~= a.drop_first().push(c));
        assert(a.push(c)[0] == a[0]);
        assert(seq![c].drop_first() =~= Seq::<char>::empty());
    }
}

/// A value with every `'` doubled, put between single quotes, is read back by
/// PowerShell as that value, as long as it holds no typographic single quote
/// (which PowerShell also treats as a quote and which is not doubled).
pub proof fn lemma_escape_round_trip(s: Seq<char>)
    requires
        forall|i: int| 0 <= i < s.len() ==> (#[trigger] s[i] == '\'' || !is_quote_char(s[i])),
    ensures
        single_quoted_value(escape_quotes(s)) == Some(s),
    decreases s.len(),
{
    if s.len() > 0 {
        let rest = s.drop_first();
        assert forall|i: int| 0 <= i < rest.len() implies (#[trigger] rest[i] == '\''
            || !is_quote_char(rest[i])) by {
            assert(rest[i] == s[i + 1]);
        }
        lemma_escape_round_trip(rest);
        let t = escape_quotes(s);
        if s[0] == '\'' {
            assert(t.skip(2) =~= escape_quotes(rest));
            assert(seq![t[0]] + rest =~= s);
        } else {
            assert(t.drop_first() =~= escape_quotes(rest));
            assert(seq![t[0]] + rest =~= s);
        }
    }
}

/// `s` with every `'` doubled.
fn escape_quotes_exec(s: &str) -> (t: String)
    ensures
        t@ == escape_quotes(s@),
{
    let v = chars_of(s);
    let mut out: Vec<char> = Vec::new();
    let mut i: usize = 0;
    while i < v.len()
        invariant
            i <= v.len(),
            v@ == s@,
            out@ == escape_quotes(v@.take(i as int)),
        decreases v.len() - i,
    {
        let c = v[i];
        proof {
            lemma_escape_append(v@.take(i as int), c);
            assert(v@.take(i + 1) =~= v@.take(i as int).push(c));
            assert(seq![c].drop_first() =~= Seq::<char>::empty());
            assert(escape_quotes(Seq::<char>::empty()) =~= Seq::<char>::empty());
            if c == '\'' {
                assert(escape_quotes(seq![c]) =~= seq!['\'', '\'']);
            } else {
                assert(escape_quotes(seq![c]) =~= seq![c]);
            }
        }
        if c == '\'' {
            out.push('\'');
            out.push('\'');
        } else {
            out.push(c);
        }
        i += 1;
    }
    assert(v@.take(v.len() as int) =~= v@);
    string_of(out.as_slice())
}

/// A path, as displayed, made safe to put between single quotes in a
/// PowerShell script: every `'` is doubled.
pub fn escape_powershell(path: &str) -> (t: String)
    ensures
        t@ == escape_quotes(path@),
{
    escape_quotes_exec(path)
}

/// Text made safe to put between single quotes in a PowerShell script:
/// every `'` is doubled.
pub fn escape_powershell_text(value: &str) -> (t: String)
    ensures
        t@ == escape_quotes(value@),
{
    escape_quotes_exec(value)
}

/// The number of times `c` occurs in `s`.
pub open spec fn count_char(s: Seq<char>, c: char) -> nat
    decreases s.len(),
{
    if s.len() == 0 {
        0
    } else {
        (if s[0] == c {
            1nat
        } else {
            0nat
        }) + count_char(s.drop_first(), c)
    }
}

/// The number of `'` at the start of `t`.
pub open spec fn leading_quotes(t: Seq<char>) -> nat
    decreases t.len(),
{
    if t.len() > 0 && t[0] == '\'' {
        1 + leading_quotes(t.drop_first())
    } else {
        0
    }
}

/// Every maximal run of `'` in `t` has even length.
pub open spec fn quote_runs_even(t: Seq<char>) -> bool {
    forall|i: int|
        0 <= i < t.len() && t[i] == '\'' && (i == 0 || t[i - 1] != '\'') ==> #[trigger] leading_quotes(
            t.skip(i),
        ) % 2 == 0
}

/// Read from the start, the `'` in `t` come in adjacent pairs.
spec fn quotes_paired(t: Seq<char>) -> bool
    decreases t.len(),
{
    if t.len() == 0 {
        true
    } else if t[0] != '\'' {
        quotes_paired(t.drop_first())
    } else {
        t.len() >= 2 && t[1] == '\'' && quotes_paired(t.skip(2))
    }
}

proof fn lemma_escape_paired(s: Seq<char>)
    ensures
        quotes_paired(escape_quotes(s)),
    decreases s.len(),
{
    if s.len() > 0 {
        lemma_escape_paired(s.drop_first());
        let t = escape_quotes(s);
        if s[0] == '\'' {
            assert(t.skip(2) =~= escape_quotes(s.drop_first()));
        } else {
            assert(t.drop_first() =~= escape_quotes(s.drop_first()));
        }
    }
}

proof fn lemma_paired_from_run_start(t: Seq<char>, i: int)
    requires
        quotes_paired(t),
        0 <= i <= t.len(),
        i == 0 || t[i - 1] != '\'',
    ensures
        quotes_paired(t.skip(i)),
    decreases t.len(),
{
    if i == 0 {
        assert(t.skip(0) =~= t);
    } else if t[0] != '\'' {
        let u = t.drop_first();
        if i > 1 {
            assert(u[i - 2] == t[i - 1]);
        }
        lemma_paired_from_run_start(u, i - 1);
        assert(u.skip(i - 1) =~= t.skip(i));
    } else {
        let u = t.skip(2);
        assert(i >= 2);
        if i > 2 {
            assert(u[i - 3] == t[i - 1]);
        }
        lemma_paired_from_run_start(u, i - 2);
        assert(u.skip(i - 2) =~= t.skip(i));
    }
}

proof fn lemma_paired_run_even(u: Seq<char>)
    requires
        quotes_paired(u),
    ensures
        leading_quotes(u) % 2 == 0,
    decreases u.len(),
{
    if u.len() > 0 && u[0] == '\'' {
        let w = u.skip(2);
        assert(u.drop_first().drop_first() =~= w);
        assert(u.drop_first()[0] == '\'');
        assert(leading_quotes(u.drop_first()) == 1 + leading_quotes(u.drop_first().drop_first()));
        assert(leading_quotes(u) == 2 + leading_quotes(w));
        lemma_paired_run_even(w);
    }
}

proof fn lemma_escape_len(s: Seq<char>)
    ensures
        escape_quotes(s).len() == s.len() + count_char(s, '\''),
    decreases s.len(),
{
    if s.len() > 0 {
        lemma_escape_len(s.drop_first());
    }
}

proof fn lemma_replace_all_step(t: Seq<char>, m: Seq<char>, r: Seq<char>, from: int)
    requires
        m.len() > 0,
        0 <= from < t.len(),
        !matches_at(t, m, from),
    ensures
        replace_all_from(t, m, r, from) == seq![t[from]] + replace_all_from(t, m, r, from + 1),
{
    lemma_find_from(t, m, from + 1);
    assert(t.skip(from) =~= seq![t[from]] + t.skip(from + 1));
    if from + m.len() <= t.len() {
        assert(find_from(t, m, from) == find_from(t, m, from + 1));
        if let Some(i) = find_from(t, m, from + 1) {
            assert(t.subrange(from, i) =~= seq![t[from]] + t.subrange(from + 1, i));
        }
    }
}

proof fn lemma_unescape_from(p: Seq<char>, s: Seq<char>)
    ensures
        replace_all_from(p + escape_quotes(s), seq!['\'', '\''], seq!['\''], p.len() as int) == s,
    decreases s.len(),
{
    let m = seq!['\'', '\''];
    let r = seq!['\''];
    let t = p + escape_quotes(s);
    if s.len() == 0 {
        assert(t =~= p);
        assert(t.skip(p.len() as int) =~= s);
    } else {
        let rest = s.drop_first();
        if s[0] == '\'' {
            let p2 = p + seq!['\'', '\''];
            assert(t =~= p2 + escape_quotes(rest));
            assert(t.subrange(p.len() as int, p.len() + 2int) =~= m);
            assert(matches_at(t, m, p.len() as int));
            lemma_unescape_from(p2, rest);
            assert(t.subrange(p.len() as int, p.len() as int) =~= Seq::<char>::empty());
            assert(seq!['\''] + rest =~= s);
        } else {
            let p2 = p.push(s[0]);
            assert(t =~= p2 + escape_quotes(rest));
            assert(t[p.len() as int] == s[0]);
            lemma_replace_all_step(t, m, r, p.len() as int);
            lemma_unescape_from(p2, rest);
            assert(seq![s[0]] + rest =~= s);
        }
    }
}

/// What `escape_powershell_text` gives back: replacing each `''` by `'`
/// (`str::replace`) yields the value again; it is one character longer per
/// `'` of the value; and every run of `'` in it has even length, so none of
/// them ends a single-quoted PowerShell literal.
pub proof fn lemma_escape_quotes_laws(s: Seq<char>)
    ensures
        replace_all(escape_quotes(s), seq!['\'', '\''], seq!['\'']) == s,
        escape_quotes(s).len() == s.len() + count_char(s, '\''),
        quote_runs_even(escape_quotes(s)),
{
    lemma_unescape_from(Seq::empty(), s);
    assert(Seq::<char>::empty() + escape_quotes(s) =~= escape_quotes(s));
    lemma_escape_len(s);
    let t = escape_quotes(s);
    lemma_escape_paired(s);
    assert forall|i: int|
        0 <= i < t.len() && t[i] == '\'' && (i == 0 || t[i - 1] != '\'') implies #[trigger] leading_quotes(
        t.skip(i),
    ) % 2 == 0 by {
        lemma_paired_from_run_start(t, i);
        lemma_paired_run_even(t.skip(i));
    }
}

} // verus!
