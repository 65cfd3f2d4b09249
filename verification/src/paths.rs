//! Relative paths written with `/`, as Windows expects them.
use vstd::prelude::*;
use crate::text::chars_of;
use crate::text::string_of;

verus! {

/// `c`, with `/` turned into `\`.
pub open spec fn windows_separator(c: char) -> char {
    if c == '/' {
        '\\'
    } else {
        c
    }
}

/// `path` with every `/` turned into `\` (`str::replace('/', "\\")`).
pub open spec fn windows_path_spec(path: Seq<char>) -> Seq<char> {
    path.map_values(|c: char| windows_separator(c))
}

/// `path` with every `/` turned into `\`.
pub fn windows_path(path: &str) -> (t: String)
    ensures
        t@ == windows_path_spec(path@),
{
    let v = chars_of(path);
    let mut out: Vec<char> = Vec::new();
    let mut i: usize = 0;
    while i < v.len()
        invariant
            i <= v.len(),
            v@ == path@,
            out@ == windows_path_spec(v@.take(i as int)),
        decreases v.len() - i,
    {
        let c = if v[i] == '/' {
            '\\'
        } else {
            v[i]
        };
        out.push(c);
        assert(windows_path_spec(v@.take(i + 1)) =~= windows_path_spec(v@.take(i as int)).push(
            windows_separator(v@[i as int]),
        ));
        i += 1;
    }
    assert(v@.take(v.len() as int) =~= v@);
    string_of(out.as_slice())
}

} // verus!
