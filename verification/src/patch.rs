//! Patching source text at markers that must occur exactly once.
//!
//! A patch either applies in full or leaves the text as it was and reports
//! the file and what was wrong with it, so a changed upstream source stops
//! the installer instead of being patched in the wrong place.
use vstd::prelude::*;
use crate::number::decimal;
use crate::number::push_decimal;
use crate::text::chars_of;
use crate::text::count_from;
use crate::text::count_matches;
use crate::text::count_matches_exec;
use crate::text::find_from;
use crate::text::lemma_find_from;
use crate::text::matches_at;
use crate::text::replace_first;
use crate::text::replace_first_exec;
use crate::text::string_of;

verus! {

/// What was wrong with a source file that could not be patched.
#[derive(Clone, Copy, Debug, PartialEq, Eq, Structural)]
pub enum PatchErrorKind {
    /// A marker occurred this many times instead of once.
    MarkerCount(u128),
    /// The update check of the bootstrapper is missing.
    MissingUpdateMethod,
    /// The `try` block of the update check is missing.
    MissingUpdateBlock,
    /// The `catch` clause of the update check is missing.
    MissingUpdateErrorBlock,
    /// Nothing closes the `try` block before its `catch` clause.
    MissingUpdateBlockEnd,
    /// The settings class is missing.
    MissingSettingsClass,
    /// The settings class has no body.
    MissingSettingsBody,
}

/// A source file that could not be patched, and why.
#[derive(Debug)]
pub struct PatchError {
    /// The file, as shown to the user.
    pub path: String,
    /// What was wrong with it.
    pub kind: PatchErrorKind,
}

/// The text of the report for `kind` in the file `path`.
pub open spec fn error_message(kind: PatchErrorKind, path: Seq<char>) -> Seq<char> {
    match kind {
        PatchErrorKind::MarkerCount(n) => "expected one source marker in "@ + path + ", found "@
            + decimal(n as nat),
        PatchErrorKind::MissingUpdateMethod => "couldn't find the update method in "@ + path,
        PatchErrorKind::MissingUpdateBlock => "couldn't find the update block in "@ + path,
        PatchErrorKind::MissingUpdateErrorBlock => "couldn't find the update error block in "@
            + path,
        PatchErrorKind::MissingUpdateBlockEnd => "couldn't find the end of the update block in "@
            + path,
        PatchErrorKind::MissingSettingsClass => "couldn't find the Settings class in "@ + path,
        PatchErrorKind::MissingSettingsBody => "couldn't find the Settings class body in "@ + path,
    }
}

impl PatchError {
    /// The report shown to the user.
    pub fn message(&self) -> (s: String)
        ensures
            s@ == error_message(self.kind, self.path@),
    {
        let mut s = match self.kind {
            PatchErrorKind::MarkerCount(_) => String::from_str("expected one source marker in "),
            PatchErrorKind::MissingUpdateMethod => String::from_str(
                "couldn't find the update method in ",
            ),
            PatchErrorKind::MissingUpdateBlock => String::from_str(
                "couldn't find the update block in ",
            ),
            PatchErrorKind::MissingUpdateErrorBlock => String::from_str(
                "couldn't find the update error block in ",
            ),
            PatchErrorKind::MissingUpdateBlockEnd => String::from_str(
                "couldn't find the end of the update block in ",
            ),
            PatchErrorKind::MissingSettingsClass => String::from_str(
                "couldn't find the Settings class in ",
            ),
            PatchErrorKind::MissingSettingsBody => String::from_str(
                "couldn't find the Settings class body in ",
            ),
        };
        s.append(self.path.as_str());
        if let PatchErrorKind::MarkerCount(n) = self.kind {
            s.append(", found ");
            let mut digits: Vec<char> = Vec::new();
            push_decimal(&mut digits, n);
            assert(digits@ =~= decimal(n as nat));
            let d = string_of(digits.as_slice());
            s.append(d.as_str());
        }
        s
    }
}

/// Replacing the single occurrence of `m` in `s` by `r`, or the error when
/// `m` does not occur exactly once.
pub open spec fn replace_once_spec(s: Seq<char>, m: Seq<char>, r: Seq<char>) -> Result<
    Seq<char>,
    PatchErrorKind,
> {
    if count_matches(s, m) == 1 {
        Ok(replace_first(s, m, r))
    } else {
        Err(PatchErrorKind::MarkerCount(count_matches(s, m) as u128))
    }
}

/// Applying `first` and then, if it succeeded, `then` to its result.
pub open spec fn and_then(
    first: Result<Seq<char>, PatchErrorKind>,
    then: spec_fn(Seq<char>) -> Result<Seq<char>, PatchErrorKind>,
) -> Result<Seq<char>, PatchErrorKind> {
    match first {
        Ok(s) => then(s),
        Err(e) => Err(e),
    }
}

/// A patch of the text `before`, reporting errors in the file `path`, ended
/// with `r` and left `after`, as `expected` says: the patched text on
/// success, and on failure the error and the text unchanged.
pub open spec fn patched_as(
    before: Seq<char>,
    after: Seq<char>,
    path: Seq<char>,
    r: Result<(), PatchError>,
    expected: Result<Seq<char>, PatchErrorKind>,
) -> bool {
    match expected {
        Ok(t) => r is Ok && after == t,
        Err(k) => r matches Err(e) && e.path@ == path && e.kind == k && after == before,
    }
}

/// Replaces the one occurrence of `marker` in `contents` by `replacement`;
/// fails, leaving `contents` as it was, when `marker` does not occur exactly
/// once (occurrences counted left to right without overlap).
pub fn replace_once(contents: &mut String, marker: &str, replacement: &str, path: &str) -> (r:
    Result<(), PatchError>)
    ensures
        patched_as(
            old(contents)@,
            final(contents)@,
            path@,
            r,
            replace_once_spec(old(contents)@, marker@, replacement@),
        ),
{
    let s = chars_of(contents.as_str());
    let m = chars_of(marker);
    let n: u128 = if m.len() == 0 {
        s.len() as u128 + 1
    } else {
        count_matches_exec(s.as_slice(), m.as_slice()) as u128
    };
    if n != 1 {
        return Err(PatchError { path: String::from_str(path), kind: PatchErrorKind::MarkerCount(n) });
    }
    let r = chars_of(replacement);
    let t = replace_first_exec(s.as_slice(), m.as_slice(), r.as_slice());
    *contents = string_of(t.as_slice());
    Ok(())
}

/// Inserts `addition` just before the one occurrence of `marker` in
/// `contents`; fails, leaving `contents` as it was, when `marker` does not
/// occur exactly once.
pub fn insert_before_once(contents: &mut String, marker: &str, addition: &str, path: &str) -> (r:
    Result<(), PatchError>)
    ensures
        patched_as(
            old(contents)@,
            final(contents)@,
            path@,
            r,
            replace_once_spec(old(contents)@, marker@, addition@ + marker@),
        ),
{
    let mut replacement = String::from_str(addition);
    replacement.append(marker);
    replace_once(contents, marker, replacement.as_str(), path)
}

/// A marker counted once occurs at one index `i`, nowhere before it and
/// nowhere after its end; replacing it keeps the text around it unchanged.
pub proof fn lemma_replace_once_shape(s: Seq<char>, m: Seq<char>, r: Seq<char>)
    requires
        m.len() > 0,
        count_matches(s, m) == 1,
    ensures
        exists|i: int|
            #![trigger matches_at(s, m, i)]
            matches_at(s, m, i) && (forall|j: int| 0 <= j < i ==> !matches_at(s, m, j)) && (forall|
                j: int,
            | i + m.len() <= j ==> !matches_at(s, m, j)) && replace_first(s, m, r) == s.take(i) + r
                + s.skip(i + m.len()),
{
    lemma_find_from(s, m, 0);
    let i = find_from(s, m, 0)->0;
    lemma_find_from(s, m, i + m.len());
    assert(count_from(s, m, i + m.len()) == 0);
    assert(find_from(s, m, i + m.len()) is None) by {
        if let Some(k) = find_from(s, m, i + m.len()) {
            lemma_find_from(s, m, i + m.len());
            assert(count_from(s, m, i + m.len()) >= 1);
        }
    }
    assert(matches_at(s, m, i));
}

/// Inserting before a marker counted once puts the addition right before it
/// and keeps the rest of the text, the marker included, unchanged.
pub proof fn lemma_insert_before_shape(s: Seq<char>, m: Seq<char>, a: Seq<char>)
    requires
        m.len() > 0,
        count_matches(s, m) == 1,
    ensures
        exists|i: int|
            #![trigger matches_at(s, m, i)]
            matches_at(s, m, i) && replace_first(s, m, a + m) == s.take(i) + a + s.skip(i),
{
    lemma_find_from(s, m, 0);
    let i = find_from(s, m, 0)->0;
    assert(s.take(i) + (a + m) + s.skip(i + m.len()) =~= s.take(i) + a + s.skip(i));
    assert(matches_at(s, m, i));
}

/// Whatever `insert_before_once` does is what `replace_once` does with the
/// addition followed by the marker as replacement: it fails exactly when the
/// marker is not counted once, and then leaves the text as it was; otherwise
/// the addition stands right before the marker and the rest is kept.
pub proof fn lemma_insert_before_outcome(
    before: Seq<char>,
    after: Seq<char>,
    path: Seq<char>,
    r: Result<(), PatchError>,
    m: Seq<char>,
    a: Seq<char>,
)
    requires
        patched_as(before, after, path, r, replace_once_spec(before, m, a + m)),
    ensures
        r is Err <==> count_matches(before, m) != 1,
        r matches Err(e) ==> e.kind == PatchErrorKind::MarkerCount(count_matches(before, m) as u128)
            && e.path@ == path && after == before,
        r is Ok && m.len() > 0 ==> exists|i: int|
            #![trigger matches_at(before, m, i)]
            matches_at(before, m, i) && after == before.take(i) + a + before.skip(i),
{
    if r is Ok && m.len() > 0 {
        lemma_insert_before_shape(before, m, a);
    }
}

} // verus!
