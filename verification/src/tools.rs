//! Finding and installing the tools the build needs: git and the .NET SDK.
use vstd::prelude::*;
use crate::commands::push_arg;
use crate::commands::views;
use crate::number::is_digit;
use crate::text::chars_equal;
use crate::text::chars_of;
use crate::text::find_from;
use crate::text::find_from_exec;
use crate::text::lemma_find_from;
use crate::text::matches_at;
use crate::text::push_range;
use crate::text::string_of;
use crate::whitespace::leading_whitespace;
use crate::whitespace::leading_whitespace_exec;
use crate::whitespace::trim;
use crate::whitespace::trim_chars;
use crate::whitespace::trim_start;

verus! {

/// The SDK version installed when the sources do not ask for one.
pub const DEFAULT_SDK_VERSION: &'static str = "8.0.100";

/// `c` with `A`..`Z` turned into `a`..`z` (`char::to_ascii_lowercase`).
pub open spec fn ascii_lower(c: char) -> char {
    if 'A' <= c && c <= 'Z' {
        ((c as int) + 32) as char
    } else {
        c
    }
}

/// `s` with ASCII letters in lower case (`str::to_ascii_lowercase`).
pub open spec fn ascii_lowercase(s: Seq<char>) -> Seq<char> {
    s.map_values(|c: char| ascii_lower(c))
}

/// `a` and `b` are equal up to the case of ASCII letters
/// (`str::eq_ignore_ascii_case`).
pub open spec fn eq_ignore_ascii_case(a: Seq<char>, b: Seq<char>) -> bool {
    ascii_lowercase(a) == ascii_lowercase(b)
}

fn ascii_lower_exec(c: char) -> (d: char)
    ensures
        d == ascii_lower(c),
{
    if 'A' <= c && c <= 'Z' {
        let b: u32 = c as u32 + 32;
        char_from_ascii(b)
    } else {
        c
    }
}

fn char_from_ascii(b: u32) -> (c: char)
    requires
        97 <= b <= 122,
    ensures
        c == b as char,
{
    let v: u8 = b as u8;
    v as char
}

fn ascii_lowercase_exec(s: &[char]) -> (t: Vec<char>)
    ensures
        t@ == ascii_lowercase(s@),
{
    let mut t: Vec<char> = Vec::new();
    let mut i: usize = 0;
    while i < s.len()
        invariant
            i <= s.len(),
            t@ == ascii_lowercase(s@.take(i as int)),
        decreases s.len() - i,
    {
        t.push(ascii_lower_exec(s[i]));
        assert(ascii_lowercase(s@.take(i + 1)) =~= ascii_lowercase(s@.take(i as int)).push(
            ascii_lower(s@[i as int]),
        ));
        i += 1;
    }
    assert(s@.take(s.len() as int) =~= s@);
    t
}

/// Whether `a` and `b` are equal up to the case of ASCII letters.
pub fn eq_ignore_ascii_case_exec(a: &str, b: &str) -> (r: bool)
    ensures
        r == eq_ignore_ascii_case(a@, b@),
{
    let x = ascii_lowercase_exec(chars_of(a).as_slice());
    let y = ascii_lowercase_exec(chars_of(b).as_slice());
    chars_equal(x.as_slice(), y.as_slice())
}

/// The answer to a yes/no prompt declines: `n` or `no`, in any case, with
/// white space around it.
pub open spec fn declines(answer: Seq<char>) -> bool {
    ascii_lowercase(trim(answer)) == "n"@ || ascii_lowercase(trim(answer)) == "no"@
}

/// Whether the answer to a yes/no prompt declines; anything else, the empty
/// answer included, accepts.
pub fn is_decline(answer: &str) -> (r: bool)
    ensures
        r == declines(answer@),
{
    let t = ascii_lowercase_exec(trim_chars(chars_of(answer).as_slice()).as_slice());
    let n = chars_of("n");
    let no = chars_of("no");
    chars_equal(t.as_slice(), n.as_slice()) || chars_equal(t.as_slice(), no.as_slice())
}

/// A place to look for a tool that is not on the search path: the folder
/// named by the environment variable `base_var`, then the path `parts` in it.
pub struct CommandLocation {
    /// The environment variable holding the base folder.
    pub base_var: String,
    /// The path below the base folder, one component at a time.
    pub parts: Vec<String>,
}

/// A location, as the environment variable and path components it names.
pub open spec fn location_view(l: CommandLocation) -> (Seq<char>, Seq<Seq<char>>) {
    (l.base_var@, views(l.parts@))
}

/// Where to look, in order, for `command` when it is not on the search path:
/// git in the usual Git for Windows folders, dotnet in the usual .NET SDK
/// folders, and nowhere for anything else.
pub open spec fn fallback_locations_spec(command: Seq<char>) -> Seq<(Seq<char>, Seq<Seq<char>>)> {
    let git = seq!["Git"@, "cmd"@, "git.exe"@];
    let dotnet = seq!["dotnet"@, "dotnet.exe"@];
    (if eq_ignore_ascii_case(command, "git"@) {
        seq![("ProgramFiles"@, git), ("ProgramFiles(x86)"@, git), ("LOCALAPPDATA"@, git)]
    } else {
        Seq::empty()
    }) + (if eq_ignore_ascii_case(command, "dotnet"@) {
        seq![
            ("ProgramFiles"@, dotnet),
            ("ProgramFiles(x86)"@, dotnet),
            ("LOCALAPPDATA"@, seq!["Microsoft"@, "dotnet"@, "dotnet.exe"@]),
            ("USERPROFILE"@, seq![".dotnet"@, "dotnet.exe"@]),
        ]
    } else {
        Seq::empty()
    })
}

fn path_parts(a: &str, b: &str, c: Option<&str>) -> (v: Vec<String>)
    ensures
        views(v@) == match c {
            Some(c) => seq![a@, b@, c@],
            None => seq![a@, b@],
        },
{
    let mut v: Vec<String> = Vec::new();
    push_arg(&mut v, a);
    push_arg(&mut v, b);
    if let Some(c) = c {
        push_arg(&mut v, c);
    }
    assert(views(v@) =~= match c {
        Some(c) => seq![a@, b@, c@],
        None => seq![a@, b@],
    });
    v
}

/// Where to look, in order, for `command` when it is not on the search path.
pub fn fallback_locations(command: &str) -> (ls: Vec<CommandLocation>)
    ensures
        ls@.map_values(|l: CommandLocation| location_view(l)) == fallback_locations_spec(command@),
{
    let mut ls: Vec<CommandLocation> = Vec::new();
    if eq_ignore_ascii_case_exec(command, "git") {
        ls.push(CommandLocation {
            base_var: String::from_str("ProgramFiles"),
            parts: path_parts("Git", "cmd", Some("git.exe")),
        });
        ls.push(CommandLocation {
            base_var: String::from_str("ProgramFiles(x86)"),
            parts: path_parts("Git", "cmd", Some("git.exe")),
        });
        ls.push(CommandLocation {
            base_var: String::from_str("LOCALAPPDATA"),
            parts: path_parts("Git", "cmd", Some("git.exe")),
        });
    }
    let ghost git = seq!["Git"@, "cmd"@, "git.exe"@];
    assert(ls@.map_values(|l: CommandLocation| location_view(l)) =~= (if eq_ignore_ascii_case(
        command@,
        "git"@,
    ) {
        seq![("ProgramFiles"@, git), ("ProgramFiles(x86)"@, git), ("LOCALAPPDATA"@, git)]
    } else {
        Seq::empty()
    }));
    let ghost first = ls@;
    if eq_ignore_ascii_case_exec(command, "dotnet") {
        ls.push(CommandLocation {
            base_var: String::from_str("ProgramFiles"),
            parts: path_parts("dotnet", "dotnet.exe", None),
        });
        ls.push(CommandLocation {
            base_var: String::from_str("ProgramFiles(x86)"),
            parts: path_parts("dotnet", "dotnet.exe", None),
        });
        ls.push(CommandLocation {
            base_var: String::from_str("LOCALAPPDATA"),
            parts: path_parts("Microsoft", "dotnet", Some("dotnet.exe")),
        });
        ls.push(CommandLocation {
            base_var: String::from_str("USERPROFILE"),
            parts: path_parts(".dotnet", "dotnet.exe", None),
        });
        assert(ls@ =~= first + ls@.subrange(first.len() as int, ls@.len() as int));
    } else {
        assert(ls@ =~= first + Seq::<CommandLocation>::empty());
    }
    assert(ls@.map_values(|l: CommandLocation| location_view(l)) =~= fallback_locations_spec(
        command@,
    ));
    ls
}

/// The SDK version that a `global.json` text asks for: the first quoted value
/// after the first `"version"` key that follows the first `"sdk"` key, read
/// after the colon and any white space; `None` when any part is missing.
pub open spec fn requested_sdk_spec(s: Seq<char>) -> Option<Seq<char>> {
    match find_from(s, "\"sdk\""@, 0) {
        None => None,
        Some(sdk_start) => match find_from(s, "\"version\""@, sdk_start) {
            None => None,
            Some(key_start) => {
                let after_key = s.skip(key_start + "\"version\""@.len());
                match find_from(after_key, seq![':'], 0) {
                    None => None,
                    Some(colon) => {
                        let after_colon = trim_start(after_key.skip(colon + 1));
                        if after_colon.len() > 0 && after_colon[0] == '"' {
                            let value = after_colon.drop_first();
                            match find_from(value, seq!['"'], 0) {
                                None => None,
                                Some(end) => Some(value.take(end)),
                            }
                        } else {
                            None
                        }
                    },
                }
            },
        },
    }
}

/// A copy of `s[lo..]`.
fn suffix(s: &[char], lo: usize) -> (t: Vec<char>)
    requires
        lo <= s.len(),
    ensures
        t@ == s@.skip(lo as int),
{
    let mut t: Vec<char> = Vec::new();
    push_range(&mut t, s, lo, s.len());
    assert(t@ =~= s@.skip(lo as int));
    t
}

/// The SDK version that the text of a `global.json` asks for, if it names one.
pub fn read_requested_sdk(contents: &str) -> (r: Option<String>)
    ensures
        match r {
            Some(v) => requested_sdk_spec(contents@) == Some(v@),
            None => requested_sdk_spec(contents@) is None,
        },
{
    let s = chars_of(contents);
    let sdk_key = chars_of("\"sdk\"");
    let version_key = chars_of("\"version\"");
    let sdk_start = match find_from_exec(s.as_slice(), sdk_key.as_slice(), 0) {
        Some(i) => i,
        None => {
            return None;
        },
    };
    let key_start = match find_from_exec(s.as_slice(), version_key.as_slice(), sdk_start) {
        Some(i) => i,
        None => {
            return None;
        },
    };
    proof {
        lemma_find_from(s@, version_key@, sdk_start as int);
        assert(matches_at(s@, version_key@, key_start as int));
        assert(key_start + version_key.len() <= s.len());
    }
    let after_key = suffix(s.as_slice(), key_start + version_key.len());
    let colon_marker = vec![':'];
    assert(colon_marker@ =~= seq![':']);
    let colon = match find_from_exec(after_key.as_slice(), colon_marker.as_slice(), 0) {
        Some(i) => i,
        None => {
            return None;
        },
    };
    proof {
        lemma_find_from(after_key@, colon_marker@, 0);
        assert(matches_at(after_key@, colon_marker@, colon as int));
        assert(colon + 1 <= after_key.len());
    }
    let after_colon_raw = suffix(after_key.as_slice(), colon + 1);
    let lead = leading_whitespace_exec(after_colon_raw.as_slice());
    proof {
        crate::whitespace::lemma_leading_bound(after_colon_raw@);
    }
    let after_colon = suffix(after_colon_raw.as_slice(), lead);
    if after_colon.len() == 0 || after_colon[0] != '"' {
        return None;
    }
    let value = suffix(after_colon.as_slice(), 1);
    assert(value@ =~= after_colon@.drop_first());
    let quote_marker = vec!['"'];
    assert(quote_marker@ =~= seq!['"']);
    let end = match find_from_exec(value.as_slice(), quote_marker.as_slice(), 0) {
        Some(i) => i,
        None => {
            return None;
        },
    };
    proof {
        lemma_find_from(value@, quote_marker@, 0);
        assert(matches_at(value@, quote_marker@, end as int));
    }
    let mut v: Vec<char> = Vec::new();
    push_range(&mut v, value.as_slice(), 0, end);
    assert(v@ =~= value@.take(end as int));
    Some(string_of(v.as_slice()))
}

/// The major version of an SDK version: the text before its first `.`.
pub open spec fn sdk_major(requested: Seq<char>) -> Seq<char> {
    match find_from(requested, seq!['.'], 0) {
        Some(i) => requested.take(i),
        None => requested,
    }
}

/// The winget package of the .NET SDK `requested`: `microsoft.DotNet.SDK.`
/// and its major version, which must be a non-empty run of ASCII digits.
pub open spec fn sdk_package_spec(requested: Seq<char>) -> Option<Seq<char>> {
    let major = sdk_major(requested);
    if major.len() > 0 && forall|i: int| 0 <= i < major.len() ==> is_digit(#[trigger] major[i]) {
        Some("microsoft.DotNet.SDK."@ + major)
    } else {
        None
    }
}

/// The winget package of the .NET SDK `requested`, or `None` when its major
/// version is not a number.
pub fn sdk_package(requested: &str) -> (r: Option<String>)
    ensures
        match r {
            Some(p) => sdk_package_spec(requested@) == Some(p@),
            None => sdk_package_spec(requested@) is None,
        },
{
    let s = chars_of(requested);
    let dot = vec!['.'];
    assert(dot@ =~= seq!['.']);
    let mut major: Vec<char> = Vec::new();
    match find_from_exec(s.as_slice(), dot.as_slice(), 0) {
        Some(i) => {
            proof {
                lemma_find_from(s@, dot@, 0);
                assert(matches_at(s@, dot@, i as int));
            }
            push_range(&mut major, s.as_slice(), 0, i);
            assert(major@ =~= s@.take(i as int));
        },
        None => {
            push_range(&mut major, s.as_slice(), 0, s.len());
            assert(major@ =~= s@);
        },
    }
    assert(major@ == sdk_major(requested@));
    if major.len() == 0 {
        return None;
    }
    let mut k: usize = 0;
    while k < major.len()
        invariant
            k <= major.len(),
            major.len() > 0,
            major@ == sdk_major(requested@),
            forall|j: int| 0 <= j < k ==> is_digit(#[trigger] major@[j]),
        decreases major.len() - k,
    {
        if !('0' <= major[k] && major[k] <= '9') {
            assert(!is_digit(major@[k as int]));
            return None;
        }
        k += 1;
    }
    let mut p = String::from_str("microsoft.DotNet.SDK.");
    p.append(string_of(major.as_slice()).as_str());
    Some(p)
}

} // verus!
