//! The installer's command line.
use vstd::prelude::*;
use crate::commands::views;
use crate::number::decimal;
use crate::number::parse_u32;
use crate::number::parse_u32_spec;
use crate::number::IntErrorKind;
use crate::text::chars_equal;
use crate::text::chars_of;
use crate::whitespace::is_whitespace;
use crate::whitespace::leading_whitespace;
use crate::whitespace::trailing_whitespace;
use crate::whitespace::trim;
use crate::whitespace::trim_start;
use crate::whitespace::trim_chars;

verus! {

/// The Fishstrap repository cloned when neither the command line nor the
/// environment names one.
pub const DEFAULT_FISHSTRAP_REPO: &'static str = "https://github.com/returnrqt/fishstrap.git";

/// What the installer was asked to do.
pub struct Config {
    /// The repository to clone.
    pub fishstrap_repo: String,
    /// The branch to clone, if not the default one.
    pub branch: Option<String>,
    /// The folder to install into.
    pub install_dir: String,
    /// Keep the temporary build folder.
    pub keep_temp: bool,
    /// Build and patch only; install nothing.
    pub build_only: bool,
    /// A process to wait for before files are replaced.
    pub wait_pid: Option<u32>,
    /// Arguments to start the installed application with.
    pub launch_args: Vec<String>,
}

/// A `Config` as plain values.
pub struct ConfigView {
    pub fishstrap_repo: Seq<char>,
    pub branch: Option<Seq<char>>,
    pub install_dir: Seq<char>,
    pub keep_temp: bool,
    pub build_only: bool,
    pub wait_pid: Option<u32>,
    pub launch_args: Seq<Seq<char>>,
}

impl View for Config {
    type V = ConfigView;

    open spec fn view(&self) -> ConfigView {
        ConfigView {
            fishstrap_repo: self.fishstrap_repo@,
            branch: match self.branch {
                Some(b) => Some(b@),
                None => None,
            },
            install_dir: self.install_dir@,
            keep_temp: self.keep_temp,
            build_only: self.build_only,
            wait_pid: self.wait_pid,
            launch_args: views(self.launch_args@),
        }
    }
}

/// Why the command line was refused.
pub enum ArgError {
    /// The option needs a value that is missing or blank.
    MissingValue(String),
    /// The process id given with `--wait-pid` is not a `u32`.
    InvalidPid(IntErrorKind),
    /// The argument is not an option the installer knows.
    Unknown(String),
}

/// An `ArgError` as plain values.
pub enum ArgErrorView {
    MissingValue(Seq<char>),
    InvalidPid(IntErrorKind),
    Unknown(Seq<char>),
}

impl View for ArgError {
    type V = ArgErrorView;

    open spec fn view(&self) -> ArgErrorView {
        match self {
            ArgError::MissingValue(name) => ArgErrorView::MissingValue(name@),
            ArgError::InvalidPid(k) => ArgErrorView::InvalidPid(*k),
            ArgError::Unknown(arg) => ArgErrorView::Unknown(arg@),
        }
    }
}

/// The report for a refused command line.
pub open spec fn arg_error_message(e: ArgErrorView) -> Seq<char> {
    match e {
        ArgErrorView::MissingValue(name) => name + " requires a value"@,
        ArgErrorView::InvalidPid(k) => k.spec_message(),
        ArgErrorView::Unknown(arg) => "unknown argument: "@ + arg,
    }
}

impl ArgError {
    /// The report shown to the user.
    pub fn message(&self) -> (s: String)
        ensures
            s@ == arg_error_message(self@),
    {
        match self {
            ArgError::MissingValue(name) => {
                let mut s = name.clone();
                s.append(" requires a value");
                s
            },
            ArgError::InvalidPid(k) => k.message(),
            ArgError::Unknown(arg) => {
                let mut s = String::from_str("unknown argument: ");
                s.append(arg.as_str());
                s
            },
        }
    }
}

/// What the command line asks for.
pub enum ParsedArgs {
    /// Install (or build) as configured.
    Run(Config),
    /// Print the usage and stop.
    Help,
}

/// The configuration before any option is read: the given repository,
/// branch and install folder, nothing else asked for.
pub open spec fn initial_config(
    repo: Seq<char>,
    branch: Option<Seq<char>>,
    install_dir: Seq<char>,
) -> ConfigView {
    ConfigView {
        fishstrap_repo: repo,
        branch,
        install_dir,
        keep_temp: false,
        build_only: false,
        wait_pid: None,
        launch_args: Seq::empty(),
    }
}

/// The command line was read to `r` as the reading `expected` says.
pub open spec fn parsed_as(
    r: Result<ParsedArgs, ArgError>,
    expected: Result<Option<ConfigView>, ArgErrorView>,
) -> bool {
    match expected {
        Ok(Some(c)) => r matches Ok(ParsedArgs::Run(config)) && config@ == c,
        Ok(None) => r matches Ok(ParsedArgs::Help),
        Err(e) => r matches Err(err) && err@ == e,
    }
}

/// The value following an option at index `j`: there, and not blank.
pub open spec fn value_at(args: Seq<Seq<char>>, j: int) -> Option<Seq<char>> {
    if 0 <= j < args.len() && trim(args[j]).len() > 0 {
        Some(args[j])
    } else {
        None
    }
}

/// Reading the options `args[i..]` onto `c`: `Ok(Some(..))` the final
/// configuration, `Ok(None)` a request for help, `Err(..)` a refusal.
pub open spec fn parse_from(args: Seq<Seq<char>>, i: int, c: ConfigView) -> Result<
    Option<ConfigView>,
    ArgErrorView,
>
    decreases args.len() - i,
{
    if i < 0 || i >= args.len() {
        Ok(Some(c))
    } else {
        let a = args[i];
        if a == "--repo"@ || a == "--branch"@ || a == "--out"@ || a == "--dir"@ || a
            == "--wait-pid"@ || a == "--app-arg"@ {
            match value_at(args, i + 1) {
                None => Err(ArgErrorView::MissingValue(a)),
                Some(v) => {
                    if a == "--repo"@ {
                        parse_from(args, i + 2, ConfigView { fishstrap_repo: v, ..c })
                    } else if a == "--branch"@ {
                        parse_from(args, i + 2, ConfigView { branch: Some(v), ..c })
                    } else if a == "--out"@ || a == "--dir"@ {
                        parse_from(args, i + 2, ConfigView { install_dir: v, ..c })
                    } else if a == "--wait-pid"@ {
                        match parse_u32_spec(v) {
                            Ok(pid) => parse_from(args, i + 2, ConfigView { wait_pid: Some(pid), ..c }),
                            Err(k) => Err(ArgErrorView::InvalidPid(k)),
                        }
                    } else {
                        parse_from(
                            args,
                            i + 2,
                            ConfigView { launch_args: c.launch_args.push(v), ..c },
                        )
                    }
                },
            }
        } else if a == "--keep-temp"@ {
            parse_from(args, i + 1, ConfigView { keep_temp: true, ..c })
        } else if a == "--build-only"@ {
            parse_from(args, i + 1, ConfigView { build_only: true, ..c })
        } else if a == "--no-pause"@ {
            parse_from(args, i + 1, c)
        } else if a == "--help"@ || a == "-h"@ {
            Ok(None)
        } else {
            Err(ArgErrorView::Unknown(a))
        }
    }
}

/// The value of the option `name`, which is `args[pos]` unless that is
/// missing or blank.
pub fn required_value(args: &[String], pos: usize, name: &str) -> (r: Result<String, ArgError>)
    ensures
        match value_at(views(args@), pos as int) {
            Some(v) => r matches Ok(s) && s@ == v,
            None => r matches Err(e) && e@ == ArgErrorView::MissingValue(name@),
        },
{
    if pos < args.len() {
        let t = trim_chars(chars_of(args[pos].as_str()).as_slice());
        if t.len() > 0 {
            return Ok(args[pos].clone());
        }
    }
    Err(ArgError::MissingValue(String::from_str(name)))
}

/// Whether `a` is the text `lit`.
fn is(a: &[char], lit: &str) -> (r: bool)
    ensures
        r == (a@ == lit@),
{
    chars_equal(a, chars_of(lit).as_slice())
}

impl Config {
    /// Reads the command line `args` (the program name left out) onto the
    /// defaults: the repository, branch and install folder used unless an
    /// option names others.  Options are read in order; the first refused
    /// one ends the reading, and so does `--help`.
    pub fn from_args(
        args: &[String],
        default_repo: &str,
        default_branch: Option<&str>,
        default_install_dir: &str,
    ) -> (r: Result<ParsedArgs, ArgError>)
        ensures
            parsed_as(
                r,
                parse_from(
                    views(args@),
                    0,
                    initial_config(
                        default_repo@,
                        match default_branch {
                            Some(b) => Some(b@),
                            None => None,
                        },
                        default_install_dir@,
                    ),
                ),
            ),
    {
        let ghost all = views(args@);
        let mut config = Config {
            fishstrap_repo: String::from_str(default_repo),
            branch: match default_branch {
                Some(b) => Some(String::from_str(b)),
                None => None,
            },
            install_dir: String::from_str(default_install_dir),
            keep_temp: false,
            build_only: false,
            wait_pid: None,
            launch_args: Vec::new(),
        };
        assert(config@.launch_args =~= Seq::<Seq<char>>::empty());
        let ghost start = config@;
        assert(start == initial_config(
            default_repo@,
            match default_branch {
                Some(b) => Some(b@),
                None => None,
            },
            default_install_dir@,
        ));
        let mut i: usize = 0;
        while i < args.len()
            invariant
                i <= args.len(),
                all == views(args@),
                start == initial_config(
                    default_repo@,
                    match default_branch {
                        Some(b) => Some(b@),
                        None => None,
                    },
                    default_install_dir@,
                ),
                parse_from(all, 0, start) == parse_from(all, i as int, config@),
            decreases args.len() - i,
        {
            let a = chars_of(args[i].as_str());
            assert(a@ == all[i as int]);
            if is(a.as_slice(), "--repo") || is(a.as_slice(), "--branch") || is(
                a.as_slice(),
                "--out",
            ) || is(a.as_slice(), "--dir") || is(a.as_slice(), "--wait-pid") || is(
                a.as_slice(),
                "--app-arg",
            ) {
                let v = match required_value(args, i + 1, args[i].as_str()) {
                    Ok(v) => v,
                    Err(e) => {
                        return Err(e);
                    },
                };
                if is(a.as_slice(), "--repo") {
                    config.fishstrap_repo = v;
                } else if is(a.as_slice(), "--branch") {
                    config.branch = Some(v);
                } else if is(a.as_slice(), "--out") || is(a.as_slice(), "--dir") {
                    config.install_dir = v;
                } else if is(a.as_slice(), "--wait-pid") {
                    match parse_u32(v.as_str()) {
                        Ok(pid) => {
                            config.wait_pid = Some(pid);
                        },
                        Err(k) => {
                            return Err(ArgError::InvalidPid(k));
                        },
                    }
                } else {
                    let ghost before = config.launch_args@;
                    config.launch_args.push(v);
                    assert(views(config.launch_args@) =~= views(before).push(v@));
                }
                i += 2;
            } else if is(a.as_slice(), "--keep-temp") {
                config.keep_temp = true;
                i += 1;
            } else if is(a.as_slice(), "--build-only") {
                config.build_only = true;
                i += 1;
            } else if is(a.as_slice(), "--no-pause") {
                i += 1;
            } else if is(a.as_slice(), "--help") || is(a.as_slice(), "-h") {
                return Ok(ParsedArgs::Help);
            } else {
                return Err(ArgError::Unknown(args[i].clone()));
            }
        }
        Ok(ParsedArgs::Run(config))
    }
}

/// The options `--app-arg a` for each `a` of `launch_args`, in order.
pub open spec fn app_arg_options(launch_args: Seq<Seq<char>>) -> Seq<Seq<char>>
    decreases launch_args.len(),
{
    if launch_args.len() == 0 {
        Seq::empty()
    } else {
        seq!["--app-arg"@, launch_args[0]] + app_arg_options(launch_args.drop_first())
    }
}

/// The command line that the patched bootstrapper's update check starts the
/// installer with: the repository, the install folder, its own process id,
/// `--no-pause`, and the arguments to start Fishstrap with again.
pub open spec fn updater_command_line(
    repo: Seq<char>,
    install_dir: Seq<char>,
    pid: u32,
    launch_args: Seq<Seq<char>>,
) -> Seq<Seq<char>> {
    seq![
        "--repo"@,
        repo,
        "--out"@,
        install_dir,
        "--wait-pid"@,
        decimal(pid as nat),
        "--no-pause"@,
    ] + app_arg_options(launch_args)
}

/// `s` is not blank: some character of it is not white space.
pub open spec fn not_blank(s: Seq<char>) -> bool {
    exists|i: int| 0 <= i < s.len() && !is_whitespace(#[trigger] s[i])
}

proof fn lemma_not_blank_trim(s: Seq<char>)
    requires
        not_blank(s),
    ensures
        trim(s).len() > 0,
{
    let i = choose|i: int| 0 <= i < s.len() && !is_whitespace(#[trigger] s[i]);
    lemma_leading_le(s, i);
    let t = trim_start(s);
    assert(t[i - leading_whitespace(s)] == s[i]);
    lemma_trailing_lt(t, i - leading_whitespace(s));
}

proof fn lemma_leading_le(s: Seq<char>, i: int)
    requires
        0 <= i < s.len(),
        !is_whitespace(s[i]),
    ensures
        leading_whitespace(s) <= i,
    decreases s.len(),
{
    if i > 0 && is_whitespace(s[0]) {
        assert(s.drop_first()[i - 1] == s[i]);
        lemma_leading_le(s.drop_first(), i - 1);
    }
}

proof fn lemma_trailing_lt(t: Seq<char>, i: int)
    requires
        0 <= i < t.len(),
        !is_whitespace(t[i]),
    ensures
        trailing_whitespace(t) < t.len() - i,
    decreases t.len(),
{
    if i < t.len() - 1 && is_whitespace(t.last()) {
        assert(t.drop_last()[i] == t[i]);
        lemma_trailing_lt(t.drop_last(), i);
    }
}

proof fn lemma_option_literals()
    ensures
        "--repo"@ == seq!['-', '-', 'r', 'e', 'p', 'o'],
        "--branch"@ == seq!['-', '-', 'b', 'r', 'a', 'n', 'c', 'h'],
        "--out"@ == seq!['-', '-', 'o', 'u', 't'],
        "--dir"@ == seq!['-', '-', 'd', 'i', 'r'],
        "--wait-pid"@ == seq!['-', '-', 'w', 'a', 'i', 't', '-', 'p', 'i', 'd'],
        "--app-arg"@ == seq!['-', '-', 'a', 'p', 'p', '-', 'a', 'r', 'g'],
        "--keep-temp"@ == seq!['-', '-', 'k', 'e', 'e', 'p', '-', 't', 'e', 'm', 'p'],
        "--build-only"@ == seq!['-', '-', 'b', 'u', 'i', 'l', 'd', '-', 'o', 'n', 'l', 'y'],
        "--no-pause"@ == seq!['-', '-', 'n', 'o', '-', 'p', 'a', 'u', 's', 'e'],
        "--help"@ == seq!['-', '-', 'h', 'e', 'l', 'p'],
        "-h"@ == seq!['-', 'h'],
{
    reveal_strlit("--repo");
    reveal_strlit("--branch");
    reveal_strlit("--out");
    reveal_strlit("--dir");
    reveal_strlit("--wait-pid");
    reveal_strlit("--app-arg");
    reveal_strlit("--keep-temp");
    reveal_strlit("--build-only");
    reveal_strlit("--no-pause");
    reveal_strlit("--help");
    reveal_strlit("-h");
    assert("--repo"@ =~= seq!['-', '-', 'r', 'e', 'p', 'o']);
    assert("--branch"@ =~= seq!['-', '-', 'b', 'r', 'a', 'n', 'c', 'h']);
    assert("--out"@ =~= seq!['-', '-', 'o', 'u', 't']);
    assert("--dir"@ =~= seq!['-', '-', 'd', 'i', 'r']);
    assert("--wait-pid"@ =~= seq!['-', '-', 'w', 'a', 'i', 't', '-', 'p', 'i', 'd']);
    assert("--app-arg"@ =~= seq!['-', '-', 'a', 'p', 'p', '-', 'a', 'r', 'g']);
    assert("--keep-temp"@ =~= seq!['-', '-', 'k', 'e', 'e', 'p', '-', 't', 'e', 'm', 'p']);
    assert("--build-only"@ =~= seq!['-', '-', 'b', 'u', 'i', 'l', 'd', '-', 'o', 'n', 'l', 'y']);
    assert("--no-pause"@ =~= seq!['-', '-', 'n', 'o', '-', 'p', 'a', 'u', 's', 'e']);
    assert("--help"@ =~= seq!['-', '-', 'h', 'e', 'l', 'p']);
    assert("-h"@ =~= seq!['-', 'h']);
}

proof fn lemma_app_arg_options(p: Seq<Seq<char>>, launch_args: Seq<Seq<char>>, c: ConfigView)
    requires
        forall|i: int| 0 <= i < launch_args.len() ==> not_blank(#[trigger] launch_args[i]),
    ensures
        parse_from(p + app_arg_options(launch_args), p.len() as int, c) == Ok::<
            Option<ConfigView>,
            ArgErrorView,
        >(Some(ConfigView { launch_args: c.launch_args + launch_args, ..c })),
    decreases launch_args.len(),
{
    lemma_option_literals();
    let all = p + app_arg_options(launch_args);
    if launch_args.len() == 0 {
        assert(all =~= p);
        assert(c.launch_args + launch_args =~= c.launch_args);
    } else {
        let a = launch_args[0];
        let rest = launch_args.drop_first();
        assert forall|i: int| 0 <= i < rest.len() implies not_blank(#[trigger] rest[i]) by {
            assert(rest[i] == launch_args[i + 1]);
        }
        let p2 = p + seq!["--app-arg"@, a];
        assert(all =~= p2 + app_arg_options(rest));
        assert(all[p.len() as int] == "--app-arg"@);
        assert(all[p.len() + 1int] == a);
        assert(not_blank(launch_args[0]));
        lemma_not_blank_trim(a);
        let c2 = ConfigView { launch_args: c.launch_args.push(a), ..c };
        lemma_app_arg_options(p2, rest, c2);
        assert(c2.launch_args + rest =~= c.launch_args + launch_args);
    }
}

/// The installer accepts the command line that the patched bootstrapper
/// starts it with for an update, and reads from it exactly the repository,
/// the install folder, the process to wait for and the arguments to start
/// Fishstrap with, as long as none of those values is blank (a blank one is
/// refused as a missing value).
pub proof fn lemma_updater_command_line_accepted(
    repo: Seq<char>,
    install_dir: Seq<char>,
    pid: u32,
    launch_args: Seq<Seq<char>>,
    start: ConfigView,
)
    requires
        not_blank(repo),
        not_blank(install_dir),
        forall|i: int| 0 <= i < launch_args.len() ==> not_blank(#[trigger] launch_args[i]),
    ensures
        parse_from(updater_command_line(repo, install_dir, pid, launch_args), 0, start) == Ok::<
            Option<ConfigView>,
            ArgErrorView,
        >(
            Some(
                ConfigView {
                    fishstrap_repo: repo,
                    install_dir,
                    wait_pid: Some(pid),
                    launch_args: start.launch_args + launch_args,
                    ..start
                },
            ),
        ),
{
    lemma_option_literals();
    let args = updater_command_line(repo, install_dir, pid, launch_args);
    let head = seq![
        "--repo"@,
        repo,
        "--out"@,
        install_dir,
        "--wait-pid"@,
        decimal(pid as nat),
        "--no-pause"@,
    ];
    assert(args == head + app_arg_options(launch_args));
    lemma_not_blank_trim(repo);
    lemma_not_blank_trim(install_dir);
    crate::number::lemma_decimal_parse_round_trip(pid);
    let d = decimal(pid as nat);
    crate::number::lemma_decimal_nonempty_digits(pid as nat);
    assert(!is_whitespace(d[0]));
    assert(not_blank(d));
    lemma_not_blank_trim(d);
    assert(args[0] == "--repo"@);
    assert(args[1] == repo);
    assert(args[2] == "--out"@);
    assert(args[3] == install_dir);
    assert(args[4] == "--wait-pid"@);
    assert(args[5] == d);
    assert(args[6] == "--no-pause"@);
    let c1 = ConfigView { fishstrap_repo: repo, ..start };
    let c2 = ConfigView { install_dir, ..c1 };
    let c3 = ConfigView { wait_pid: Some(pid), ..c2 };
    lemma_app_arg_options(head, launch_args, c3);
    assert(parse_from(args, 6, c3) == parse_from(args, 7, c3));
    assert(parse_from(args, 4, c2) == parse_from(args, 6, c3));
    assert(parse_from(args, 2, c1) == parse_from(args, 4, c2));
    assert(parse_from(args, 0, start) == parse_from(args, 2, c1));
}

} // verus!
