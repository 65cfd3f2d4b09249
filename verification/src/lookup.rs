//! Finding a tool: first on the search path, then in the usual install
//! folders.
//!
//! The search is a state machine: the application runs `where`, reads
//! environment variables and checks whether candidate files exist, and hands
//! each outcome back as the next event.
use vstd::prelude::*;
use crate::commands::command_view;
use crate::commands::views;
use crate::commands::where_command;
use crate::commands::where_view;
use crate::commands::CommandSpec;
use crate::commands::CommandView;
use crate::tools::fallback_locations;
use crate::tools::fallback_locations_spec;
use crate::tools::location_view;
use crate::tools::CommandLocation;
use crate::tools::ascii_lowercase;
use crate::tools::eq_ignore_ascii_case;

verus! {

/// Where a search stands.
pub enum FindStage {
    /// `where` is being run.
    Start,
    /// The base variable of the `k`-th location is being read.
    AwaitVar(usize),
    /// The candidate of the `k`-th location is being checked.
    AwaitExists(usize),
    /// The command is on the search path: use its bare name.
    FoundName,
    /// The last checked candidate exists: use it.
    FoundCandidate,
    /// The command was found nowhere.
    NotFound,
}

/// The outcome of the last action.
pub enum FindEvent {
    /// `where` ran and succeeded, or not.
    WhereSucceeded(bool),
    /// The environment variable is set, or not.
    VarSet(bool),
    /// The candidate file exists, or not.
    CandidateExists(bool),
}

/// What the application is to do next.
pub enum FindAction {
    /// Run this command quietly, and hand back `WhereSucceeded`.
    RunWhere(CommandSpec),
    /// Read this environment variable, and hand back `VarSet`.
    ReadVar(String),
    /// Join these components onto the value just read, check whether that
    /// file exists, and hand back `CandidateExists`.
    CheckCandidate(Vec<String>),
    /// Use the bare command name.
    UseName,
    /// Use the candidate just checked.
    UseCandidate,
    /// The command was found nowhere.
    NotFound,
}

/// A search for `command`.
pub struct CommandSearch {
    /// The command looked for.
    pub command: String,
    /// Where the search stands.
    pub stage: FindStage,
}

pub enum FindStageView {
    Start,
    AwaitVar(int),
    AwaitExists(int),
    FoundName,
    FoundCandidate,
    NotFound,
}

pub enum FindEventView {
    WhereSucceeded(bool),
    VarSet(bool),
    CandidateExists(bool),
}

pub enum FindActionView {
    RunWhere(CommandView),
    ReadVar(Seq<char>),
    CheckCandidate(Seq<Seq<char>>),
    UseName,
    UseCandidate,
    NotFound,
}

impl View for FindStage {
    type V = FindStageView;

    open spec fn view(&self) -> FindStageView {
        match self {
            FindStage::Start => FindStageView::Start,
            FindStage::AwaitVar(k) => FindStageView::AwaitVar(*k as int),
            FindStage::AwaitExists(k) => FindStageView::AwaitExists(*k as int),
            FindStage::FoundName => FindStageView::FoundName,
            FindStage::FoundCandidate => FindStageView::FoundCandidate,
            FindStage::NotFound => FindStageView::NotFound,
        }
    }
}

impl View for FindEvent {
    type V = FindEventView;

    open spec fn view(&self) -> FindEventView {
        match self {
            FindEvent::WhereSucceeded(b) => FindEventView::WhereSucceeded(*b),
            FindEvent::VarSet(b) => FindEventView::VarSet(*b),
            FindEvent::CandidateExists(b) => FindEventView::CandidateExists(*b),
        }
    }
}

/// An action as plain values.
pub open spec fn find_action_view(a: FindAction) -> FindActionView {
    match a {
        FindAction::RunWhere(c) => FindActionView::RunWhere(command_view(c)),
        FindAction::ReadVar(v) => FindActionView::ReadVar(v@),
        FindAction::CheckCandidate(parts) => FindActionView::CheckCandidate(views(parts@)),
        FindAction::UseName => FindActionView::UseName,
        FindAction::UseCandidate => FindActionView::UseCandidate,
        FindAction::NotFound => FindActionView::NotFound,
    }
}

/// Trying the `k`-th place to look for `command`, or giving up when there
/// is none left.
pub open spec fn try_location(command: Seq<char>, k: int) -> (FindStageView, FindActionView) {
    let locations = fallback_locations_spec(command);
    if 0 <= k < locations.len() {
        (FindStageView::AwaitVar(k), FindActionView::ReadVar(locations[k].0))
    } else {
        (FindStageView::NotFound, FindActionView::NotFound)
    }
}

/// The action a stage waits on.
pub open spec fn find_pending(command: Seq<char>, stage: FindStageView) -> FindActionView {
    let locations = fallback_locations_spec(command);
    match stage {
        FindStageView::Start => FindActionView::RunWhere(where_view(command)),
        FindStageView::AwaitVar(k) => try_location(command, k).1,
        FindStageView::AwaitExists(k) => if 0 <= k < locations.len() {
            FindActionView::CheckCandidate(locations[k].1)
        } else {
            FindActionView::NotFound
        },
        FindStageView::FoundName => FindActionView::UseName,
        FindStageView::FoundCandidate => FindActionView::UseCandidate,
        FindStageView::NotFound => FindActionView::NotFound,
    }
}

/// The stage and action that follow `stage` on `event`: the bare name when
/// `where` finds the command; otherwise each fallback location in order,
/// skipping those whose variable is unset, until a candidate exists.
pub open spec fn find_next(command: Seq<char>, stage: FindStageView, event: FindEventView) -> (
    FindStageView,
    FindActionView,
) {
    let locations = fallback_locations_spec(command);
    match (stage, event) {
        (FindStageView::Start, FindEventView::WhereSucceeded(true)) => (
            FindStageView::FoundName,
            FindActionView::UseName,
        ),
        (FindStageView::Start, FindEventView::WhereSucceeded(false)) => try_location(command, 0),
        (FindStageView::AwaitVar(k), FindEventView::VarSet(false)) => try_location(command, k + 1),
        (FindStageView::AwaitVar(k), FindEventView::VarSet(true)) => if 0 <= k < locations.len() {
            (FindStageView::AwaitExists(k), FindActionView::CheckCandidate(locations[k].1))
        } else {
            (FindStageView::NotFound, FindActionView::NotFound)
        },
        (FindStageView::AwaitExists(_), FindEventView::CandidateExists(true)) => (
            FindStageView::FoundCandidate,
            FindActionView::UseCandidate,
        ),
        (FindStageView::AwaitExists(k), FindEventView::CandidateExists(false)) => try_location(
            command,
            k + 1,
        ),
        _ => (stage, find_pending(command, stage)),
    }
}

impl CommandSearch {
    /// A search for `command` that starts by running `where`.
    pub fn new(command: String) -> (s: CommandSearch)
        ensures
            s.command@ == command@,
            s.stage@ == FindStageView::Start,
    {
        CommandSearch { command, stage: FindStage::Start }
    }

    /// Reading the variable of the `k`-th place to look, or giving up when
    /// there is none.
    fn read_var(&self, k: usize) -> (a: FindAction)
        ensures
            find_action_view(a) == try_location(self.command@, k as int).1,
    {
        let mut ls = fallback_locations(self.command.as_str());
        proof {
            assert(ls@.len() == fallback_locations_spec(self.command@).len());
        }
        if k < ls.len() {
            let l: CommandLocation = ls.remove(k);
            assert(location_view(l) == fallback_locations_spec(self.command@)[k as int]);
            FindAction::ReadVar(l.base_var)
        } else {
            FindAction::NotFound
        }
    }

    /// Moves to the `k`-th place to look, or gives up when there is none.
    fn try_location(&mut self, k: usize) -> (a: FindAction)
        ensures
            final(self).command@ == old(self).command@,
            (final(self).stage@, find_action_view(a)) == try_location(old(self).command@, k as int),
    {
        let a = self.read_var(k);
        if let FindAction::ReadVar(_) = a {
            self.stage = FindStage::AwaitVar(k);
        } else {
            self.stage = FindStage::NotFound;
        }
        a
    }

    /// The candidate of the `k`-th place to look.
    fn candidate(&self, k: usize) -> (a: FindAction)
        ensures
            find_action_view(a) == (if 0 <= k < fallback_locations_spec(self.command@).len() {
                FindActionView::CheckCandidate(fallback_locations_spec(self.command@)[k as int].1)
            } else {
                FindActionView::NotFound
            }),
    {
        let mut ls = fallback_locations(self.command.as_str());
        proof {
            assert(ls@.len() == fallback_locations_spec(self.command@).len());
        }
        if k < ls.len() {
            let l: CommandLocation = ls.remove(k);
            assert(location_view(l) == fallback_locations_spec(self.command@)[k as int]);
            FindAction::CheckCandidate(l.parts)
        } else {
            FindAction::NotFound
        }
    }

    /// The action the search waits on: at the start, running `where`.
    pub fn pending_action(&self) -> (a: FindAction)
        ensures
            find_action_view(a) == find_pending(self.command@, self.stage@),
    {
        match self.stage {
            FindStage::Start => FindAction::RunWhere(where_command(self.command.as_str())),
            FindStage::AwaitVar(k) => self.read_var(k),
            FindStage::AwaitExists(k) => self.candidate(k),
            FindStage::FoundName => FindAction::UseName,
            FindStage::FoundCandidate => FindAction::UseCandidate,
            FindStage::NotFound => FindAction::NotFound,
        }
    }

    /// Moves the search on by the outcome `event` of the last action, and
    /// gives the next action.
    pub fn step(&mut self, event: FindEvent) -> (a: FindAction)
        ensures
            final(self).command@ == old(self).command@,
            (final(self).stage@, find_action_view(a)) == find_next(
                old(self).command@,
                old(self).stage@,
                event@,
            ),
    {
        match (&self.stage, &event) {
            (FindStage::Start, FindEvent::WhereSucceeded(true)) => {
                self.stage = FindStage::FoundName;
                FindAction::UseName
            },
            (FindStage::Start, FindEvent::WhereSucceeded(false)) => self.try_location(0),
            (FindStage::AwaitVar(k), FindEvent::VarSet(false)) => {
                let k = *k;
                if k < 8 {
                    self.try_location(k + 1)
                } else {
                    proof {
                        lemma_few_locations(self.command@);
                    }
                    self.stage = FindStage::NotFound;
                    FindAction::NotFound
                }
            },
            (FindStage::AwaitVar(k), FindEvent::VarSet(true)) => {
                let k = *k;
                let a = self.candidate(k);
                if let FindAction::CheckCandidate(_) = a {
                    self.stage = FindStage::AwaitExists(k);
                } else {
                    self.stage = FindStage::NotFound;
                }
                a
            },
            (FindStage::AwaitExists(_), FindEvent::CandidateExists(true)) => {
                self.stage = FindStage::FoundCandidate;
                FindAction::UseCandidate
            },
            (FindStage::AwaitExists(k), FindEvent::CandidateExists(false)) => {
                let k = *k;
                if k < 8 {
                    self.try_location(k + 1)
                } else {
                    proof {
                        lemma_few_locations(self.command@);
                    }
                    self.stage = FindStage::NotFound;
                    FindAction::NotFound
                }
            },
            _ => self.pending_action(),
        }
    }
}

proof fn lemma_few_locations(command: Seq<char>)
    ensures
        fallback_locations_spec(command).len() <= 7,
{
}

/// `dotnet` and `git` are different commands, in any case.
proof fn lemma_dotnet_is_not_git(command: Seq<char>)
    ensures
        !(eq_ignore_ascii_case(command, "dotnet"@) && eq_ignore_ascii_case(command, "git"@)),
{
    reveal_strlit("dotnet");
    reveal_strlit("git");
    assert(ascii_lowercase("dotnet"@).len() == 6);
    assert(ascii_lowercase("git"@).len() == 3);
}

/// A search for `dotnet` (in any case) that does not find it on the search
/// path looks for `%ProgramFiles%\dotnet\dotnet.exe`, then
/// `%ProgramFiles(x86)%\dotnet\dotnet.exe`, then
/// `%LOCALAPPDATA%\Microsoft\dotnet\dotnet.exe`, then
/// `%USERPROFILE%\.dotnet\dotnet.exe`, passing over a folder whose variable
/// is unset, and gives up after the last.  A candidate that exists is used,
/// and so is the bare name when the search path has it.
pub proof fn lemma_dotnet_search_order(command: Seq<char>)
    requires
        eq_ignore_ascii_case(command, "dotnet"@),
    ensures
        find_next(command, FindStageView::Start, FindEventView::WhereSucceeded(true)) == (
            FindStageView::FoundName,
            FindActionView::UseName,
        ),
        find_next(command, FindStageView::Start, FindEventView::WhereSucceeded(false)) == (
            FindStageView::AwaitVar(0),
            FindActionView::ReadVar("ProgramFiles"@),
        ),
        find_next(command, FindStageView::AwaitVar(0), FindEventView::VarSet(true)) == (
            FindStageView::AwaitExists(0),
            FindActionView::CheckCandidate(seq!["dotnet"@, "dotnet.exe"@]),
        ),
        find_next(command, FindStageView::AwaitVar(0), FindEventView::VarSet(false)) == (
            FindStageView::AwaitVar(1),
            FindActionView::ReadVar("ProgramFiles(x86)"@),
        ),
        find_next(command, FindStageView::AwaitExists(0), FindEventView::CandidateExists(false))
            == (FindStageView::AwaitVar(1), FindActionView::ReadVar("ProgramFiles(x86)"@)),
        find_next(command, FindStageView::AwaitVar(1), FindEventView::VarSet(true)) == (
            FindStageView::AwaitExists(1),
            FindActionView::CheckCandidate(seq!["dotnet"@, "dotnet.exe"@]),
        ),
        find_next(command, FindStageView::AwaitVar(1), FindEventView::VarSet(false)) == (
            FindStageView::AwaitVar(2),
            FindActionView::ReadVar("LOCALAPPDATA"@),
        ),
        find_next(command, FindStageView::AwaitExists(1), FindEventView::CandidateExists(false))
            == (FindStageView::AwaitVar(2), FindActionView::ReadVar("LOCALAPPDATA"@)),
        find_next(command, FindStageView::AwaitVar(2), FindEventView::VarSet(true)) == (
            FindStageView::AwaitExists(2),
            FindActionView::CheckCandidate(seq!["Microsoft"@, "dotnet"@, "dotnet.exe"@]),
        ),
        find_next(command, FindStageView::AwaitVar(2), FindEventView::VarSet(false)) == (
            FindStageView::AwaitVar(3),
            FindActionView::ReadVar("USERPROFILE"@),
        ),
        find_next(command, FindStageView::AwaitExists(2), FindEventView::CandidateExists(false))
            == (FindStageView::AwaitVar(3), FindActionView::ReadVar("USERPROFILE"@)),
        find_next(command, FindStageView::AwaitVar(3), FindEventView::VarSet(true)) == (
            FindStageView::AwaitExists(3),
            FindActionView::CheckCandidate(seq![".dotnet"@, "dotnet.exe"@]),
        ),
        find_next(command, FindStageView::AwaitVar(3), FindEventView::VarSet(false)) == (
            FindStageView::NotFound,
            FindActionView::NotFound,
        ),
        find_next(command, FindStageView::AwaitExists(3), FindEventView::CandidateExists(false))
            == (FindStageView::NotFound, FindActionView::NotFound),
        forall|k: int|
            0 <= k < 4 ==> #[trigger] find_next(
                command,
                FindStageView::AwaitExists(k),
                FindEventView::CandidateExists(true),
            ) == (FindStageView::FoundCandidate, FindActionView::UseCandidate),
{
    lemma_dotnet_is_not_git(command);
}

/// A search for `git` (in any case) that does not find it on the search
/// path looks for `Git\cmd\git.exe` under `%ProgramFiles%`, then
/// `%ProgramFiles(x86)%`, then `%LOCALAPPDATA%`, passing over a folder whose
/// variable is unset, and gives up after the last.
pub proof fn lemma_git_search_order(command: Seq<char>)
    requires
        eq_ignore_ascii_case(command, "git"@),
    ensures
        find_next(command, FindStageView::Start, FindEventView::WhereSucceeded(true)) == (
            FindStageView::FoundName,
            FindActionView::UseName,
        ),
        find_next(command, FindStageView::Start, FindEventView::WhereSucceeded(false)) == (
            FindStageView::AwaitVar(0),
            FindActionView::ReadVar("ProgramFiles"@),
        ),
        find_next(command, FindStageView::AwaitExists(0), FindEventView::CandidateExists(false))
            == (FindStageView::AwaitVar(1), FindActionView::ReadVar("ProgramFiles(x86)"@)),
        find_next(command, FindStageView::AwaitVar(0), FindEventView::VarSet(false)) == (
            FindStageView::AwaitVar(1),
            FindActionView::ReadVar("ProgramFiles(x86)"@),
        ),
        find_next(command, FindStageView::AwaitExists(1), FindEventView::CandidateExists(false))
            == (FindStageView::AwaitVar(2), FindActionView::ReadVar("LOCALAPPDATA"@)),
        find_next(command, FindStageView::AwaitVar(1), FindEventView::VarSet(false)) == (
            FindStageView::AwaitVar(2),
            FindActionView::ReadVar("LOCALAPPDATA"@),
        ),
        forall|k: int|
            0 <= k < 3 ==> #[trigger] find_next(
                command,
                FindStageView::AwaitVar(k),
                FindEventView::VarSet(true),
            ) == (
                FindStageView::AwaitExists(k),
                FindActionView::CheckCandidate(seq!["Git"@, "cmd"@, "git.exe"@]),
            ),
        find_next(command, FindStageView::AwaitVar(2), FindEventView::VarSet(false)) == (
            FindStageView::NotFound,
            FindActionView::NotFound,
        ),
        find_next(command, FindStageView::AwaitExists(2), FindEventView::CandidateExists(false))
            == (FindStageView::NotFound, FindActionView::NotFound),
{
    lemma_dotnet_is_not_git(command);
}

/// Any other command is looked for on the search path only: when `where`
/// does not find it, the search gives up at once.
pub proof fn lemma_other_commands_not_searched(command: Seq<char>)
    requires
        !eq_ignore_ascii_case(command, "git"@),
        !eq_ignore_ascii_case(command, "dotnet"@),
    ensures
        find_next(command, FindStageView::Start, FindEventView::WhereSucceeded(false)) == (
            FindStageView::NotFound,
            FindActionView::NotFound,
        ),
{
}

} // verus!
