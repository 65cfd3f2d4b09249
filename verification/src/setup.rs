//! Making sure a tool the build needs is there, installing it with winget
//! when the user agrees.
//!
//! The setup is a state machine: the application performs each action it is
//! given (probing for the tool or for winget, reading the SDK request of the
//! sources, asking the user, running the install) and hands the outcome back
//! as the next event.
use vstd::prelude::*;
use crate::commands::command_view;
use crate::commands::winget_install_command;
use crate::commands::winget_install_view;
use crate::commands::CommandSpec;
use crate::commands::CommandView;
use crate::tools::declines;
use crate::tools::is_decline;
use crate::tools::read_requested_sdk;
use crate::tools::requested_sdk_spec;
use crate::tools::sdk_package;
use crate::tools::sdk_package_spec;
use crate::tools::DEFAULT_SDK_VERSION;
use crate::whitespace::trim;
use crate::whitespace::trim_str;

verus! {

/// The tool being set up.
pub enum SetupKind {
    /// A command-line tool, found as `command`, installed as the winget
    /// package `winget_id`.
    Tool { command: String, winget_id: String },
    /// The .NET SDK that the sources ask for in their `global.json`.
    DotnetSdk,
}

/// How probing the tool went.
pub enum ProbeResult {
    /// The tool is there and works.
    Working,
    /// The tool cannot be found.
    Missing,
    /// The tool is there but failed, printing this on its error output.
    Broken(String),
}

/// The outcome of the last action, handed back to the machine.
pub enum SetupEvent {
    /// The tool was probed.
    Probed(ProbeResult),
    /// The text of the sources' `global.json`, or `None` when it cannot be read.
    SdkFile(Option<String>),
    /// winget was looked for: found or not.
    WingetProbed(bool),
    /// The user answered the question with this text.
    Answered(String),
    /// The install command ran successfully.
    InstallRan,
}

/// Where the setup stands.  `label` names the tool in reports (the command,
/// or the requested SDK version) and `package` is its winget package.
pub enum SetupStage {
    /// The tool is to be probed.
    Start,
    /// The SDK request of the sources is being read.
    AwaitSdkFile,
    /// winget is being looked for.
    AwaitWinget { label: String, package: String },
    /// The user is being asked whether to install.
    AwaitAnswer { label: String, package: String },
    /// The package is being installed.
    AwaitInstall { label: String, package: String },
    /// The tool is probed again after the install.
    Verify { label: String },
    /// The tool is there.
    Succeeded,
    /// The setup failed with this report.
    Failed(String),
}

/// What the application is to do next.
pub enum SetupAction {
    /// Probe the tool, and hand back `Probed`.
    ProbeTool,
    /// Read the sources' `global.json`, and hand back `SdkFile`.
    ReadSdkRequest,
    /// Print this notice, look for winget, and hand back `WingetProbed`.
    ProbeWinget(String),
    /// Ask the user this yes/no question, and hand back `Answered`.
    Ask(String),
    /// Run this command; when it succeeds, hand back `InstallRan`.
    Install(CommandSpec),
    /// The tool is there: the setup is over.
    Finish,
    /// The setup failed with this report.
    Fail(String),
}

/// A setup: the tool and where it stands.
pub struct ToolSetup {
    /// The tool being set up.
    pub kind: SetupKind,
    /// Where the setup stands.
    pub stage: SetupStage,
}

pub enum KindView {
    Tool(Seq<char>, Seq<char>),
    DotnetSdk,
}

pub enum ProbeView {
    Working,
    Missing,
    Broken(Seq<char>),
}

pub enum EventView {
    Probed(ProbeView),
    SdkFile(Option<Seq<char>>),
    WingetProbed(bool),
    Answered(Seq<char>),
    InstallRan,
}

pub enum StageView {
    Start,
    AwaitSdkFile,
    AwaitWinget(Seq<char>, Seq<char>),
    AwaitAnswer(Seq<char>, Seq<char>),
    AwaitInstall(Seq<char>, Seq<char>),
    Verify(Seq<char>),
    Succeeded,
    Failed(Seq<char>),
}

/// An action as plain values.
pub enum ActionView {
    ProbeTool,
    ReadSdkRequest,
    ProbeWinget(Seq<char>),
    Ask(Seq<char>),
    Install(CommandView),
    Finish,
    Fail(Seq<char>),
}

impl View for SetupKind {
    type V = KindView;

    open spec fn view(&self) -> KindView {
        match self {
            SetupKind::Tool { command, winget_id } => KindView::Tool(command@, winget_id@),
            SetupKind::DotnetSdk => KindView::DotnetSdk,
        }
    }
}

impl View for ProbeResult {
    type V = ProbeView;

    open spec fn view(&self) -> ProbeView {
        match self {
            ProbeResult::Working => ProbeView::Working,
            ProbeResult::Missing => ProbeView::Missing,
            ProbeResult::Broken(e) => ProbeView::Broken(e@),
        }
    }
}

impl View for SetupEvent {
    type V = EventView;

    open spec fn view(&self) -> EventView {
        match self {
            SetupEvent::Probed(p) => EventView::Probed(p@),
            SetupEvent::SdkFile(t) => EventView::SdkFile(
                match t {
                    Some(t) => Some(t@),
                    None => None,
                },
            ),
            SetupEvent::WingetProbed(b) => EventView::WingetProbed(*b),
            SetupEvent::Answered(a) => EventView::Answered(a@),
            SetupEvent::InstallRan => EventView::InstallRan,
        }
    }
}

impl View for SetupStage {
    type V = StageView;

    open spec fn view(&self) -> StageView {
        match self {
            SetupStage::Start => StageView::Start,
            SetupStage::AwaitSdkFile => StageView::AwaitSdkFile,
            SetupStage::AwaitWinget { label, package } => StageView::AwaitWinget(label@, package@),
            SetupStage::AwaitAnswer { label, package } => StageView::AwaitAnswer(label@, package@),
            SetupStage::AwaitInstall { label, package } => StageView::AwaitInstall(
                label@,
                package@,
            ),
            SetupStage::Verify { label } => StageView::Verify(label@),
            SetupStage::Succeeded => StageView::Succeeded,
            SetupStage::Failed(m) => StageView::Failed(m@),
        }
    }
}

/// An action and the command it carries, as plain values.
pub open spec fn action_view(a: SetupAction) -> ActionView {
    match a {
        SetupAction::ProbeTool => ActionView::ProbeTool,
        SetupAction::ReadSdkRequest => ActionView::ReadSdkRequest,
        SetupAction::ProbeWinget(n) => ActionView::ProbeWinget(n@),
        SetupAction::Ask(q) => ActionView::Ask(q@),
        SetupAction::Install(c) => ActionView::Install(command_view(c)),
        SetupAction::Finish => ActionView::Finish,
        SetupAction::Fail(m) => ActionView::Fail(m@),
    }
}

/// The SDK version that the text of `global.json` asks for, or the default
/// one when the file cannot be read or names none.
pub open spec fn requested_version(file: Option<Seq<char>>) -> Seq<char> {
    match file {
        Some(t) => match requested_sdk_spec(t) {
            Some(v) => v,
            None => DEFAULT_SDK_VERSION@,
        },
        None => DEFAULT_SDK_VERSION@,
    }
}

/// The notice printed when the tool labelled `label` is missing.
pub open spec fn missing_notice(kind: KindView, label: Seq<char>) -> Seq<char> {
    match kind {
        KindView::Tool(_, _) => label + " isn't installed"@,
        KindView::DotnetSdk => "the required .NET SDK "@ + label + " isn't installed"@,
    }
}

/// The report when winget is not there to install `package`.
pub open spec fn no_winget_message(kind: KindView, label: Seq<char>, package: Seq<char>) -> Seq<
    char,
> {
    match kind {
        KindView::Tool(_, _) => "install "@ + label
            + " and try again. winget isn't available to install "@ + package + " for you"@,
        KindView::DotnetSdk => "install .NET SDK "@ + label
            + " and try again. winget isn't available to install "@ + package + " for you."@,
    }
}

/// The question whether to install `package` with winget.
pub open spec fn install_question(kind: KindView, label: Seq<char>, package: Seq<char>) -> Seq<
    char,
> {
    match kind {
        KindView::Tool(_, _) => "install "@ + label + " with winget ("@ + package + ")?"@,
        KindView::DotnetSdk => "install .NET SDK "@ + label + " with winget ("@ + package + ")?"@,
    }
}

/// The report when the user declines the install.
pub open spec fn declined_message(kind: KindView, label: Seq<char>) -> Seq<char> {
    match kind {
        KindView::Tool(_, _) => "can't continue without "@ + label,
        KindView::DotnetSdk => "can't continue without .NET SDK "@ + label,
    }
}

/// The report when the tool still does not work after the install.
pub open spec fn still_failing_message(kind: KindView, label: Seq<char>, probe: ProbeView) -> Seq<
    char,
> {
    match kind {
        KindView::Tool(_, _) => label
            + " still isn't showing up after install. restart the terminal and try again."@,
        KindView::DotnetSdk => match probe {
            ProbeView::Broken(e) => "the .NET SDK install finished, but this project still can't resolve SDK "@
                + label + ": "@ + trim(e),
            _ => "installed the .NET SDK, but still couldn't find dotnet.exe"@,
        },
    }
}

/// The action a stage waits on; a stage is left only by the event that
/// answers it, and any other event repeats the action.
pub open spec fn pending_action(kind: KindView, stage: StageView) -> ActionView {
    match stage {
        StageView::Start => ActionView::ProbeTool,
        StageView::AwaitSdkFile => ActionView::ReadSdkRequest,
        StageView::AwaitWinget(l, _) => ActionView::ProbeWinget(missing_notice(kind, l)),
        StageView::AwaitAnswer(l, p) => ActionView::Ask(install_question(kind, l, p)),
        StageView::AwaitInstall(_, p) => ActionView::Install(winget_install_view(p)),
        StageView::Verify(_) => ActionView::ProbeTool,
        StageView::Succeeded => ActionView::Finish,
        StageView::Failed(m) => ActionView::Fail(m),
    }
}

/// Looking for winget to install `package`, for the tool labelled `label`.
pub open spec fn look_for_winget(kind: KindView, label: Seq<char>, package: Seq<char>) -> (
    StageView,
    ActionView,
) {
    (StageView::AwaitWinget(label, package), ActionView::ProbeWinget(missing_notice(kind, label)))
}

/// The stage and action that follow `stage` on `event`.
pub open spec fn setup_next(kind: KindView, stage: StageView, event: EventView) -> (
    StageView,
    ActionView,
) {
    match (stage, event) {
        (StageView::Start, EventView::Probed(ProbeView::Working)) => (
            StageView::Succeeded,
            ActionView::Finish,
        ),
        (StageView::Start, EventView::Probed(_)) => match kind {
            KindView::Tool(c, w) => look_for_winget(kind, c, w),
            KindView::DotnetSdk => (StageView::AwaitSdkFile, ActionView::ReadSdkRequest),
        },
        (StageView::AwaitSdkFile, EventView::SdkFile(file)) => {
            let r = requested_version(file);
            match sdk_package_spec(r) {
                Some(p) => look_for_winget(kind, r, p),
                None => {
                    let m = "invalid .NET SDK version in global.json: "@ + r;
                    (StageView::Failed(m), ActionView::Fail(m))
                },
            }
        },
        (StageView::AwaitWinget(l, p), EventView::WingetProbed(found)) => if found {
            (StageView::AwaitAnswer(l, p), ActionView::Ask(install_question(kind, l, p)))
        } else {
            let m = no_winget_message(kind, l, p);
            (StageView::Failed(m), ActionView::Fail(m))
        },
        (StageView::AwaitAnswer(l, p), EventView::Answered(a)) => if declines(a) {
            let m = declined_message(kind, l);
            (StageView::Failed(m), ActionView::Fail(m))
        } else {
            (StageView::AwaitInstall(l, p), ActionView::Install(winget_install_view(p)))
        },
        (StageView::AwaitInstall(l, _), EventView::InstallRan) => (
            StageView::Verify(l),
            ActionView::ProbeTool,
        ),
        (StageView::Verify(_), EventView::Probed(ProbeView::Working)) => (
            StageView::Succeeded,
            ActionView::Finish,
        ),
        (StageView::Verify(l), EventView::Probed(probe)) => {
            let m = still_failing_message(kind, l, probe);
            (StageView::Failed(m), ActionView::Fail(m))
        },
        _ => (stage, pending_action(kind, stage)),
    }
}

fn concat2(a: &str, b: &str) -> (s: String)
    ensures
        s@ == a@ + b@,
{
    let mut s = String::from_str(a);
    s.append(b);
    s
}

fn concat3(a: &str, b: &str, c: &str) -> (s: String)
    ensures
        s@ == a@ + b@ + c@,
{
    let mut s = String::from_str(a);
    s.append(b);
    s.append(c);
    s
}

fn concat5(a: &str, b: &str, c: &str, d: &str, e: &str) -> (s: String)
    ensures
        s@ == a@ + b@ + c@ + d@ + e@,
{
    let mut s = String::from_str(a);
    s.append(b);
    s.append(c);
    s.append(d);
    s.append(e);
    s
}

fn missing_notice_exec(kind: &SetupKind, label: &str) -> (s: String)
    ensures
        s@ == missing_notice(kind@, label@),
{
    match kind {
        SetupKind::Tool { .. } => concat2(label, " isn't installed"),
        SetupKind::DotnetSdk => concat3("the required .NET SDK ", label, " isn't installed"),
    }
}

fn no_winget_message_exec(kind: &SetupKind, label: &str, package: &str) -> (s: String)
    ensures
        s@ == no_winget_message(kind@, label@, package@),
{
    match kind {
        SetupKind::Tool { .. } => concat5(
            "install ",
            label,
            " and try again. winget isn't available to install ",
            package,
            " for you",
        ),
        SetupKind::DotnetSdk => concat5(
            "install .NET SDK ",
            label,
            " and try again. winget isn't available to install ",
            package,
            " for you.",
        ),
    }
}

fn install_question_exec(kind: &SetupKind, label: &str, package: &str) -> (s: String)
    ensures
        s@ == install_question(kind@, label@, package@),
{
    match kind {
        SetupKind::Tool { .. } => concat5("install ", label, " with winget (", package, ")?"),
        SetupKind::DotnetSdk => concat5("install .NET SDK ", label, " with winget (", package, ")?"),
    }
}

fn declined_message_exec(kind: &SetupKind, label: &str) -> (s: String)
    ensures
        s@ == declined_message(kind@, label@),
{
    match kind {
        SetupKind::Tool { .. } => concat2("can't continue without ", label),
        SetupKind::DotnetSdk => concat2("can't continue without .NET SDK ", label),
    }
}

fn still_failing_message_exec(kind: &SetupKind, label: &str, probe: &ProbeResult) -> (s: String)
    ensures
        s@ == still_failing_message(kind@, label@, probe@),
{
    match kind {
        SetupKind::Tool { .. } => concat2(
            label,
            " still isn't showing up after install. restart the terminal and try again.",
        ),
        SetupKind::DotnetSdk => match probe {
            ProbeResult::Broken(e) => {
                let mut m = concat3(
                    "the .NET SDK install finished, but this project still can't resolve SDK ",
                    label,
                    ": ",
                );
                m.append(trim_str(e.as_str()).as_str());
                m
            },
            _ => String::from_str("installed the .NET SDK, but still couldn't find dotnet.exe"),
        },
    }
}

fn install_action(package: &str) -> (a: SetupAction)
    ensures
        action_view(a) == ActionView::Install(winget_install_view(package@)),
{
    SetupAction::Install(winget_install_command(package))
}

fn pending_action_exec(kind: &SetupKind, stage: &SetupStage) -> (a: SetupAction)
    ensures
        action_view(a) == pending_action(kind@, stage@),
{
    match stage {
        SetupStage::Start => SetupAction::ProbeTool,
        SetupStage::AwaitSdkFile => SetupAction::ReadSdkRequest,
        SetupStage::AwaitWinget { label, .. } => SetupAction::ProbeWinget(
            missing_notice_exec(kind, label.as_str()),
        ),
        SetupStage::AwaitAnswer { label, package } => SetupAction::Ask(
            install_question_exec(kind, label.as_str(), package.as_str()),
        ),
        SetupStage::AwaitInstall { package, .. } => install_action(package.as_str()),
        SetupStage::Verify { .. } => SetupAction::ProbeTool,
        SetupStage::Succeeded => SetupAction::Finish,
        SetupStage::Failed(m) => SetupAction::Fail(m.clone()),
    }
}

/// The SDK version that the text of `global.json` asks for, or the default.
fn requested_version_exec(file: &Option<String>) -> (v: String)
    ensures
        v@ == requested_version(
            match file {
                Some(t) => Some(t@),
                None => None,
            },
        ),
{
    match file {
        Some(t) => match read_requested_sdk(t.as_str()) {
            Some(v) => v,
            None => String::from_str(DEFAULT_SDK_VERSION),
        },
        None => String::from_str(DEFAULT_SDK_VERSION),
    }
}

impl ToolSetup {
    /// A setup of `kind` that starts by probing the tool.
    pub fn new(kind: SetupKind) -> (s: ToolSetup)
        ensures
            s.kind@ == kind@,
            s.stage@ == StageView::Start,
    {
        ToolSetup { kind, stage: SetupStage::Start }
    }

    /// The action the setup waits on: at the start, probing the tool.
    pub fn first_action(&self) -> (a: SetupAction)
        ensures
            action_view(a) == pending_action(self.kind@, self.stage@),
    {
        pending_action_exec(&self.kind, &self.stage)
    }

    /// Looks for winget to install `package`, for the tool labelled `label`.
    fn look_for_winget(&mut self, label: String, package: String) -> (a: SetupAction)
        ensures
            final(self).kind@ == old(self).kind@,
            (final(self).stage@, action_view(a)) == look_for_winget(
                old(self).kind@,
                label@,
                package@,
            ),
    {
        let notice = missing_notice_exec(&self.kind, label.as_str());
        self.stage = SetupStage::AwaitWinget { label, package };
        SetupAction::ProbeWinget(notice)
    }

    /// Fails with the report `m`.
    fn fail(&mut self, m: String) -> (a: SetupAction)
        ensures
            final(self).kind@ == old(self).kind@,
            final(self).stage@ == StageView::Failed(m@),
            action_view(a) == ActionView::Fail(m@),
    {
        self.stage = SetupStage::Failed(m.clone());
        SetupAction::Fail(m)
    }

    /// Moves the setup on by the outcome `event` of the last action, and
    /// gives the next action.
    pub fn step(&mut self, event: SetupEvent) -> (a: SetupAction)
        ensures
            final(self).kind@ == old(self).kind@,
            (final(self).stage@, action_view(a)) == setup_next(
                old(self).kind@,
                old(self).stage@,
                event@,
            ),
    {
        match (&self.stage, &event) {
            (SetupStage::Start, SetupEvent::Probed(ProbeResult::Working)) => {
                self.stage = SetupStage::Succeeded;
                SetupAction::Finish
            },
            (SetupStage::Start, SetupEvent::Probed(_)) => {
                let tool: Option<(String, String)> = match &self.kind {
                    SetupKind::Tool { command, winget_id } => Some(
                        (command.clone(), winget_id.clone()),
                    ),
                    SetupKind::DotnetSdk => None,
                };
                match tool {
                    Some((c, w)) => self.look_for_winget(c, w),
                    None => {
                        self.stage = SetupStage::AwaitSdkFile;
                        SetupAction::ReadSdkRequest
                    },
                }
            },
            (SetupStage::AwaitSdkFile, SetupEvent::SdkFile(file)) => {
                let r = requested_version_exec(file);
                match sdk_package(r.as_str()) {
                    Some(p) => self.look_for_winget(r, p),
                    None => {
                        let m = concat2("invalid .NET SDK version in global.json: ", r.as_str());
                        self.fail(m)
                    },
                }
            },
            (SetupStage::AwaitWinget { label, package }, SetupEvent::WingetProbed(found)) => {
                if *found {
                    let q = install_question_exec(&self.kind, label.as_str(), package.as_str());
                    self.stage = SetupStage::AwaitAnswer { label: label.clone(), package: package.clone() };
                    SetupAction::Ask(q)
                } else {
                    let m = no_winget_message_exec(&self.kind, label.as_str(), package.as_str());
                    self.fail(m)
                }
            },
            (SetupStage::AwaitAnswer { label, package }, SetupEvent::Answered(answer)) => {
                if is_decline(answer.as_str()) {
                    let m = declined_message_exec(&self.kind, label.as_str());
                    self.fail(m)
                } else {
                    let a = install_action(package.as_str());
                    self.stage = SetupStage::AwaitInstall { label: label.clone(), package: package.clone() };
                    a
                }
            },
            (SetupStage::AwaitInstall { label, .. }, SetupEvent::InstallRan) => {
                self.stage = SetupStage::Verify { label: label.clone() };
                SetupAction::ProbeTool
            },
            (SetupStage::Verify { .. }, SetupEvent::Probed(ProbeResult::Working)) => {
                self.stage = SetupStage::Succeeded;
                SetupAction::Finish
            },
            (SetupStage::Verify { label }, SetupEvent::Probed(probe)) => {
                let m = still_failing_message_exec(&self.kind, label.as_str(), probe);
                self.fail(m)
            },
            _ => pending_action_exec(&self.kind, &self.stage),
        }
    }
}

/// Nothing is installed without the user's consent: the only step that
/// starts an install is the answer to the install question that does not
/// decline it (or the repetition of that install while it has not reported
/// back), and it installs the package the question named.
pub proof fn lemma_install_needs_consent(kind: KindView, stage: StageView, event: EventView)
    ensures
        setup_next(kind, stage, event).1 is Install ==> match stage {
            StageView::AwaitAnswer(_, p) => (event matches EventView::Answered(a) && !declines(a))
                && setup_next(kind, stage, event).1 == ActionView::Install(winget_install_view(p)),
            StageView::AwaitInstall(_, p) => setup_next(kind, stage, event).1
                == ActionView::Install(winget_install_view(p)),
            _ => false,
        },
{
}

/// A tool that already works is left alone: the first probe finds it, the
/// setup finishes, and nothing is read, asked or installed after that.
pub proof fn lemma_working_tool_left_alone(kind: KindView, event: EventView)
    ensures
        setup_next(kind, StageView::Start, EventView::Probed(ProbeView::Working)) == (
            StageView::Succeeded,
            ActionView::Finish,
        ),
        setup_next(kind, StageView::Succeeded, event) == (StageView::Succeeded, ActionView::Finish),
{
}

/// The sources' SDK request is read only after a probe found the SDK not
/// working (or again while that read has not reported back).
pub proof fn lemma_sdk_request_read_after_failed_probe(
    kind: KindView,
    stage: StageView,
    event: EventView,
)
    ensures
        setup_next(kind, stage, event).1 is ReadSdkRequest ==> (kind is DotnetSdk && stage is Start
            && (event matches EventView::Probed(p) && !(p is Working))) || stage is AwaitSdkFile,
{
}

/// A finished setup stays finished: after success or failure every event
/// leaves the stage as it is and repeats the outcome.
pub proof fn lemma_finished_setup_stays(kind: KindView, stage: StageView, event: EventView)
    requires
        stage is Succeeded || stage is Failed,
    ensures
        setup_next(kind, stage, event) == (stage, pending_action(kind, stage)),
{
}

/// Whatever the tool, a probe that finds it working finishes the setup,
/// whether it is the first probe or the one after an install; and a setup
/// finishes only on such a probe, or repeats that it has finished.  A probe
/// after an install fails the setup only when the tool is still not working.
pub proof fn lemma_working_probe_finishes(kind: KindView, stage: StageView, event: EventView)
    ensures
        (stage is Start || stage is Verify) && event == EventView::Probed(ProbeView::Working)
            ==> setup_next(kind, stage, event) == (StageView::Succeeded, ActionView::Finish),
        setup_next(kind, stage, event).1 is Finish ==> ((stage is Start || stage is Verify)
            && event == EventView::Probed(ProbeView::Working)) || stage is Succeeded,
        stage is Verify && setup_next(kind, stage, event).1 is Fail ==> (event matches EventView::Probed(
            p,
        ) && !(p is Working)),
{
}

} // verus!
