//! What the installer does once the patched sources are built.
use vstd::prelude::*;
use crate::args::Config;
use crate::args::ConfigView;

verus! {

/// One step of installing a finished build.
#[derive(Clone, Copy, Debug, PartialEq, Eq, Structural)]
pub enum InstallStep {
    /// Report where the build and the temporary folder are, and stop.
    ReportBuildOnly,
    /// Stop running Roblox and Fishstrap processes.
    CloseRunningApps,
    /// Wait for this process to exit.
    WaitForProcessExit(u32),
    /// Create the install folder.
    CreateInstallDir,
    /// Copy the build into the install folder.
    CopyArtifacts,
    /// Copy the installer into the install folder, as the updater.
    CopyUpdater,
    /// Create the Start menu shortcut.
    CreateStartMenuShortcut,
    /// Register the installation with Windows.
    RegisterInstall,
    /// Start the installed application with the requested arguments.
    LaunchApp,
    /// Remove the temporary build folder.
    RemoveWorkDir,
    /// Report where the temporary build folder is.
    ReportWorkDir,
    /// Report where Fishstrap was installed.
    ReportInstalled,
}

/// The steps, in order, that the configuration `c` asks for.
pub open spec fn install_steps_spec(c: ConfigView) -> Seq<InstallStep> {
    if c.build_only {
        seq![InstallStep::ReportBuildOnly]
    } else {
        seq![InstallStep::CloseRunningApps] + match c.wait_pid {
            Some(pid) => seq![InstallStep::WaitForProcessExit(pid)],
            None => Seq::empty(),
        } + seq![
            InstallStep::CreateInstallDir,
            InstallStep::CopyArtifacts,
            InstallStep::CopyUpdater,
            InstallStep::CreateStartMenuShortcut,
            InstallStep::RegisterInstall,
        ] + (if c.launch_args.len() > 0 {
            seq![InstallStep::LaunchApp]
        } else {
            Seq::empty()
        }) + (if c.keep_temp {
            seq![InstallStep::ReportWorkDir]
        } else {
            seq![InstallStep::RemoveWorkDir]
        }) + seq![InstallStep::ReportInstalled]
    }
}

/// `s` changes the install folder or what is registered for it.
pub open spec fn touches_install(s: InstallStep) -> bool {
    match s {
        InstallStep::CreateInstallDir | InstallStep::CopyArtifacts | InstallStep::CopyUpdater
        | InstallStep::CreateStartMenuShortcut | InstallStep::RegisterInstall => true,
        _ => false,
    }
}

/// The steps, in order, that `config` asks for once the build is done.
pub fn install_steps(config: &Config) -> (steps: Vec<InstallStep>)
    ensures
        steps@ == install_steps_spec(config@),
{
    let mut steps: Vec<InstallStep> = Vec::new();
    if config.build_only {
        steps.push(InstallStep::ReportBuildOnly);
        assert(steps@ =~= install_steps_spec(config@));
        return steps;
    }
    steps.push(InstallStep::CloseRunningApps);
    if let Some(pid) = config.wait_pid {
        steps.push(InstallStep::WaitForProcessExit(pid));
    }
    steps.push(InstallStep::CreateInstallDir);
    steps.push(InstallStep::CopyArtifacts);
    steps.push(InstallStep::CopyUpdater);
    steps.push(InstallStep::CreateStartMenuShortcut);
    steps.push(InstallStep::RegisterInstall);
    if config.launch_args.len() > 0 {
        steps.push(InstallStep::LaunchApp);
    }
    if config.keep_temp {
        steps.push(InstallStep::ReportWorkDir);
    } else {
        steps.push(InstallStep::RemoveWorkDir);
    }
    steps.push(InstallStep::ReportInstalled);
    assert(steps@ =~= install_steps_spec(config@));
    steps
}

/// A build-only run installs nothing: none of its steps touches the install
/// folder.
pub proof fn lemma_build_only_installs_nothing(c: ConfigView)
    requires
        c.build_only,
    ensures
        forall|i: int|
            0 <= i < install_steps_spec(c).len() ==> !touches_install(
                #[trigger] install_steps_spec(c)[i],
            ),
{
}

/// When an update asks to wait for a process, the wait comes after running
/// applications are closed and before anything in the install folder is
/// touched; and the running applications are always closed first.
pub proof fn lemma_wait_before_install(c: ConfigView)
    requires
        !c.build_only,
    ensures
        install_steps_spec(c)[0] == InstallStep::CloseRunningApps,
        c.wait_pid matches Some(pid) ==> install_steps_spec(c)[1] == InstallStep::WaitForProcessExit(
            pid,
        ),
        forall|i: int|
            0 <= i < install_steps_spec(c).len() && #[trigger] touches_install(
                install_steps_spec(c)[i],
            ) ==> i >= 1 + (if c.wait_pid is Some {
                1int
            } else {
                0
            }),
{
    let steps = install_steps_spec(c);
    let w: int = if c.wait_pid is Some { 1 } else { 0 };
    assert forall|i: int| 0 <= i < steps.len() && #[trigger] touches_install(steps[i]) implies i
        >= 1 + w by {
        if i < 1 + w {
            if i == 0 {
                assert(steps[0] == InstallStep::CloseRunningApps);
            } else {
                assert(steps[1] == InstallStep::WaitForProcessExit(c.wait_pid->0));
            }
        }
    }
}

/// What an install does besides installing follows its own option alone:
/// the temporary build folder is removed unless `--keep-temp` was given, and
/// then it is reported instead; the application is started exactly when
/// launch arguments were given; the installer waits for exactly the process
/// it was asked to wait for; and every install ends by reporting where
/// Fishstrap was installed.
pub proof fn lemma_install_step_choices(c: ConfigView)
    requires
        !c.build_only,
    ensures
        install_steps_spec(c).contains(InstallStep::RemoveWorkDir) == !c.keep_temp,
        install_steps_spec(c).contains(InstallStep::ReportWorkDir) == c.keep_temp,
        install_steps_spec(c).contains(InstallStep::LaunchApp) == (c.launch_args.len() > 0),
        forall|pid: u32|
            #[trigger] install_steps_spec(c).contains(InstallStep::WaitForProcessExit(pid)) == (
            c.wait_pid == Some(pid)),
        !install_steps_spec(c).contains(InstallStep::ReportBuildOnly),
        install_steps_spec(c).last() == InstallStep::ReportInstalled,
{
    let steps = install_steps_spec(c);
    let w: int = if c.wait_pid is Some { 1 } else { 0 };
    let l: int = if c.launch_args.len() > 0 { 1 } else { 0 };
    let temp = 6 + w + l;
    assert(steps.len() == temp + 2);
    assert(steps[temp] == (if c.keep_temp {
        InstallStep::ReportWorkDir
    } else {
        InstallStep::RemoveWorkDir
    }));
    assert(steps[temp + 1] == InstallStep::ReportInstalled);
    assert(forall|i: int|
        0 <= i < steps.len() && i != temp ==> #[trigger] steps[i] != InstallStep::RemoveWorkDir
            && steps[i] != InstallStep::ReportWorkDir);
    assert(forall|i: int|
        0 <= i < steps.len() && (l == 0 || i != 6 + w) ==> #[trigger] steps[i]
            != InstallStep::LaunchApp);
    assert(forall|i: int| 0 <= i < steps.len() ==> #[trigger] steps[i] != InstallStep::ReportBuildOnly);
    if c.launch_args.len() > 0 {
        assert(steps[6 + w] == InstallStep::LaunchApp);
    }
    assert forall|pid: u32|
        #[trigger] steps.contains(InstallStep::WaitForProcessExit(pid)) == (c.wait_pid == Some(
            pid,
        )) by {
        if c.wait_pid == Some(pid) {
            assert(steps[1] == InstallStep::WaitForProcessExit(pid));
        }
        assert(forall|i: int|
            0 <= i < steps.len() && (w == 0 || i != 1) ==> #[trigger] steps[i]
                != InstallStep::WaitForProcessExit(pid));
    }
}

} // verus!
