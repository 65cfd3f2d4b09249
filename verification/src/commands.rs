//! The commands the installer runs, and the PowerShell scripts it hands to
//! PowerShell: which program, which arguments, in which folder.
use vstd::prelude::*;
use crate::escape::escape_powershell;
use crate::escape::escape_powershell_text;
use crate::escape::escape_quotes;
use crate::number::decimal;
use crate::number::decimal_string;
use crate::whitespace::trim;
use crate::whitespace::trim_str;

verus! {

/// A command to run: the program, its arguments, and the folder to run it in
/// (`None`: the installer's own).
pub struct CommandSpec {
    /// The program.
    pub program: String,
    /// Its arguments, in order.
    pub args: Vec<String>,
    /// The folder it runs in.
    pub current_dir: Option<String>,
}

/// The texts of a list of strings.
pub open spec fn views(v: Seq<String>) -> Seq<Seq<char>> {
    v.map_values(|s: String| s@)
}

/// A command as plain values.
pub struct CommandView {
    pub program: Seq<char>,
    pub args: Seq<Seq<char>>,
    pub current_dir: Option<Seq<char>>,
}

/// The command `c` as plain values.
pub open spec fn command_view(c: CommandSpec) -> CommandView {
    CommandView {
        program: c.program@,
        args: views(c.args@),
        current_dir: match c.current_dir {
            Some(d) => Some(d@),
            None => None,
        },
    }
}

/// The texts of the arguments of `c`.
pub open spec fn args_of(c: CommandSpec) -> Seq<Seq<char>> {
    views(c.args@)
}

/// Appends `a` to the argument list `args`.
pub fn push_arg(args: &mut Vec<String>, a: &str)
    ensures
        views(final(args)@) == views(old(args)@).push(a@),
{
    args.push(String::from_str(a));
    assert(views(args@) =~= views(old(args)@).push(a@));
}

/// The arguments of `git clone` for a shallow clone of `repo`, with its
/// submodules, into `destination`, on `branch` when one is given.
pub open spec fn clone_args(repo: Seq<char>, branch: Option<Seq<char>>, destination: Seq<char>) -> Seq<
    Seq<char>,
> {
    seq!["clone"@, "--depth"@, "1"@, "--recurse-submodules"@, "--shallow-submodules"@] + match branch {
        Some(b) => seq!["--branch"@, b],
        None => Seq::empty(),
    } + seq![repo, destination]
}

/// The command that clones the Fishstrap sources: `git` (found at `git`)
/// cloning `repo`, shallowly and with submodules, into `destination`.
pub fn clone_repo(git: &str, repo: &str, branch: Option<&str>, destination: &str) -> (c: CommandSpec)
    ensures
        c.program@ == git@,
        c.current_dir is None,
        args_of(c) == clone_args(
            repo@,
            match branch {
                Some(b) => Some(b@),
                None => None,
            },
            destination@,
        ),
{
    let mut args: Vec<String> = Vec::new();
    push_arg(&mut args, "clone");
    push_arg(&mut args, "--depth");
    push_arg(&mut args, "1");
    push_arg(&mut args, "--recurse-submodules");
    push_arg(&mut args, "--shallow-submodules");
    if let Some(b) = branch {
        push_arg(&mut args, "--branch");
        push_arg(&mut args, b);
    }
    push_arg(&mut args, repo);
    push_arg(&mut args, destination);
    let c = CommandSpec { program: String::from_str(git), args, current_dir: None };
    assert(args_of(c) =~= clone_args(
        repo@,
        match branch {
            Some(b) => Some(b@),
            None => None,
        },
        destination@,
    ));
    c
}

/// The commands that build Fishstrap with `dotnet`, both run in the project
/// folder: restoring the solution, then publishing the project `project`
/// (Release, win-x64, framework-dependent, not single-file) into `artifact_dir`.
pub fn build_commands(dotnet: &str, project: &str, artifact_dir: &str, project_dir: &str) -> (cs:
    Vec<CommandSpec>)
    ensures
        cs.len() == 2,
        forall|i: int|
            0 <= i < 2 ==> (#[trigger] cs[i]).program@ == dotnet@ && (cs[i].current_dir matches Some(
                d,
            ) && d@ == project_dir@),
        args_of(cs[0]) == seq!["restore"@, "Fishstrap.sln"@],
        args_of(cs[1]) == seq![
            "publish"@,
            project@,
            "-c"@,
            "Release"@,
            "-r"@,
            "win-x64"@,
            "--self-contained"@,
            "false"@,
            "-p:PublishSingleFile=false"@,
            "-o"@,
            artifact_dir@,
        ],
{
    let mut restore: Vec<String> = Vec::new();
    push_arg(&mut restore, "restore");
    push_arg(&mut restore, "Fishstrap.sln");
    let mut publish: Vec<String> = Vec::new();
    push_arg(&mut publish, "publish");
    push_arg(&mut publish, project);
    push_arg(&mut publish, "-c");
    push_arg(&mut publish, "Release");
    push_arg(&mut publish, "-r");
    push_arg(&mut publish, "win-x64");
    push_arg(&mut publish, "--self-contained");
    push_arg(&mut publish, "false");
    push_arg(&mut publish, "-p:PublishSingleFile=false");
    push_arg(&mut publish, "-o");
    push_arg(&mut publish, artifact_dir);
    let mut cs: Vec<CommandSpec> = Vec::new();
    cs.push(
        CommandSpec {
            program: String::from_str(dotnet),
            args: restore,
            current_dir: Some(String::from_str(project_dir)),
        },
    );
    cs.push(
        CommandSpec {
            program: String::from_str(dotnet),
            args: publish,
            current_dir: Some(String::from_str(project_dir)),
        },
    );
    assert(args_of(cs[0]) =~= seq!["restore"@, "Fishstrap.sln"@]);
    assert(args_of(cs[1]) =~= seq![
        "publish"@,
        project@,
        "-c"@,
        "Release"@,
        "-r"@,
        "win-x64"@,
        "--self-contained"@,
        "false"@,
        "-p:PublishSingleFile=false"@,
        "-o"@,
        artifact_dir@,
    ]);
    cs
}

/// The arguments of winget that install the package `id` exactly, from the
/// winget source, accepting its agreements.
pub open spec fn winget_install_args(id: Seq<char>) -> Seq<Seq<char>> {
    seq![
        "install"@,
        "--id"@,
        id,
        "--exact"@,
        "--source"@,
        "winget"@,
        "--accept-package-agreements"@,
        "--accept-source-agreements"@,
    ]
}

/// The winget command that installs the package `id`.
pub open spec fn winget_install_view(id: Seq<char>) -> CommandView {
    CommandView { program: "winget"@, args: winget_install_args(id), current_dir: None }
}

/// The command that installs the package `id` with winget, accepting its
/// agreements.
pub fn winget_install_command(id: &str) -> (c: CommandSpec)
    ensures
        command_view(c) == winget_install_view(id@),
{
    let mut args: Vec<String> = Vec::new();
    push_arg(&mut args, "install");
    push_arg(&mut args, "--id");
    push_arg(&mut args, id);
    push_arg(&mut args, "--exact");
    push_arg(&mut args, "--source");
    push_arg(&mut args, "winget");
    push_arg(&mut args, "--accept-package-agreements");
    push_arg(&mut args, "--accept-source-agreements");
    let c = CommandSpec { program: String::from_str("winget"), args, current_dir: None };
    assert(args_of(c) =~= winget_install_args(id@));
    c
}

/// The command that runs `script` in PowerShell, without profile and with
/// script execution allowed.
pub fn powershell_command(script: &str) -> (c: CommandSpec)
    ensures
        c.program@ == "powershell"@,
        c.current_dir is None,
        args_of(c) == seq![
            "-NoProfile"@,
            "-ExecutionPolicy"@,
            "Bypass"@,
            "-Command"@,
            script@,
        ],
{
    let mut args: Vec<String> = Vec::new();
    push_arg(&mut args, "-NoProfile");
    push_arg(&mut args, "-ExecutionPolicy");
    push_arg(&mut args, "Bypass");
    push_arg(&mut args, "-Command");
    push_arg(&mut args, script);
    let c = CommandSpec { program: String::from_str("powershell"), args, current_dir: None };
    assert(args_of(c) =~= seq!["-NoProfile"@, "-ExecutionPolicy"@, "Bypass"@, "-Command"@, script@]);
    c
}

/// The command that asks Windows whether `command` is on the search path.
pub open spec fn where_view(command: Seq<char>) -> CommandView {
    CommandView { program: "cmd"@, args: seq!["/C"@, "where"@, command], current_dir: None }
}

/// The command that asks Windows whether `command` is on the search path.
pub fn where_command(command: &str) -> (c: CommandSpec)
    ensures
        command_view(c) == where_view(command@),
{
    let mut args: Vec<String> = Vec::new();
    push_arg(&mut args, "/C");
    push_arg(&mut args, "where");
    push_arg(&mut args, command);
    let c = CommandSpec { program: String::from_str("cmd"), args, current_dir: None };
    assert(args_of(c) =~= seq!["/C"@, "where"@, command@]);
    c
}

/// A fixed piece of a PowerShell script.
pub const SHORTCUT_SCRIPT_0: &'static str = "$shell = New-Object -ComObject WScript.Shell; $shortcut = $shell.CreateShortcut('";

/// A fixed piece of a PowerShell script.
pub const SHORTCUT_SCRIPT_1: &'static str = "'); $shortcut.TargetPath = '";

/// A fixed piece of a PowerShell script.
pub const SHORTCUT_SCRIPT_2: &'static str = "'; $shortcut.WorkingDirectory = '";

/// A fixed piece of a PowerShell script.
pub const SHORTCUT_SCRIPT_3: &'static str = "'; $shortcut.Save()";

/// A fixed piece of a PowerShell script.
pub const CLOSE_APPS_SCRIPT_0: &'static str = "$currentPid = ";

/// A fixed piece of a PowerShell script.
pub const CLOSE_APPS_SCRIPT_1: &'static str = "; $names = @('Fishstrap', 'Fishstrap-QA', 'Bloxstrap', 'Bloxstrap-QA'); $processes = Get-Process -ErrorAction SilentlyContinue | Where-Object { $_.Id -ne $currentPid -and ($_.ProcessName -like 'Roblox*' -or $names -contains $_.ProcessName) }; if ($processes) { $ids = @($processes | Select-Object -ExpandProperty Id); $processes | Stop-Process -Force -ErrorAction SilentlyContinue; foreach ($id in $ids) { Wait-Process -Id $id -Timeout 10 -ErrorAction SilentlyContinue } }";

/// A fixed piece of a PowerShell script.
pub const REGISTER_SCRIPT_0: &'static str = "$key = 'HKCU:\\Software\\Microsoft\\Windows\\CurrentVersion\\Uninstall\\Fishstrap'; New-Item -Path $key -Force | Out-Null; New-ItemProperty -Path $key -Name DisplayIcon -Value '";

/// A fixed piece of a PowerShell script.
pub const REGISTER_SCRIPT_1: &'static str = ",0' -PropertyType String -Force | Out-Null; New-ItemProperty -Path $key -Name DisplayName -Value 'Fishstrap' -PropertyType String -Force | Out-Null; New-ItemProperty -Path $key -Name DisplayVersion -Value '";

/// A fixed piece of a PowerShell script.
pub const REGISTER_SCRIPT_2: &'static str = "' -PropertyType String -Force | Out-Null; New-ItemProperty -Path $key -Name InstallDate -Value '";

/// A fixed piece of a PowerShell script.
pub const REGISTER_SCRIPT_3: &'static str = "' -PropertyType String -Force | Out-Null; New-ItemProperty -Path $key -Name InstallLocation -Value '";

/// A fixed piece of a PowerShell script.
pub const REGISTER_SCRIPT_4: &'static str = "' -PropertyType String -Force | Out-Null; New-ItemProperty -Path $key -Name NoRepair -Value 1 -PropertyType DWord -Force | Out-Null; New-ItemProperty -Path $key -Name Publisher -Value 'returnrqt' -PropertyType String -Force | Out-Null; New-ItemProperty -Path $key -Name ModifyPath -Value '\"";

/// A fixed piece of a PowerShell script.
pub const REGISTER_SCRIPT_5: &'static str = "\" -settings' -PropertyType String -Force | Out-Null; New-ItemProperty -Path $key -Name QuietUninstallString -Value '\"";

/// A fixed piece of a PowerShell script.
pub const REGISTER_SCRIPT_6: &'static str = "\" -uninstall -quiet' -PropertyType String -Force | Out-Null; New-ItemProperty -Path $key -Name UninstallString -Value '\"";

/// A fixed piece of a PowerShell script.
pub const REGISTER_SCRIPT_7: &'static str = "\" -uninstall' -PropertyType String -Force | Out-Null; New-ItemProperty -Path $key -Name HelpLink -Value 'https://github.com/bloxstraplabs/bloxstrap/wiki' -PropertyType String -Force | Out-Null; New-ItemProperty -Path $key -Name URLInfoAbout -Value 'https://github.com/returnrqt/fishstrap/issues/new' -PropertyType String -Force | Out-Null; New-ItemProperty -Path $key -Name URLUpdateInfo -Value 'https://github.com/returnrqt/fishstrap/releases' -PropertyType String -Force | Out-Null";

/// A fixed piece of a PowerShell script.
pub const VERSION_QUERY_SCRIPT_0: &'static str = "(Get-Item -LiteralPath '";

/// A fixed piece of a PowerShell script.
pub const VERSION_QUERY_SCRIPT_1: &'static str = "').VersionInfo.ProductVersion";

/// A fixed piece of a PowerShell script.
pub const WAIT_SCRIPT_0: &'static str = "$process = Get-Process -Id ";

/// A fixed piece of a PowerShell script.
pub const WAIT_SCRIPT_1: &'static str = " -ErrorAction SilentlyContinue; if ($process) { Wait-Process -Id ";

/// A fixed piece of a PowerShell script.
pub const WAIT_SCRIPT_2: &'static str = " }";

/// The script that creates the Start menu shortcut `shortcut_path` to
/// `target_path`, starting in `install_dir`; each path is quoted.
pub fn shortcut_script(shortcut_path: &str, target_path: &str, install_dir: &str) -> (s: String)
    ensures
        s@ == SHORTCUT_SCRIPT_0@ + escape_quotes(shortcut_path@) + SHORTCUT_SCRIPT_1@
            + escape_quotes(target_path@) + SHORTCUT_SCRIPT_2@ + escape_quotes(install_dir@)
            + SHORTCUT_SCRIPT_3@,
{
    let mut s = String::from_str(SHORTCUT_SCRIPT_0);
    s.append(escape_powershell(shortcut_path).as_str());
    s.append(SHORTCUT_SCRIPT_1);
    s.append(escape_powershell(target_path).as_str());
    s.append(SHORTCUT_SCRIPT_2);
    s.append(escape_powershell(install_dir).as_str());
    s.append(SHORTCUT_SCRIPT_3);
    s
}

/// The script that stops running Roblox and Fishstrap processes other than
/// the installer itself (process `own_pid`) and waits for them to exit.
pub fn close_running_apps_script(own_pid: u32) -> (s: String)
    ensures
        s@ == CLOSE_APPS_SCRIPT_0@ + decimal(own_pid as nat) + CLOSE_APPS_SCRIPT_1@,
{
    let mut s = String::from_str(CLOSE_APPS_SCRIPT_0);
    s.append(decimal_string(own_pid as u64).as_str());
    s.append(CLOSE_APPS_SCRIPT_1);
    s
}

/// The script that waits for the process `pid` to exit, if it is running.
pub fn wait_for_process_exit_script(pid: u32) -> (s: String)
    ensures
        s@ == WAIT_SCRIPT_0@ + decimal(pid as nat) + WAIT_SCRIPT_1@ + decimal(pid as nat)
            + WAIT_SCRIPT_2@,
{
    let digits = decimal_string(pid as u64);
    let mut s = String::from_str(WAIT_SCRIPT_0);
    s.append(digits.as_str());
    s.append(WAIT_SCRIPT_1);
    s.append(digits.as_str());
    s.append(WAIT_SCRIPT_2);
    s
}

/// The script that prints the product version of the executable `app_path`.
pub fn version_query_script(app_path: &str) -> (s: String)
    ensures
        s@ == VERSION_QUERY_SCRIPT_0@ + escape_quotes(app_path@) + VERSION_QUERY_SCRIPT_1@,
{
    let mut s = String::from_str(VERSION_QUERY_SCRIPT_0);
    s.append(escape_powershell(app_path).as_str());
    s.append(VERSION_QUERY_SCRIPT_1);
    s
}

/// The script that registers the installation with Windows: the executable
/// `app_path`, the version and install date that PowerShell printed (white
/// space at either end dropped), and the folder `install_dir`; every value
/// is quoted.
pub fn register_install_script(
    app_path: &str,
    version_output: &str,
    date_output: &str,
    install_dir: &str,
) -> (s: String)
    ensures
        s@ == REGISTER_SCRIPT_0@ + escape_quotes(app_path@) + REGISTER_SCRIPT_1@ + escape_quotes(
            trim(version_output@),
        ) + REGISTER_SCRIPT_2@ + escape_quotes(trim(date_output@)) + REGISTER_SCRIPT_3@
            + escape_quotes(install_dir@) + REGISTER_SCRIPT_4@ + escape_quotes(app_path@)
            + REGISTER_SCRIPT_5@ + escape_quotes(app_path@) + REGISTER_SCRIPT_6@ + escape_quotes(
            app_path@,
        ) + REGISTER_SCRIPT_7@,
{
    let app = escape_powershell(app_path);
    let version = trim_str(version_output);
    let date = trim_str(date_output);
    let mut s = String::from_str(REGISTER_SCRIPT_0);
    s.append(app.as_str());
    s.append(REGISTER_SCRIPT_1);
    s.append(escape_powershell_text(version.as_str()).as_str());
    s.append(REGISTER_SCRIPT_2);
    s.append(escape_powershell_text(date.as_str()).as_str());
    s.append(REGISTER_SCRIPT_3);
    s.append(escape_powershell(install_dir).as_str());
    s.append(REGISTER_SCRIPT_4);
    s.append(app.as_str());
    s.append(REGISTER_SCRIPT_5);
    s.append(app.as_str());
    s.append(REGISTER_SCRIPT_6);
    s.append(app.as_str());
    s.append(REGISTER_SCRIPT_7);
    s
}

} // verus!
