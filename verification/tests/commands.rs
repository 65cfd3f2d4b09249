use fishstrap_installer::args::Config;
use fishstrap_installer::args::ParsedArgs;
use fishstrap_installer::clock::timestamp;
use fishstrap_installer::commands::build_commands;
use fishstrap_installer::commands::clone_repo;
use fishstrap_installer::commands::close_running_apps_script;
use fishstrap_installer::commands::powershell_command;
use fishstrap_installer::commands::register_install_script;
use fishstrap_installer::commands::shortcut_script;
use fishstrap_installer::commands::version_query_script;
use fishstrap_installer::commands::wait_for_process_exit_script;
use fishstrap_installer::commands::where_command;
use fishstrap_installer::commands::winget_install_command;
use fishstrap_installer::escape::escape_powershell;
use fishstrap_installer::escape::escape_powershell_text;
use fishstrap_installer::number::decimal_string;
use fishstrap_installer::number::parse_u32;
use fishstrap_installer::paths::windows_path;
use fishstrap_installer::plan::install_steps;
use fishstrap_installer::plan::InstallStep;
use fishstrap_installer::tools::eq_ignore_ascii_case_exec;
use fishstrap_installer::tools::fallback_locations;
use fishstrap_installer::tools::is_decline;
use fishstrap_installer::tools::read_requested_sdk;
use fishstrap_installer::tools::sdk_package;
use fishstrap_installer::whitespace::trim_str;

#[test]
fn clone_command_with_and_without_branch() {
    let c = clone_repo("git", "https://x/r.git", None, "C:\\tmp\\fishstrap");
    assert_eq!(c.program, "git");
    assert_eq!(c.current_dir, None);
    assert_eq!(
        c.args,
        vec!["clone", "--depth", "1", "--recurse-submodules", "--shallow-submodules", "https://x/r.git", "C:\\tmp\\fishstrap"]
    );
    let c = clone_repo("C:\\Git\\cmd\\git.exe", "r", Some("dev"), "d");
    assert_eq!(c.program, "C:\\Git\\cmd\\git.exe");
    assert_eq!(c.args, vec!["clone", "--depth", "1", "--recurse-submodules", "--shallow-submodules", "--branch", "dev", "r", "d"]);
}

#[test]
fn build_runs_restore_then_publish_in_the_project() {
    let cs = build_commands("dotnet", "P\\Bloxstrap\\Bloxstrap.csproj", "W\\publish", "P");
    assert_eq!(cs.len(), 2);
    assert_eq!(cs[0].program, "dotnet");
    assert_eq!(cs[0].args, vec!["restore", "Fishstrap.sln"]);
    assert_eq!(cs[0].current_dir.as_deref(), Some("P"));
    assert_eq!(
        cs[1].args,
        vec![
            "publish", "P\\Bloxstrap\\Bloxstrap.csproj", "-c", "Release", "-r", "win-x64", "--self-contained", "false",
            "-p:PublishSingleFile=false", "-o", "W\\publish"
        ]
    );
    assert_eq!(cs[1].current_dir.as_deref(), Some("P"));
}

#[test]
fn winget_powershell_and_where_commands() {
    let c = winget_install_command("Git.Git");
    assert_eq!(c.program, "winget");
    assert_eq!(
        c.args,
        vec!["install", "--id", "Git.Git", "--exact", "--source", "winget", "--accept-package-agreements", "--accept-source-agreements"]
    );
    let c = powershell_command("Get-Date");
    assert_eq!(c.program, "powershell");
    assert_eq!(c.args, vec!["-NoProfile", "-ExecutionPolicy", "Bypass", "-Command", "Get-Date"]);
    let c = where_command("dotnet");
    assert_eq!(c.program, "cmd");
    assert_eq!(c.args, vec!["/C", "where", "dotnet"]);
}

#[test]
fn escaping_doubles_single_quotes() {
    assert_eq!(escape_powershell("C:\\Users\\O'Brien\\F"), "C:\\Users\\O''Brien\\F");
    assert_eq!(escape_powershell_text("it's 'quoted'"), "it''s ''quoted''");
    assert_eq!(escape_powershell_text(""), "");
    assert_eq!(escape_powershell_text("'"), "''");
    assert_eq!(escape_powershell_text("plain ’ text"), "plain ’ text");
}

#[test]
fn shortcut_script_quotes_each_path() {
    let s = shortcut_script("C:\\S\\Fishstrap.lnk", "C:\\O'Neil\\Fishstrap.exe", "C:\\O'Neil");
    assert_eq!(
        s,
        "$shell = New-Object -ComObject WScript.Shell; $shortcut = $shell.CreateShortcut('C:\\S\\Fishstrap.lnk'); \
         $shortcut.TargetPath = 'C:\\O''Neil\\Fishstrap.exe'; $shortcut.WorkingDirectory = 'C:\\O''Neil'; $shortcut.Save()"
    );
}

#[test]
fn close_and_wait_scripts_name_the_process() {
    let s = close_running_apps_script(1234);
    assert!(s.starts_with("$currentPid = 1234; $names = @('Fishstrap', 'Fishstrap-QA', 'Bloxstrap', 'Bloxstrap-QA');"));
    assert!(s.ends_with("foreach ($id in $ids) { Wait-Process -Id $id -Timeout 10 -ErrorAction SilentlyContinue } }"));
    assert_eq!(
        wait_for_process_exit_script(77),
        "$process = Get-Process -Id 77 -ErrorAction SilentlyContinue; if ($process) { Wait-Process -Id 77 }"
    );
    assert_eq!(
        wait_for_process_exit_script(0),
        "$process = Get-Process -Id 0 -ErrorAction SilentlyContinue; if ($process) { Wait-Process -Id 0 }"
    );
}

#[test]
fn version_query_and_register_scripts() {
    assert_eq!(
        version_query_script("C:\\F\\Fishstrap.exe"),
        "(Get-Item -LiteralPath 'C:\\F\\Fishstrap.exe').VersionInfo.ProductVersion"
    );
    let s = register_install_script("C:\\F'\\Fishstrap.exe", " 2.8.1\r\n", "20240101\n", "C:\\F'");
    assert!(s.starts_with("$key = 'HKCU:\\Software\\Microsoft\\Windows\\CurrentVersion\\Uninstall\\Fishstrap'; New-Item -Path $key -Force | Out-Null; "));
    assert!(s.contains("-Name DisplayIcon -Value 'C:\\F''\\Fishstrap.exe,0' -PropertyType String"));
    assert!(s.contains("-Name DisplayVersion -Value '2.8.1' -PropertyType String"));
    assert!(s.contains("-Name InstallDate -Value '20240101' -PropertyType String"));
    assert!(s.contains("-Name InstallLocation -Value 'C:\\F''' -PropertyType String"));
    assert!(s.contains("-Name ModifyPath -Value '\"C:\\F''\\Fishstrap.exe\" -settings'"));
    assert!(s.contains("-Name QuietUninstallString -Value '\"C:\\F''\\Fishstrap.exe\" -uninstall -quiet'"));
    assert!(s.contains("-Name UninstallString -Value '\"C:\\F''\\Fishstrap.exe\" -uninstall'"));
    assert!(s.ends_with("-Name URLUpdateInfo -Value 'https://github.com/returnrqt/fishstrap/releases' -PropertyType String -Force | Out-Null"));
}

#[test]
fn decimal_and_parse_round_trip() {
    for n in [0u32, 7, 10, 99, 100, 4242, 65535, 1_000_000, u32::MAX] {
        let s = decimal_string(n as u64);
        assert_eq!(s, n.to_string());
        assert_eq!(parse_u32(&s), Ok(n));
    }
    assert_eq!(decimal_string(u64::MAX), u64::MAX.to_string());
    assert_eq!(parse_u32("007"), Ok(7));
    assert_eq!(parse_u32(""), Err(fishstrap_installer::number::IntErrorKind::Empty));
}

#[test]
fn windows_paths_use_backslashes() {
    assert_eq!(windows_path("Bloxstrap/Utility/WeaoClient.cs"), "Bloxstrap\\Utility\\WeaoClient.cs");
    assert_eq!(windows_path("no_separator"), "no_separator");
    assert_eq!(windows_path(""), "");
}

#[test]
fn trimming_follows_unicode_white_space() {
    assert_eq!(trim_str("  a b\t\n"), "a b");
    assert_eq!(trim_str("\u{3000}\u{a0}x\u{2029}"), "x");
    assert_eq!(trim_str(" \u{200b}x"), "\u{200b}x");
    assert_eq!(trim_str("   "), "");
    for s in ["  a b\t\n", "\u{3000}\u{a0}x\u{2029}", "\u{85}\u{1680}y\u{205f}", ""] {
        assert_eq!(trim_str(s), s.trim());
    }
}

#[test]
fn declining_a_prompt() {
    assert!(is_decline("n"));
    assert!(is_decline(" No \r\n"));
    assert!(is_decline("NO"));
    assert!(!is_decline(""));
    assert!(!is_decline("y"));
    assert!(!is_decline("nope"));
    assert!(!is_decline("n o"));
}

#[test]
fn ignoring_ascii_case() {
    assert!(eq_ignore_ascii_case_exec("GiT", "git"));
    assert!(!eq_ignore_ascii_case_exec("gits", "git"));
    assert!(eq_ignore_ascii_case_exec("ÄB", "Äb"));
    assert!(!eq_ignore_ascii_case_exec("Ä", "ä"));
}

#[test]
fn fallback_locations_for_git_and_dotnet() {
    let git = fallback_locations("GIT");
    let seen: Vec<(String, Vec<String>)> = git.into_iter().map(|l| (l.base_var, l.parts)).collect();
    let g = vec!["Git".to_string(), "cmd".to_string(), "git.exe".to_string()];
    assert_eq!(
        seen,
        vec![
            ("ProgramFiles".to_string(), g.clone()),
            ("ProgramFiles(x86)".to_string(), g.clone()),
            ("LOCALAPPDATA".to_string(), g.clone())
        ]
    );
    let dotnet = fallback_locations("dotnet");
    let bases: Vec<String> = dotnet.iter().map(|l| l.base_var.clone()).collect();
    assert_eq!(bases, vec!["ProgramFiles", "ProgramFiles(x86)", "LOCALAPPDATA", "USERPROFILE"]);
    assert_eq!(dotnet[2].parts, vec!["Microsoft", "dotnet", "dotnet.exe"]);
    assert_eq!(dotnet[3].parts, vec![".dotnet", "dotnet.exe"]);
    assert!(fallback_locations("winget").is_empty());
}

#[test]
fn requested_sdk_is_read_from_global_json() {
    let json = "{\n  \"sdk\": {\n    \"version\": \"8.0.204\",\n    \"rollForward\": \"latestFeature\"\n  }\n}\n";
    assert_eq!(read_requested_sdk(json).as_deref(), Some("8.0.204"));
    assert_eq!(read_requested_sdk("{\"sdk\":{\"version\":\t \"9.0.1\"}}").as_deref(), Some("9.0.1"));
    assert_eq!(read_requested_sdk("{\"version\": \"1.0\", \"sdk\": {}}"), None);
    assert_eq!(read_requested_sdk("{\"sdk\": {\"version\" \"8\"}}"), None);
    assert_eq!(read_requested_sdk("{\"sdk\": {\"version\": 8}}"), None);
    assert_eq!(read_requested_sdk("{\"sdk\": {\"version\": \"8.0"), None);
    assert_eq!(read_requested_sdk(""), None);
}

#[test]
fn sdk_package_uses_the_major_version() {
    assert_eq!(sdk_package("8.0.100").as_deref(), Some("microsoft.DotNet.SDK.8"));
    assert_eq!(sdk_package("10").as_deref(), Some("microsoft.DotNet.SDK.10"));
    assert_eq!(sdk_package(".1"), None);
    assert_eq!(sdk_package("v8.0"), None);
    assert_eq!(sdk_package(""), None);
}

fn config(v: &[&str]) -> Config {
    let args: Vec<String> = v.iter().map(|s| s.to_string()).collect();
    match Config::from_args(&args, "r", None, "D") {
        Ok(ParsedArgs::Run(c)) => c,
        _ => panic!("expected a configuration"),
    }
}

#[test]
fn install_steps_follow_the_configuration() {
    assert_eq!(install_steps(&config(&["--build-only", "--wait-pid", "5"])), vec![InstallStep::ReportBuildOnly]);
    assert_eq!(
        install_steps(&config(&[])),
        vec![
            InstallStep::CloseRunningApps,
            InstallStep::CreateInstallDir,
            InstallStep::CopyArtifacts,
            InstallStep::CopyUpdater,
            InstallStep::CreateStartMenuShortcut,
            InstallStep::RegisterInstall,
            InstallStep::RemoveWorkDir,
            InstallStep::ReportInstalled
        ]
    );
    assert_eq!(
        install_steps(&config(&["--wait-pid", "99", "--app-arg", "-player", "--keep-temp"])),
        vec![
            InstallStep::CloseRunningApps,
            InstallStep::WaitForProcessExit(99),
            InstallStep::CreateInstallDir,
            InstallStep::CopyArtifacts,
            InstallStep::CopyUpdater,
            InstallStep::CreateStartMenuShortcut,
            InstallStep::RegisterInstall,
            InstallStep::LaunchApp,
            InstallStep::ReportWorkDir,
            InstallStep::ReportInstalled
        ]
    );
}

#[test]
fn timestamp_reads_the_clock() {
    let t = timestamp().unwrap();
    assert!(t > 1_600_000_000);
}

#[test]
fn clock_error_reads_like_the_system_error() {
    let e = fishstrap_installer::clock::ClockBeforeEpoch;
    let std_error = std::time::UNIX_EPOCH.duration_since(std::time::UNIX_EPOCH + std::time::Duration::from_secs(1)).unwrap_err();
    assert_eq!(e.message(), std_error.to_string());
}
