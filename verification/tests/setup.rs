use fishstrap_installer::setup::ProbeResult;
use fishstrap_installer::setup::SetupAction;
use fishstrap_installer::setup::SetupEvent;
use fishstrap_installer::setup::SetupKind;
use fishstrap_installer::setup::ToolSetup;

fn git() -> ToolSetup {
    ToolSetup::new(SetupKind::Tool { command: "git".to_string(), winget_id: "Git.Git".to_string() })
}

fn global_json(version: &str) -> Option<String> {
    Some(format!("{{\n  \"sdk\": {{\n    \"version\": \"{version}\"\n  }}\n}}\n"))
}

/// A setup of the .NET SDK whose first probe failed and whose sources ask
/// for `requested`; it now looks for winget.
fn dotnet(requested: &str) -> ToolSetup {
    let mut s = ToolSetup::new(SetupKind::DotnetSdk);
    assert!(matches!(s.step(SetupEvent::Probed(ProbeResult::Missing)), SetupAction::ReadSdkRequest));
    s.step(SetupEvent::SdkFile(global_json(requested)));
    s
}

fn fail_message(a: SetupAction) -> String {
    match a {
        SetupAction::Fail(m) => m,
        _ => panic!("expected a failure"),
    }
}

#[test]
fn a_present_tool_needs_nothing() {
    let mut s = git();
    assert!(matches!(s.first_action(), SetupAction::ProbeTool));
    assert!(matches!(s.step(SetupEvent::Probed(ProbeResult::Working)), SetupAction::Finish));
    assert!(matches!(s.step(SetupEvent::InstallRan), SetupAction::Finish));
}

#[test]
fn a_missing_tool_without_winget_fails() {
    let mut s = git();
    match s.step(SetupEvent::Probed(ProbeResult::Missing)) {
        SetupAction::ProbeWinget(notice) => assert_eq!(notice, "git isn't installed"),
        _ => panic!("expected a winget probe"),
    }
    assert_eq!(
        fail_message(s.step(SetupEvent::WingetProbed(false))),
        "install git and try again. winget isn't available to install Git.Git for you"
    );
}

#[test]
fn declining_the_install_fails() {
    let mut s = git();
    s.step(SetupEvent::Probed(ProbeResult::Missing));
    match s.step(SetupEvent::WingetProbed(true)) {
        SetupAction::Ask(q) => assert_eq!(q, "install git with winget (Git.Git)?"),
        _ => panic!("expected a question"),
    }
    assert_eq!(fail_message(s.step(SetupEvent::Answered(" No\n".to_string()))), "can't continue without git");
}

#[test]
fn accepting_installs_and_checks_again() {
    let mut s = git();
    s.step(SetupEvent::Probed(ProbeResult::Missing));
    s.step(SetupEvent::WingetProbed(true));
    match s.step(SetupEvent::Answered("\n".to_string())) {
        SetupAction::Install(c) => {
            assert_eq!(c.program, "winget");
            assert_eq!(
                c.args,
                vec!["install", "--id", "Git.Git", "--exact", "--source", "winget", "--accept-package-agreements", "--accept-source-agreements"]
            );
        }
        _ => panic!("expected an install"),
    }
    assert!(matches!(s.step(SetupEvent::InstallRan), SetupAction::ProbeTool));
    assert_eq!(
        fail_message(s.step(SetupEvent::Probed(ProbeResult::Missing))),
        "git still isn't showing up after install. restart the terminal and try again."
    );
}

#[test]
fn an_installed_tool_finishes() {
    let mut s = git();
    s.step(SetupEvent::Probed(ProbeResult::Missing));
    s.step(SetupEvent::WingetProbed(true));
    s.step(SetupEvent::Answered("y".to_string()));
    s.step(SetupEvent::InstallRan);
    assert!(matches!(s.step(SetupEvent::Probed(ProbeResult::Working)), SetupAction::Finish));
}

#[test]
fn an_unexpected_event_repeats_the_pending_action() {
    let mut s = git();
    s.step(SetupEvent::Probed(ProbeResult::Missing));
    match s.step(SetupEvent::InstallRan) {
        SetupAction::ProbeWinget(notice) => assert_eq!(notice, "git isn't installed"),
        _ => panic!("expected the winget probe again"),
    }
}

#[test]
fn dotnet_sdk_with_an_invalid_version_fails_at_once() {
    let mut s = ToolSetup::new(SetupKind::DotnetSdk);
    assert!(matches!(s.step(SetupEvent::Probed(ProbeResult::Missing)), SetupAction::ReadSdkRequest));
    assert_eq!(
        fail_message(s.step(SetupEvent::SdkFile(global_json("latest")))),
        "invalid .NET SDK version in global.json: latest"
    );
}

#[test]
fn a_working_sdk_is_left_alone_without_reading_global_json() {
    let mut s = ToolSetup::new(SetupKind::DotnetSdk);
    assert!(matches!(s.first_action(), SetupAction::ProbeTool));
    assert!(matches!(s.step(SetupEvent::Probed(ProbeResult::Working)), SetupAction::Finish));
}

#[test]
fn a_missing_or_silent_global_json_asks_for_the_default_sdk() {
    for file in [None, Some("{}".to_string())] {
        let mut s = ToolSetup::new(SetupKind::DotnetSdk);
        s.step(SetupEvent::Probed(ProbeResult::Broken("x".to_string())));
        match s.step(SetupEvent::SdkFile(file)) {
            SetupAction::ProbeWinget(notice) => assert_eq!(notice, "the required .NET SDK 8.0.100 isn't installed"),
            _ => panic!("expected a winget probe"),
        }
    }
}

#[test]
fn dotnet_sdk_messages_name_version_and_package() {
    let mut s = ToolSetup::new(SetupKind::DotnetSdk);
    s.step(SetupEvent::Probed(ProbeResult::Broken("no sdk".to_string())));
    match s.step(SetupEvent::SdkFile(global_json("8.0.100"))) {
        SetupAction::ProbeWinget(notice) => assert_eq!(notice, "the required .NET SDK 8.0.100 isn't installed"),
        _ => panic!("expected a winget probe"),
    }
    match s.step(SetupEvent::WingetProbed(true)) {
        SetupAction::Ask(q) => assert_eq!(q, "install .NET SDK 8.0.100 with winget (microsoft.DotNet.SDK.8)?"),
        _ => panic!("expected a question"),
    }
    match s.step(SetupEvent::Answered("Y".to_string())) {
        SetupAction::Install(c) => assert_eq!(c.args[2], "microsoft.DotNet.SDK.8"),
        _ => panic!("expected an install"),
    }
    s.step(SetupEvent::InstallRan);
    assert_eq!(
        fail_message(s.step(SetupEvent::Probed(ProbeResult::Broken("  error: SDK 8.0.100 not found\r\n".to_string())))),
        "the .NET SDK install finished, but this project still can't resolve SDK 8.0.100: error: SDK 8.0.100 not found"
    );
    let mut t = dotnet("9.0.1");
    assert_eq!(
        fail_message(t.step(SetupEvent::WingetProbed(false))),
        "install .NET SDK 9.0.1 and try again. winget isn't available to install microsoft.DotNet.SDK.9 for you."
    );
    let mut u = dotnet("9.0.1");
    u.step(SetupEvent::WingetProbed(true));
    assert_eq!(fail_message(u.step(SetupEvent::Answered("n".to_string()))), "can't continue without .NET SDK 9.0.1");
    let mut v = dotnet("9.0.1");
    v.step(SetupEvent::WingetProbed(true));
    v.step(SetupEvent::Answered("".to_string()));
    v.step(SetupEvent::InstallRan);
    assert_eq!(
        fail_message(v.step(SetupEvent::Probed(ProbeResult::Missing))),
        "installed the .NET SDK, but still couldn't find dotnet.exe"
    );
}
