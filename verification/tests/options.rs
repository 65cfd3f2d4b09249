use fishstrap_installer::args::required_value;
use fishstrap_installer::args::ArgError;
use fishstrap_installer::args::Config;
use fishstrap_installer::args::ParsedArgs;
use fishstrap_installer::args::DEFAULT_FISHSTRAP_REPO;
use fishstrap_installer::number::IntErrorKind;

fn strings(v: &[&str]) -> Vec<String> {
    v.iter().map(|s| s.to_string()).collect()
}

fn parse(v: &[&str]) -> Result<ParsedArgs, ArgError> {
    Config::from_args(&strings(v), DEFAULT_FISHSTRAP_REPO, None, "C:\\Users\\me\\AppData\\Local\\Fishstrap")
}

fn config(v: &[&str]) -> Config {
    match parse(v) {
        Ok(ParsedArgs::Run(c)) => c,
        _ => panic!("expected a configuration"),
    }
}

#[test]
fn defaults_apply_without_options() {
    let c = config(&[]);
    assert_eq!(c.fishstrap_repo, "https://github.com/returnrqt/fishstrap.git");
    assert_eq!(c.branch, None);
    assert_eq!(c.install_dir, "C:\\Users\\me\\AppData\\Local\\Fishstrap");
    assert!(!c.keep_temp);
    assert!(!c.build_only);
    assert_eq!(c.wait_pid, None);
    assert!(c.launch_args.is_empty());
}

#[test]
fn environment_defaults_are_kept_unless_overridden() {
    let c = match Config::from_args(&strings(&[]), "https://example.com/r.git", Some("dev"), "D:\\F") {
        Ok(ParsedArgs::Run(c)) => c,
        _ => panic!("expected a configuration"),
    };
    assert_eq!(c.fishstrap_repo, "https://example.com/r.git");
    assert_eq!(c.branch.as_deref(), Some("dev"));
    let c = match Config::from_args(&strings(&["--branch", "main"]), "r", Some("dev"), "D:\\F") {
        Ok(ParsedArgs::Run(c)) => c,
        _ => panic!("expected a configuration"),
    };
    assert_eq!(c.branch.as_deref(), Some("main"));
}

#[test]
fn every_option_is_read() {
    let c = config(&[
        "--repo", "https://example.com/x.git", "--branch", "feature", "--out", "E:\\Apps\\F", "--keep-temp",
        "--build-only", "--wait-pid", "4242", "--app-arg", "-player", "--app-arg", "roblox://x", "--no-pause",
    ]);
    assert_eq!(c.fishstrap_repo, "https://example.com/x.git");
    assert_eq!(c.branch.as_deref(), Some("feature"));
    assert_eq!(c.install_dir, "E:\\Apps\\F");
    assert!(c.keep_temp);
    assert!(c.build_only);
    assert_eq!(c.wait_pid, Some(4242));
    assert_eq!(c.launch_args, vec!["-player".to_string(), "roblox://x".to_string()]);
}

#[test]
fn dir_is_an_alias_of_out_and_the_last_one_wins() {
    let c = config(&["--out", "A", "--dir", "B"]);
    assert_eq!(c.install_dir, "B");
}

#[test]
fn help_stops_reading() {
    assert!(matches!(parse(&["--help"]), Ok(ParsedArgs::Help)));
    assert!(matches!(parse(&["-h", "--bogus"]), Ok(ParsedArgs::Help)));
    assert!(matches!(parse(&["--keep-temp", "-h"]), Ok(ParsedArgs::Help)));
}

#[test]
fn unknown_argument_is_refused() {
    match parse(&["--keep-temp", "--frobnicate"]) {
        Err(e) => {
            assert!(matches!(&e, ArgError::Unknown(a) if a == "--frobnicate"));
            assert_eq!(e.message(), "unknown argument: --frobnicate");
        }
        _ => panic!("expected an error"),
    }
}

#[test]
fn missing_or_blank_values_are_refused() {
    match parse(&["--repo"]) {
        Err(e) => assert_eq!(e.message(), "--repo requires a value"),
        _ => panic!("expected an error"),
    }
    match parse(&["--dir", "  \t"]) {
        Err(e) => assert_eq!(e.message(), "--dir requires a value"),
        _ => panic!("expected an error"),
    }
    match parse(&["--app-arg", "\u{3000}"]) {
        Err(e) => assert_eq!(e.message(), "--app-arg requires a value"),
        _ => panic!("expected an error"),
    }
}

#[test]
fn a_value_keeps_its_surrounding_spaces() {
    let c = config(&["--app-arg", " x "]);
    assert_eq!(c.launch_args, vec![" x ".to_string()]);
}

#[test]
fn wait_pid_must_be_a_u32() {
    let c = config(&["--wait-pid", "+17"]);
    assert_eq!(c.wait_pid, Some(17));
    let c = config(&["--wait-pid", "4294967295"]);
    assert_eq!(c.wait_pid, Some(u32::MAX));
    let cases = [
        ("4294967296", IntErrorKind::PosOverflow, "number too large to fit in target type"),
        ("12a", IntErrorKind::InvalidDigit, "invalid digit found in string"),
        ("-1", IntErrorKind::InvalidDigit, "invalid digit found in string"),
        ("+", IntErrorKind::InvalidDigit, "invalid digit found in string"),
        (" 5", IntErrorKind::InvalidDigit, "invalid digit found in string"),
        ("99999999999x", IntErrorKind::PosOverflow, "number too large to fit in target type"),
    ];
    for (value, kind, message) in cases {
        match parse(&["--wait-pid", value]) {
            Err(e) => {
                assert!(matches!(&e, ArgError::InvalidPid(k) if *k == kind), "{value}");
                assert_eq!(e.message(), message);
                assert_eq!(value.parse::<u32>().unwrap_err().to_string(), message);
            }
            _ => panic!("expected an error for {value}"),
        }
    }
}

#[test]
fn required_value_takes_the_next_argument() {
    let args = strings(&["--repo", "x", "  "]);
    assert_eq!(required_value(&args, 1, "--repo").ok(), Some("x".to_string()));
    assert!(matches!(required_value(&args, 2, "--repo"), Err(ArgError::MissingValue(n)) if n == "--repo"));
    assert!(matches!(required_value(&args, 3, "--repo"), Err(ArgError::MissingValue(_))));
}

#[test]
fn the_updater_command_line_is_accepted() {
    let pid = 31337u32.to_string();
    let c = config(&[
        "--repo", "https://github.com/owner/fishstrap.git", "--out", "C:\\Users\\me\\AppData\\Local\\Fishstrap",
        "--wait-pid", &pid, "--no-pause", "--app-arg", "-player", "--app-arg", "roblox-player:1+launchmode:play",
    ]);
    assert_eq!(c.fishstrap_repo, "https://github.com/owner/fishstrap.git");
    assert_eq!(c.install_dir, "C:\\Users\\me\\AppData\\Local\\Fishstrap");
    assert_eq!(c.wait_pid, Some(31337));
    assert_eq!(c.launch_args, vec!["-player".to_string(), "roblox-player:1+launchmode:play".to_string()]);
    assert!(!c.keep_temp && !c.build_only);
    assert!(matches!(parse(&["--repo", "r", "--app-arg", ""]), Err(ArgError::MissingValue(_))));
}
