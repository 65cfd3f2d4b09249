use fishstrap_installer::lookup::CommandSearch;
use fishstrap_installer::lookup::FindAction;
use fishstrap_installer::lookup::FindEvent;

fn read_var(a: FindAction) -> String {
    match a {
        FindAction::ReadVar(v) => v,
        _ => panic!("expected a variable read"),
    }
}

#[test]
fn a_command_on_the_path_is_used_by_name() {
    let mut s = CommandSearch::new("git".to_string());
    match s.pending_action() {
        FindAction::RunWhere(c) => {
            assert_eq!(c.program, "cmd");
            assert_eq!(c.args, vec!["/C", "where", "git"]);
        }
        _ => panic!("expected where"),
    }
    assert!(matches!(s.step(FindEvent::WhereSucceeded(true)), FindAction::UseName));
}

#[test]
fn unset_variables_are_skipped_and_the_first_existing_candidate_wins() {
    let mut s = CommandSearch::new("Git".to_string());
    assert_eq!(read_var(s.step(FindEvent::WhereSucceeded(false))), "ProgramFiles");
    assert_eq!(read_var(s.step(FindEvent::VarSet(false))), "ProgramFiles(x86)");
    match s.step(FindEvent::VarSet(true)) {
        FindAction::CheckCandidate(parts) => assert_eq!(parts, vec!["Git", "cmd", "git.exe"]),
        _ => panic!("expected a candidate"),
    }
    assert_eq!(read_var(s.step(FindEvent::CandidateExists(false))), "LOCALAPPDATA");
    assert!(matches!(s.step(FindEvent::VarSet(true)), FindAction::CheckCandidate(_)));
    assert!(matches!(s.step(FindEvent::CandidateExists(true)), FindAction::UseCandidate));
}

#[test]
fn dotnet_is_looked_for_in_its_four_places() {
    let mut s = CommandSearch::new("dotnet".to_string());
    let mut vars = vec![read_var(s.step(FindEvent::WhereSucceeded(false)))];
    loop {
        match s.step(FindEvent::VarSet(false)) {
            FindAction::ReadVar(v) => vars.push(v),
            FindAction::NotFound => break,
            _ => panic!("unexpected action"),
        }
    }
    assert_eq!(vars, vec!["ProgramFiles", "ProgramFiles(x86)", "LOCALAPPDATA", "USERPROFILE"]);
}

#[test]
fn other_commands_are_only_looked_for_on_the_path() {
    let mut s = CommandSearch::new("winget".to_string());
    assert!(matches!(s.step(FindEvent::WhereSucceeded(false)), FindAction::NotFound));
    assert!(matches!(s.step(FindEvent::VarSet(true)), FindAction::NotFound));
}

#[test]
fn an_unexpected_event_repeats_the_pending_search_action() {
    let mut s = CommandSearch::new("git".to_string());
    assert!(matches!(s.step(FindEvent::VarSet(true)), FindAction::RunWhere(_)));
    s.step(FindEvent::WhereSucceeded(false));
    assert_eq!(read_var(s.step(FindEvent::CandidateExists(true))), "ProgramFiles");
}
