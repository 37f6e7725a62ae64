use wbs_desktop::startup::{has_project_suffix, initial_file_from_args, StartupFile, STARTUP_FILE_EVENT};

fn args(list: &[&str]) -> Vec<String> {
    list.iter().map(|s| s.to_string()).collect()
}

#[test]
fn project_argument_becomes_startup_file() {
    let a = args(&["wbs-desktop", "/tmp/project.wbs"]);
    assert_eq!(initial_file_from_args(&a), Some("/tmp/project.wbs".to_string()));
    let state = StartupFile::from_args(&a);
    assert_eq!(state.get_initial_file(), Some("/tmp/project.wbs".to_string()));
}

#[test]
fn other_argument_is_ignored() {
    let a = args(&["wbs-desktop", "/tmp/project.txt"]);
    assert_eq!(initial_file_from_args(&a), None);
    assert_eq!(StartupFile::from_args(&a).get_initial_file(), None);
}

#[test]
fn no_argument_gives_no_startup_file() {
    let a = args(&["wbs-desktop"]);
    assert_eq!(initial_file_from_args(&a), None);
    assert_eq!(StartupFile::from_args(&a).get_initial_file(), None);
    assert_eq!(initial_file_from_args(&Vec::new()), None);
}

#[test]
fn only_the_first_argument_counts() {
    let a = args(&["wbs-desktop", "notes.txt", "/tmp/project.wbs"]);
    assert_eq!(initial_file_from_args(&a), None);
    let b = args(&["wbs-desktop", "plan.wbs", "other.wbs"]);
    assert_eq!(initial_file_from_args(&b), Some("plan.wbs".to_string()));
}

#[test]
fn suffix_edge_cases() {
    assert!(has_project_suffix(".wbs"));
    assert!(has_project_suffix("a.wbs"));
    assert!(has_project_suffix("dossier/é.wbs"));
    assert!(!has_project_suffix("wbs"));
    assert!(!has_project_suffix(""));
    assert!(!has_project_suffix("plan.WBS"));
    assert!(!has_project_suffix("plan.wbs.bak"));
    assert!(!has_project_suffix("planwbs"));
}

#[test]
fn startup_file_is_pushed_once() {
    let mut state = StartupFile::from_args(&args(&["wbs-desktop", "/tmp/project.wbs"]));
    assert_eq!(state.announce(), Some("/tmp/project.wbs".to_string()));
    assert_eq!(state.announce(), None);
    assert_eq!(state.announce(), None);
    assert_eq!(state.get_initial_file(), Some("/tmp/project.wbs".to_string()));
}

#[test]
fn nothing_is_pushed_without_startup_file() {
    let mut state = StartupFile::from_args(&args(&["wbs-desktop", "/tmp/project.txt"]));
    assert_eq!(state.announce(), None);
    assert_eq!(state.announce(), None);
    assert_eq!(state.get_initial_file(), None);
}

#[test]
fn startup_event_name() {
    assert_eq!(STARTUP_FILE_EVENT, "startup-file");
}
