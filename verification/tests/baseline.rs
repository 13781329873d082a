use osc::baseline::check::{file_contains, file_exists, CheckError, FileExists, PathProbe};
use osc::baseline::{Baseline, Check, Rule, Status};

fn file(exists: bool) -> PathProbe {
    PathProbe { exists, is_dir: false, entries: Ok(vec![]) }
}

fn dir(names: &[&str]) -> PathProbe {
    PathProbe { exists: true, is_dir: true, entries: Ok(names.iter().map(|n| n.to_string()).collect()) }
}

#[test]
fn file_exists_reports_whether_the_path_exists() {
    let path = String::from("/etc/passwd");
    assert!(file_exists(&path, &None, &file(true)).unwrap());
    assert!(!file_exists(&path, &None, &file(false)).unwrap());
    // A pattern is ignored where the path is not a directory.
    assert!(file_exists(&path, &Some(String::from("nomatch")), &file(true)).unwrap());
}

#[test]
fn file_exists_matches_directory_entries_against_the_pattern() {
    let path = String::from("/var/log");
    let probe = dir(&["syslog", "auth.log", "kern.log.1"]);
    assert!(file_exists(&path, &Some(String::from(r"^auth\.log$")), &probe).unwrap());
    assert!(file_exists(&path, &Some(String::from(r"\.1$")), &probe).unwrap());
    assert!(!file_exists(&path, &Some(String::from(r"^boot")), &probe).unwrap());
    // Without a pattern a directory only needs to exist.
    assert!(file_exists(&path, &None, &probe).unwrap());
    assert!(!file_exists(&path, &Some(String::from("x")), &dir(&[])).unwrap());
}

#[test]
fn file_exists_gives_the_read_error_of_the_directory() {
    let probe = PathProbe { exists: true, is_dir: true, entries: Err(String::from("permission denied")) };
    match file_exists(&String::from("/root"), &Some(String::from("a")), &probe) {
        Err(CheckError::Io(e)) => assert_eq!(e, "permission denied"),
        other => panic!("unexpected {:?}", other),
    }
}

#[test]
fn file_exists_refuses_an_invalid_pattern() {
    let probe = dir(&["a"]);
    assert!(matches!(
        file_exists(&String::from("/tmp"), &Some(String::from("(unclosed")), &probe),
        Err(CheckError::Pattern(_))
    ));
}

#[test]
fn file_contains_does_not_pass() {
    assert!(!file_contains(&String::from("/etc/hosts")).unwrap());
}

fn rule(name: &str, paths: &[&str]) -> Rule {
    Rule {
        name: name.to_string(),
        description: None,
        manufacturer: None,
        audit: paths
            .iter()
            .map(|p| Check::FileExists(FileExists { path: p.to_string(), pattern: None }))
            .collect(),
    }
}

fn baseline(rules: Vec<Rule>) -> Baseline {
    Baseline { name: String::from("b"), description: None, manufacturer: None, content: rules }
}

#[test]
fn baseline_is_compliant_when_every_check_passes() {
    let b = baseline(vec![rule("r1", &["/a", "/b"]), rule("r2", &["/c"])]);
    let probes = vec![vec![file(true), file(true)], vec![file(true)]];
    assert_eq!(b.check_status(&probes).unwrap(), Status::Compliant);
    assert_eq!(baseline(vec![]).check_status(&vec![]).unwrap(), Status::Compliant);
}

#[test]
fn baseline_is_non_compliant_on_a_failed_check() {
    let b = baseline(vec![rule("r1", &["/a"]), rule("r2", &["/b", "/c"])]);
    let probes = vec![vec![file(true)], vec![file(true), file(false)]];
    assert_eq!(b.check_status(&probes).unwrap(), Status::NonCompliant);
}

#[test]
fn baseline_audit_stops_at_the_first_decision() {
    // A failed check decides before a later check that cannot decide.
    let mut r = rule("r1", &["/a"]);
    r.audit.push(Check::FileExists(FileExists { path: String::from("/d"), pattern: Some(String::from("(")) }));
    let b = baseline(vec![r]);
    let probes = vec![vec![file(false), dir(&["x"])]];
    assert_eq!(b.check_status(&probes).unwrap(), Status::NonCompliant);
    // A check that cannot decide stops the audit with its error.
    let mut r = rule("r1", &["/a"]);
    r.audit.push(Check::FileExists(FileExists { path: String::from("/d"), pattern: Some(String::from("(")) }));
    let b = baseline(vec![r]);
    let probes = vec![vec![file(true), dir(&["x"])]];
    assert!(matches!(b.check_status(&probes), Err(CheckError::Pattern(_))));
}

#[test]
fn check_dispatches_to_its_kind() {
    let c = Check::FileExists(FileExists { path: String::from("/etc"), pattern: Some(String::from("^host")) });
    assert!(c.check(&dir(&["hosts"])).unwrap());
    assert!(!c.check(&dir(&["passwd"])).unwrap());
}
