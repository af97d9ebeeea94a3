use vsv::runit::{get_services, RawDirEntry, RunitService, RunitServiceState};

fn dir(name: &str) -> RawDirEntry {
    RawDirEntry { name: Some(name.to_string()), is_dir: true }
}

fn file(name: &str) -> RawDirEntry {
    RawDirEntry { name: Some(name.to_string()), is_dir: false }
}

fn names(list: &[RunitService]) -> Vec<String> {
    list.iter().map(|s| s.name.clone()).collect()
}

#[test]
fn record_paths() {
    let svc = RunitService::new("foo", "/var/service/foo");
    assert_eq!(svc.name, "foo");
    assert_eq!(svc.path, "/var/service/foo");
    assert_eq!(svc.down_path(), "/var/service/foo/down");
    assert_eq!(svc.supervise_path(), "/var/service/foo/supervise");
    assert_eq!(svc.pid_path(), "/var/service/foo/supervise/pid");
    assert_eq!(svc.stat_path(), "/var/service/foo/supervise/stat");
    assert_eq!(svc.log_path(), "/var/service/foo/log");
}

#[test]
fn enabled_means_no_sentinel() {
    let svc = RunitService::new("foo", "/var/service/foo");
    assert!(svc.enabled(false));
    assert!(!svc.enabled(true));
}

#[test]
fn pid_parses_trimmed_decimal() {
    let svc = RunitService::new("foo", "/var/service/foo");
    assert_eq!(svc.get_pid(&Some("123\n".to_string())), Some(123));
    assert_eq!(svc.get_pid(&Some("  456  ".to_string())), Some(456));
}

#[test]
fn pid_read_failure_degrades() {
    let svc = RunitService::new("foo", "/var/service/foo");
    assert_eq!(svc.get_pid(&None), None);
}

#[test]
fn pid_garbage_degrades() {
    let svc = RunitService::new("foo", "/var/service/foo");
    assert_eq!(svc.get_pid(&Some("uh oh this one won't parse".to_string())), None);
    assert_eq!(svc.get_pid(&Some("".to_string())), None);
    assert_eq!(svc.get_pid(&Some("12a".to_string())), None);
    assert_eq!(svc.get_pid(&Some("-5".to_string())), None);
    assert_eq!(svc.get_pid(&Some("0".to_string())), None);
    assert_eq!(svc.get_pid(&Some("99999999999999999999999999".to_string())), None);
}

#[test]
fn state_decodes_trimmed_content() {
    let svc = RunitService::new("foo", "/var/service/foo");
    assert_eq!(svc.get_state(&Some("run\n".to_string())), RunitServiceState::Run);
    assert_eq!(svc.get_state(&Some("down".to_string())), RunitServiceState::Down);
    assert_eq!(svc.get_state(&Some("  finish  ".to_string())), RunitServiceState::Finish);
}

#[test]
fn state_never_errors() {
    let svc = RunitService::new("foo", "/var/service/foo");
    assert_eq!(svc.get_state(&None), RunitServiceState::Unknown);
    assert_eq!(svc.get_state(&Some("something-bad".to_string())), RunitServiceState::Unknown);
    assert_eq!(svc.get_state(&Some("".to_string())), RunitServiceState::Unknown);
}

#[test]
fn services_sorted_by_name() {
    let entries = vec![dir("foo"), dir("baz"), dir("bar")];
    let list = get_services("/svc", &entries, false, &None).unwrap();
    assert_eq!(names(&list), vec!["bar", "baz", "foo"]);
    assert_eq!(list[0].path, "/svc/bar");
    assert_eq!(list[2].path, "/svc/foo");
}

#[test]
fn discovery_of_empty_root_is_empty() {
    let list = get_services("/svc", &Vec::new(), true, &None).unwrap();
    assert!(list.is_empty());
}

#[test]
fn discovery_skips_plain_files() {
    let entries = vec![dir("b"), file("a"), dir("c")];
    let list = get_services("/svc", &entries, false, &None).unwrap();
    assert_eq!(names(&list), vec!["b", "c"]);
}

#[test]
fn discovery_applies_substring_filter() {
    let entries = vec![dir("foo"), dir("bar"), dir("baz"), dir("rebar")];
    let list = get_services("/svc", &entries, false, &Some("ba".to_string())).unwrap();
    assert_eq!(names(&list), vec!["bar", "baz", "rebar"]);
    let all = get_services("/svc", &entries, false, &Some("".to_string())).unwrap();
    assert_eq!(all.len(), 4);
    let none = get_services("/svc", &entries, false, &Some("quux".to_string())).unwrap();
    assert!(none.is_empty());
}

#[test]
fn log_expansion_adds_companions_and_sorts_flat() {
    let entries = vec![dir("foo"), dir("bar")];
    let list = get_services("/svc", &entries, true, &None).unwrap();
    // the fixed companion marker sorts before alphabetic names
    assert_eq!(names(&list), vec!["- log", "- log", "bar", "foo"]);
    let companion_paths: Vec<&str> =
        list.iter().filter(|s| s.name == "- log").map(|s| s.path.as_str()).collect();
    assert!(companion_paths.contains(&"/svc/foo/log"));
    assert!(companion_paths.contains(&"/svc/bar/log"));
}

#[test]
fn undecodable_directory_name_is_fatal() {
    let entries = vec![dir("fine"), RawDirEntry { name: None, is_dir: true }];
    let r = get_services("/svc", &entries, false, &None);
    assert!(r.is_err());
    assert_eq!(r.unwrap_err().message(), "failed to parse service name");
}

#[test]
fn undecodable_file_name_is_ignored() {
    let entries = vec![dir("fine"), RawDirEntry { name: None, is_dir: false }];
    let list = get_services("/svc", &entries, false, &None).unwrap();
    assert_eq!(names(&list), vec!["fine"]);
}
