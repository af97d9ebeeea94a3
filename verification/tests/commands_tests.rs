use vsv::commands::{
    do_disable, do_enable, external_check, external_result, join_spaces, mutation_steps,
    target_report, TargetOutcome,
};
use vsv::config::{Config, Mode};

fn config(mode: Mode, operands: &[&str]) -> Config {
    Config {
        proc_path: "/proc".to_string(),
        sv_prog: "sv".to_string(),
        pstree_prog: "pstree".to_string(),
        colorize: false,
        svdir: "/svc".to_string(),
        tree: false,
        log: false,
        verbose: 0,
        operands: operands.iter().map(|s| s.to_string()).collect(),
        mode,
    }
}

#[test]
fn mutation_needs_targets() {
    let cfg = config(Mode::Enable, &[]);
    let r = mutation_steps(&cfg);
    assert!(r.is_err());
    assert_eq!(r.unwrap_err().message(), "at least one (1) service required");
}

#[test]
fn disable_plans_one_sentinel_per_target() {
    let cfg = config(Mode::Disable, &["bar", "baz"]);
    let steps = mutation_steps(&cfg).unwrap();
    assert_eq!(steps.len(), 2);
    assert_eq!(steps[0].name, "bar");
    assert_eq!(steps[0].path, "/svc/bar");
    assert_eq!(steps[0].supervise, "/svc/bar/supervise");
    assert_eq!(steps[0].sentinel, "/svc/bar/down");
    assert!(steps[0].create);
    assert_eq!(steps[1].sentinel, "/svc/baz/down");
    assert!(steps[1].create);
}

#[test]
fn enable_removes_the_sentinel_disable_created() {
    let disable_steps = mutation_steps(&config(Mode::Disable, &["bar"])).unwrap();
    let enable_steps = mutation_steps(&config(Mode::Enable, &["bar"])).unwrap();
    assert_eq!(disable_steps[0].sentinel, enable_steps[0].sentinel);
    assert!(disable_steps[0].create);
    assert!(!enable_steps[0].create);
}

#[test]
fn enable_of_enabled_service_succeeds() {
    // the sentinel was already absent: still a success, enabling is
    // idempotent
    let cfg = config(Mode::Enable, &["foo"]);
    let outcomes = vec![TargetOutcome::AlreadyAbsent];
    assert!(do_enable(&cfg, &outcomes).is_ok());
}

#[test]
fn failed_target_fails_the_whole_mutation() {
    // disabling bar and baz where baz is not a valid service: bar is still
    // attempted and done, the overall result is a failure
    let cfg = config(Mode::Disable, &["bar", "baz"]);
    let outcomes = vec![TargetOutcome::Done, TargetOutcome::Invalid];
    let r = do_disable(&cfg, &outcomes);
    assert!(r.is_err());
    assert_eq!(r.unwrap_err().message(), "failed to modify service(s).");
    assert_eq!(
        target_report(&Mode::Disable, "bar", &outcomes[0]),
        "disable service bar... done."
    );
    assert_eq!(
        target_report(&Mode::Disable, "baz", &outcomes[1]),
        "disable service baz... failed! service not valid"
    );
}

#[test]
fn filesystem_failure_is_reported_per_target() {
    let cfg = config(Mode::Disable, &["bar"]);
    let outcomes = vec![TargetOutcome::Failed("permission denied".to_string())];
    assert!(do_disable(&cfg, &outcomes).is_err());
    assert_eq!(
        target_report(&Mode::Disable, "bar", &outcomes[0]),
        "disable service bar... failed! permission denied"
    );
}

#[test]
fn all_targets_done_succeeds() {
    let cfg = config(Mode::Disable, &["bar", "baz"]);
    let outcomes = vec![TargetOutcome::Done, TargetOutcome::Done];
    assert!(do_disable(&cfg, &outcomes).is_ok());
}

#[test]
fn join_spaces_layout() {
    assert_eq!(join_spaces(&vec![]), "");
    assert_eq!(join_spaces(&vec!["a".to_string()]), "a");
    assert_eq!(
        join_spaces(&vec!["restart".to_string(), "foo".to_string(), "bar".to_string()]),
        "restart foo bar"
    );
}

#[test]
fn external_needs_an_argument() {
    let cfg = config(Mode::External, &["restart"]);
    let r = external_check(&cfg);
    assert!(r.is_err());
    assert_eq!(r.unwrap_err().message(), "argument expected for 'sv restart'");
    let cfg = config(Mode::External, &["restart", "foo"]);
    assert!(external_check(&cfg).is_ok());
}

#[test]
fn external_exit_codes() {
    let cfg = config(Mode::External, &["restart", "foo"]);
    assert!(external_result(&cfg, &Ok(Some(0))).is_ok());
    let r = external_result(&cfg, &Ok(Some(1)));
    assert_eq!(r.unwrap_err().message(), "call to sv failed");
    let r = external_result(&cfg, &Ok(None));
    assert_eq!(r.unwrap_err().message(), "call to sv failed");
    let r = external_result(&cfg, &Err("no such program".to_string()));
    assert_eq!(r.unwrap_err().message(), "failed to execute sv: no such program");
}
