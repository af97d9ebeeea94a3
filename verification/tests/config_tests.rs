use vsv::arguments::{Args, Commands};
use vsv::config::{Config, EnvInfo, Mode};

fn plain_args() -> Args {
    Args { color: None, dir: None, log: false, tree: false, user: false, verbose: 0, command: None }
}

fn plain_env() -> EnvInfo {
    EnvInfo {
        proc_dir: None,
        sv_prog: None,
        pstree_prog: None,
        no_color: false,
        svdir: None,
        home_dir: Some("/home/user".to_string()),
        stdout_is_tty: false,
    }
}

#[test]
fn defaults_resolve() {
    let cfg = Config::from_args(&plain_args(), &plain_env()).unwrap();
    assert_eq!(cfg.proc_path, "/proc");
    assert_eq!(cfg.sv_prog, "sv");
    assert_eq!(cfg.pstree_prog, "pstree");
    assert_eq!(cfg.svdir, "/var/service");
    assert!(matches!(cfg.mode, Mode::Status));
    assert!(cfg.operands.is_empty());
    assert!(!cfg.tree && !cfg.log && !cfg.colorize);
}

#[test]
fn environment_overrides_win() {
    let mut env = plain_env();
    env.proc_dir = Some("/fake/proc".to_string());
    env.sv_prog = Some("alt-sv".to_string());
    env.pstree_prog = Some("alt-pstree".to_string());
    env.svdir = Some("/alt/service".to_string());
    let cfg = Config::from_args(&plain_args(), &env).unwrap();
    assert_eq!(cfg.proc_path, "/fake/proc");
    assert_eq!(cfg.sv_prog, "alt-sv");
    assert_eq!(cfg.pstree_prog, "alt-pstree");
    assert_eq!(cfg.svdir, "/alt/service");
}

#[test]
fn explicit_dir_beats_everything() {
    let mut args = plain_args();
    args.dir = Some("/explicit".to_string());
    args.user = true;
    let mut env = plain_env();
    env.svdir = Some("/alt/service".to_string());
    let cfg = Config::from_args(&args, &env).unwrap();
    assert_eq!(cfg.svdir, "/explicit");
}

#[test]
fn user_mode_roots_under_home() {
    let mut args = plain_args();
    args.user = true;
    let cfg = Config::from_args(&args, &plain_env()).unwrap();
    assert_eq!(cfg.svdir, "/home/user/runit/service");
}

#[test]
fn user_mode_without_home_fails() {
    let mut args = plain_args();
    args.user = true;
    let mut env = plain_env();
    env.home_dir = None;
    let r = Config::from_args(&args, &env);
    assert_eq!(r.unwrap_err().message(), "failed to determine users home directory");
}

#[test]
fn color_override_order() {
    // explicit option first, then the veto variable, then the terminal
    let mut env = plain_env();
    env.stdout_is_tty = true;
    let cfg = Config::from_args(&plain_args(), &env).unwrap();
    assert!(cfg.colorize, "a terminal colorizes by default");

    env.no_color = true;
    let cfg = Config::from_args(&plain_args(), &env).unwrap();
    assert!(!cfg.colorize, "the veto beats the terminal");

    let mut args = plain_args();
    args.color = Some("yes".to_string());
    let cfg = Config::from_args(&args, &env).unwrap();
    assert!(cfg.colorize, "the explicit option beats the veto");

    args.color = Some("off".to_string());
    env.no_color = false;
    let cfg = Config::from_args(&args, &env).unwrap();
    assert!(!cfg.colorize);

    args.color = Some("auto".to_string());
    let cfg = Config::from_args(&args, &env).unwrap();
    assert!(cfg.colorize, "auto falls through to the terminal");
}

#[test]
fn unknown_color_option_fails() {
    let mut args = plain_args();
    args.color = Some("banana".to_string());
    let r = Config::from_args(&args, &plain_env());
    assert_eq!(r.unwrap_err().message(), "unknown color option: 'banana'");
}

#[test]
fn status_subcommand_merges_flags_and_filter() {
    let mut args = plain_args();
    args.command = Some(Commands::Status {
        log: true,
        tree: false,
        filter: vec!["ba".to_string()],
    });
    args.tree = true;
    let cfg = Config::from_args(&args, &plain_env()).unwrap();
    assert!(matches!(cfg.mode, Mode::Status));
    assert!(cfg.log, "the status flag turns log expansion on");
    assert!(cfg.tree, "the top-level flag stays on");
    assert_eq!(cfg.operands, vec!["ba".to_string()]);
}

#[test]
fn subcommands_pick_modes_and_operands() {
    let mut args = plain_args();
    args.command = Some(Commands::Enable { services: vec!["foo".to_string()] });
    let cfg = Config::from_args(&args, &plain_env()).unwrap();
    assert!(matches!(cfg.mode, Mode::Enable));
    assert_eq!(cfg.operands, vec!["foo".to_string()]);

    args.command = Some(Commands::Disable { services: vec!["a".to_string(), "b".to_string()] });
    let cfg = Config::from_args(&args, &plain_env()).unwrap();
    assert!(matches!(cfg.mode, Mode::Disable));
    assert_eq!(cfg.operands.len(), 2);

    args.command = Some(Commands::External(vec!["restart".to_string(), "foo".to_string()]));
    let cfg = Config::from_args(&args, &plain_env()).unwrap();
    assert!(matches!(cfg.mode, Mode::External));
    assert_eq!(cfg.operands, vec!["restart".to_string(), "foo".to_string()]);
}

#[test]
fn mode_labels() {
    assert_eq!(Mode::Status.label(), "status");
    assert_eq!(Mode::Enable.label(), "enable");
    assert_eq!(Mode::Disable.label(), "disable");
    assert_eq!(Mode::External.label(), "external");
}
