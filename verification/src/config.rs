//! Configuration resolution: combine the decoded command-line arguments
//! with the relevant environment facts into one immutable configuration
//! value that the pipelines consume.  The caller resolves the environment
//! (variables, home directory, terminal detection) and hands the results
//! in as plain values.

use vstd::prelude::*;

use crate::arguments::{Args, Commands};
use crate::errors::VsvError;

verus! {

/// The execution mode a sub-command selects.
#[derive(Clone, Copy, Debug, PartialEq, Eq, Structural)]
pub enum Mode {
    Status,
    Enable,
    Disable,
    External,
}

/// The lowercase name of each mode.
pub open spec fn spec_mode_label(m: Mode) -> Seq<char> {
    match m {
        Mode::Status => "status"@,
        Mode::Enable => "enable"@,
        Mode::Disable => "disable"@,
        Mode::External => "external"@,
    }
}

impl Mode {
    /// The lowercase name of the mode.
    pub fn label(&self) -> (r: String)
        ensures
            r@ == spec_mode_label(*self),
    {
        match self {
            Mode::Status => String::from_str("status"),
            Mode::Enable => String::from_str("enable"),
            Mode::Disable => String::from_str("disable"),
            Mode::External => String::from_str("external"),
        }
    }
}

/// Environment facts the caller resolved before building a configuration:
/// the overriding variables (`None` when unset), whether color was vetoed,
/// the home directory, and whether standard output is a terminal.
pub struct EnvInfo {
    pub proc_dir: Option<String>,
    pub sv_prog: Option<String>,
    pub pstree_prog: Option<String>,
    pub no_color: bool,
    pub svdir: Option<String>,
    pub home_dir: Option<String>,
    pub stdout_is_tty: bool,
}

/// Everything an invocation needs to know, resolved once and passed
/// explicitly into discovery, mapping and rendering.
#[derive(Debug)]
pub struct Config {
    pub proc_path: String,
    pub sv_prog: String,
    pub pstree_prog: String,
    pub colorize: bool,
    pub svdir: String,
    pub tree: bool,
    pub log: bool,
    pub verbose: usize,
    pub operands: Vec<String>,
    pub mode: Mode,
}

/// An overriding value when one is set, the default otherwise.
pub open spec fn spec_or_default(v: Option<String>, d: Seq<char>) -> Seq<char> {
    match v {
        Option::Some(s) => s@,
        Option::None => d,
    }
}

/// Whether a color override word is recognized.
pub open spec fn color_arg_valid(c: Seq<char>) -> bool {
    c == "yes"@ || c == "on"@ || c == "no"@ || c == "off"@ || c == "auto"@
}

/// Whether output is colorized: an explicit override wins, then the color
/// veto, then whether standard output is a terminal.
pub open spec fn spec_colorize(color: Option<String>, no_color: bool, tty: bool) -> bool {
    match color {
        Option::Some(c) => if c@ == "yes"@ || c@ == "on"@ {
            true
        } else if c@ == "no"@ || c@ == "off"@ {
            false
        } else {
            !no_color && tty
        },
        Option::None => !no_color && tty,
    }
}

/// Whether resolving the supervision root needs a home directory.
pub open spec fn needs_home(a: Args) -> bool {
    a.dir is None && a.user
}

/// The supervision root: an explicit directory wins, then user mode under
/// the home directory, then the environment's root, then the system
/// default.
pub open spec fn spec_svdir(a: Args, env: EnvInfo) -> Seq<char>
    recommends
        needs_home(a) ==> env.home_dir is Some,
{
    if a.dir is Some {
        a.dir->0@
    } else if a.user {
        env.home_dir->0@ + "/runit/service"@
    } else if env.svdir is Some {
        env.svdir->0@
    } else {
        "/var/service"@
    }
}

/// Whether the tree view was requested, on either flag.
pub open spec fn spec_tree(a: Args) -> bool {
    a.tree || match a.command {
        Option::Some(Commands::Status { tree, .. }) => tree,
        _ => false,
    }
}

/// Whether log expansion was requested, on either flag.
pub open spec fn spec_log(a: Args) -> bool {
    a.log || match a.command {
        Option::Some(Commands::Status { log, .. }) => log,
        _ => false,
    }
}

/// The mode each sub-command selects; none means status.
pub open spec fn spec_mode(a: Args) -> Mode {
    match a.command {
        Option::None => Mode::Status,
        Option::Some(Commands::Status { .. }) => Mode::Status,
        Option::Some(Commands::Enable { .. }) => Mode::Enable,
        Option::Some(Commands::Disable { .. }) => Mode::Disable,
        Option::Some(Commands::External(_)) => Mode::External,
    }
}

/// The operand list each sub-command carries.
pub open spec fn spec_operands(a: Args) -> Seq<String> {
    match a.command {
        Option::None => Seq::empty(),
        Option::Some(Commands::Status { filter, .. }) => filter@,
        Option::Some(Commands::Enable { services }) => services@,
        Option::Some(Commands::Disable { services }) => services@,
        Option::Some(Commands::External(v)) => v@,
    }
}

fn clone_string_vec(v: &Vec<String>) -> (r: Vec<String>)
    ensures
        r@ == v@,
{
    let mut r: Vec<String> = Vec::new();
    let mut i: usize = 0;
    while i < v.len()
        invariant
            0 <= i <= v@.len(),
            r@ == v@.take(i as int),
        decreases v@.len() - i,
    {
        r.push(v[i].clone());
        proof {
            assert(r@ =~= v@.take(i + 1));
        }
        i = i + 1;
    }
    proof {
        assert(v@.take(v@.len() as int) =~= v@);
    }
    r
}

fn or_default(v: &Option<String>, d: &str) -> (r: String)
    ensures
        r@ == spec_or_default(*v, d@),
{
    match v {
        Option::Some(s) => s.clone(),
        Option::None => d.to_owned(),
    }
}

impl Config {
    /// Resolve the configuration from the decoded arguments and the
    /// environment facts.  Fails only on an unrecognized color override,
    /// or when user mode is requested and no home directory is known.
    pub fn from_args(args: &Args, env: &EnvInfo) -> (r: Result<Config, VsvError>)
        ensures
            r is Ok <==> !(args.color is Some && !color_arg_valid(args.color->0@)) && !(needs_home(
                *args,
            ) && env.home_dir is None),
            r matches Ok(c) ==> {
                &&& c.proc_path@ == spec_or_default(env.proc_dir, "/proc"@)
                &&& c.sv_prog@ == spec_or_default(env.sv_prog, "sv"@)
                &&& c.pstree_prog@ == spec_or_default(env.pstree_prog, "pstree"@)
                &&& c.colorize == spec_colorize(args.color, env.no_color, env.stdout_is_tty)
                &&& c.svdir@ == spec_svdir(*args, *env)
                &&& c.tree == spec_tree(*args)
                &&& c.log == spec_log(*args)
                &&& c.verbose == args.verbose
                &&& c.mode == spec_mode(*args)
                &&& c.operands@ == spec_operands(*args)
            },
            r matches Err(e) ==> match e {
                VsvError::BadColorOption { value } => args.color is Some && !color_arg_valid(
                    args.color->0@,
                ) && value@ == args.color->0@,
                VsvError::NoHomeDir => !(args.color is Some && !color_arg_valid(args.color->0@))
                    && needs_home(*args) && env.home_dir is None,
                _ => false,
            },
    {
        let colorize: bool = match &args.color {
            Option::None => !env.no_color && env.stdout_is_tty,
            Option::Some(s) => {
                if *s == String::from_str("yes") || *s == String::from_str("on") {
                    true
                } else if *s == String::from_str("no") || *s == String::from_str("off") {
                    false
                } else if *s == String::from_str("auto") {
                    !env.no_color && env.stdout_is_tty
                } else {
                    return Err(VsvError::BadColorOption { value: s.clone() });
                }
            },
        };

        let svdir: String = match &args.dir {
            Option::Some(d) => d.clone(),
            Option::None => {
                if args.user {
                    match &env.home_dir {
                        Option::Some(h) => {
                            let mut p = h.clone();
                            p.append("/runit/service");
                            p
                        },
                        Option::None => {
                            return Err(VsvError::NoHomeDir);
                        },
                    }
                } else {
                    match &env.svdir {
                        Option::Some(s) => s.clone(),
                        Option::None => String::from_str("/var/service"),
                    }
                }
            },
        };

        let mut tree = args.tree;
        let mut log = args.log;
        if let Option::Some(Commands::Status { log: slog, tree: stree, filter: _ }) =
            &args.command {
            if *stree {
                tree = true;
            }
            if *slog {
                log = true;
            }
        }

        let (mode, operands): (Mode, Vec<String>) = match &args.command {
            Option::None => (Mode::Status, Vec::new()),
            Option::Some(Commands::Status { log: _, tree: _, filter }) => (
                Mode::Status,
                clone_string_vec(filter),
            ),
            Option::Some(Commands::Enable { services }) => (
                Mode::Enable,
                clone_string_vec(services),
            ),
            Option::Some(Commands::Disable { services }) => (
                Mode::Disable,
                clone_string_vec(services),
            ),
            Option::Some(Commands::External(v)) => (Mode::External, clone_string_vec(v)),
        };

        proof {
            assert(operands@ =~= spec_operands(*args));
        }

        Ok(
            Config {
                proc_path: or_default(&env.proc_dir, "/proc"),
                sv_prog: or_default(&env.sv_prog, "sv"),
                pstree_prog: or_default(&env.pstree_prog, "pstree"),
                colorize,
                svdir,
                tree,
                log,
                verbose: args.verbose,
                operands,
                mode,
            },
        )
    }
}

} // verus!
