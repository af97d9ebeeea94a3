//! The crate's error values.  Fatal conditions abort a whole invocation;
//! everything else in this crate degrades to a placeholder instead of
//! erroring.

use vstd::prelude::*;

verus! {

/// Why an operation failed outright.
#[derive(Debug)]
pub enum VsvError {
    /// A directory entry's name could not be decoded as text during
    /// discovery; the directory layout is a precondition, so this is fatal.
    BadServiceName,
    /// A mutation was requested with no target services named.
    NoTargets,
    /// The color override on the command line was not a recognized word.
    BadColorOption { value: String },
    /// User mode was requested but no home directory could be determined.
    NoHomeDir,
    /// At least one mutation target could not be modified.
    ModifyFailed,
    /// A forwarded sub-command was named without its argument.
    MissingArgument { prog: String, sub: String },
    /// The forwarded sub-command ran and exited non-zero.
    ExternalFailed { prog: String },
    /// The forwarded sub-command could not be run at all.
    ExternalLaunch { prog: String, detail: String },
}

/// The message text for each error.
pub open spec fn spec_error_message(e: VsvError) -> Seq<char> {
    match e {
        VsvError::BadServiceName => "failed to parse service name"@,
        VsvError::NoTargets => "at least one (1) service required"@,
        VsvError::BadColorOption { value } => "unknown color option: '"@ + value@ + "'"@,
        VsvError::NoHomeDir => "failed to determine users home directory"@,
        VsvError::ModifyFailed => "failed to modify service(s)."@,
        VsvError::MissingArgument { prog, sub } => "argument expected for '"@ + prog@ + " "@
            + sub@ + "'"@,
        VsvError::ExternalFailed { prog } => "call to "@ + prog@ + " failed"@,
        VsvError::ExternalLaunch { prog, detail } => "failed to execute "@ + prog@ + ": "@
            + detail@,
    }
}

impl VsvError {
    /// Render the error as a human-readable message.
    pub fn message(&self) -> (r: String)
        ensures
            r@ == spec_error_message(*self),
    {
        match self {
            VsvError::BadServiceName => String::from_str("failed to parse service name"),
            VsvError::NoTargets => String::from_str("at least one (1) service required"),
            VsvError::BadColorOption { value } => {
                let mut r = String::from_str("unknown color option: '");
                r.append(value.as_str());
                r.append("'");
                proof {
                    assert(r@ =~= spec_error_message(*self));
                }
                r
            },
            VsvError::NoHomeDir => String::from_str(
                "failed to determine users home directory",
            ),
            VsvError::ModifyFailed => String::from_str("failed to modify service(s)."),
            VsvError::MissingArgument { prog, sub } => {
                let mut r = String::from_str("argument expected for '");
                r.append(prog.as_str());
                r.append(" ");
                r.append(sub.as_str());
                r.append("'");
                proof {
                    assert(r@ =~= spec_error_message(*self));
                }
                r
            },
            VsvError::ExternalFailed { prog } => {
                let mut r = String::from_str("call to ");
                r.append(prog.as_str());
                r.append(" failed");
                proof {
                    assert(r@ =~= spec_error_message(*self));
                }
                r
            },
            VsvError::ExternalLaunch { prog, detail } => {
                let mut r = String::from_str("failed to execute ");
                r.append(prog.as_str());
                r.append(": ");
                r.append(detail.as_str());
                proof {
                    assert(r@ =~= spec_error_message(*self));
                }
                r
            },
        }
    }
}

} // verus!
