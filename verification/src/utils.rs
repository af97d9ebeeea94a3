//! Presentation utilities: humanized durations, fixed-width status lines,
//! and command-name extraction from a process-table `cmdline` record.

use vstd::prelude::*;

use crate::strutil::{
    pad_right, spec_dec_str, spec_pad_right, spec_trim_long, trim_long_string, u64_to_string,
};

verus! {

/// Number of seconds in the duration unit of each rank, from seconds (rank 0)
/// up to years (rank 6).  A month is 30 days, a year 365 days.
pub open spec fn unit_secs(rank: int) -> nat {
    if rank == 6 {
        31536000
    } else if rank == 5 {
        2592000
    } else if rank == 4 {
        604800
    } else if rank == 3 {
        86400
    } else if rank == 2 {
        3600
    } else if rank == 1 {
        60
    } else {
        1
    }
}

/// The singular name of the duration unit of each rank.
pub open spec fn unit_label(rank: int) -> Seq<char> {
    if rank == 6 {
        seq!['y', 'e', 'a', 'r']
    } else if rank == 5 {
        seq!['m', 'o', 'n', 't', 'h']
    } else if rank == 4 {
        seq!['w', 'e', 'e', 'k']
    } else if rank == 3 {
        seq!['d', 'a', 'y']
    } else if rank == 2 {
        seq!['h', 'o', 'u', 'r']
    } else if rank == 1 {
        seq!['m', 'i', 'n', 'u', 't', 'e']
    } else {
        seq!['s', 'e', 'c', 'o', 'n', 'd']
    }
}

/// The rank of the largest unit that fits into `secs` at least once
/// (0 when even a single second does not).
pub open spec fn chosen_rank(secs: nat) -> int {
    if secs >= 31536000 {
        6
    } else if secs >= 2592000 {
        5
    } else if secs >= 604800 {
        4
    } else if secs >= 86400 {
        3
    } else if secs >= 3600 {
        2
    } else if secs >= 60 {
        1
    } else {
        0
    }
}

/// The humanized rendering of a duration: the count in the chosen unit, the
/// unit's name, an `s` when the count exceeds one, and `0 seconds` for an
/// empty duration.
pub open spec fn spec_relative_duration(secs: nat) -> Seq<char> {
    let rank = chosen_rank(secs);
    let n = secs / unit_secs(rank);
    if n == 0 {
        seq!['0', ' ', 's', 'e', 'c', 'o', 'n', 'd', 's']
    } else {
        spec_dec_str(n) + seq![' '] + unit_label(rank) + (if n > 1 {
            seq!['s']
        } else {
            Seq::empty()
        })
    }
}

/// Render a duration in seconds as a count of its single largest applicable
/// unit, e.g. `1 minute` or `5 hours`.
pub fn relative_duration(secs: u64) -> (r: String)
    ensures
        r@ == spec_relative_duration(secs as nat),
{
    proof {
        reveal_strlit("0 seconds");
        reveal_strlit("year");
        reveal_strlit("month");
        reveal_strlit("week");
        reveal_strlit("day");
        reveal_strlit("hour");
        reveal_strlit("minute");
        reveal_strlit("second");
        reveal_strlit(" ");
        reveal_strlit("s");
    }
    let (n, label): (u64, &str) = if secs >= 31536000 {
        (secs / 31536000, "year")
    } else if secs >= 2592000 {
        (secs / 2592000, "month")
    } else if secs >= 604800 {
        (secs / 604800, "week")
    } else if secs >= 86400 {
        (secs / 86400, "day")
    } else if secs >= 3600 {
        (secs / 3600, "hour")
    } else if secs >= 60 {
        (secs / 60, "minute")
    } else {
        (secs, "second")
    };
    if n == 0 {
        let r = String::from_str("0 seconds");
        proof {
            assert(r@ =~= spec_relative_duration(secs as nat));
        }
        return r;
    }
    let mut r = u64_to_string(n);
    r.append(" ");
    r.append(label);
    if n > 1 {
        r.append("s");
    }
    proof {
        assert(label@ =~= unit_label(chosen_rank(secs as nat)));
        assert(r@ =~= spec_relative_duration(secs as nat));
    }
    r
}

/// Growing a duration never shrinks the chosen unit: the rank picked for a
/// longer duration is at least the rank picked for a shorter one.
pub proof fn lemma_relative_duration_monotonic(s1: nat, s2: nat)
    requires
        s1 <= s2,
    ensures
        chosen_rank(s1) <= chosen_rank(s2),
{
}

/// The ellipsis used when a column's content is cut.
pub open spec fn ellipsis() -> Seq<char> {
    seq!['.', '.', '.']
}

/// One padded status column: the text truncated to the column width with an
/// ellipsis, then right-padded with spaces to that width.
pub open spec fn spec_col(s: Seq<char>, width: nat) -> Seq<char>
    recommends
        width > 3,
{
    spec_pad_right(spec_trim_long(s, width, ellipsis()), width)
}

/// The whole status line for seven column texts: a space before every
/// column, every column but the last padded to its fixed width, the
/// single-character status glyph cut without an ellipsis, and the time
/// column neither truncated nor padded.
pub open spec fn spec_status_line(
    status_char: Seq<char>,
    name: Seq<char>,
    state: Seq<char>,
    enabled: Seq<char>,
    pid: Seq<char>,
    command: Seq<char>,
    time: Seq<char>,
) -> Seq<char> {
    seq![' '] + spec_pad_right(spec_trim_long(status_char, 1, Seq::empty()), 1) + seq![' ']
        + spec_col(name, 20) + seq![' '] + spec_col(state, 7) + seq![' '] + spec_col(enabled, 9)
        + seq![' '] + spec_col(pid, 8) + seq![' '] + spec_col(command, 17) + seq![' '] + time
}

fn append_col(line: &mut String, text: &str, width: usize)
    requires
        width > 3,
    ensures
        final(line)@ == old(line)@ + seq![' '] + spec_col(text@, width as nat),
{
    proof {
        reveal_strlit(" ");
        reveal_strlit("...");
    }
    line.append(" ");
    let cut = trim_long_string(text, width, "...");
    let padded = pad_right(cut.as_str(), width);
    line.append(padded.as_str());
    proof {
        assert(line@ =~= old(line)@ + seq![' '] + spec_col(text@, width as nat));
    }
}

/// Assemble one row of status output from its seven column texts.
pub fn format_status_line(
    status_char: &str,
    name: &str,
    state: &str,
    enabled: &str,
    pid: &str,
    command: &str,
    time: &str,
) -> (r: String)
    ensures
        r@ == spec_status_line(status_char@, name@, state@, enabled@, pid@, command@, time@),
{
    proof {
        reveal_strlit(" ");
        reveal_strlit("");
    }
    let mut line = String::new();
    line.append(" ");
    let cut = trim_long_string(status_char, 1, "");
    let padded = pad_right(cut.as_str(), 1);
    line.append(padded.as_str());
    append_col(&mut line, name, 20);
    append_col(&mut line, state, 7);
    append_col(&mut line, enabled, 9);
    append_col(&mut line, pid, 8);
    append_col(&mut line, command, 17);
    line.append(" ");
    line.append(time);
    proof {
        assert(line@ =~= spec_status_line(
            status_char@,
            name@,
            state@,
            enabled@,
            pid@,
            command@,
            time@,
        ));
    }
    line
}

/// Relies on duct: `cmd(..).stdout_capture().stderr_capture().unchecked().run()`
/// runs the program with both output streams captured and yields its exit
/// code (`None` when ended by a signal) and decoded standard output, or the
/// error that kept it from running.
#[verifier::external_body]
fn run_captured(cmd: &str, args: &Vec<String>) -> (r: Result<(Option<i32>, String), String>) {
    match duct::cmd(cmd, args.clone()).stdout_capture().stderr_capture().unchecked().run() {
        Ok(o) => match String::from_utf8(o.stdout) {
            Ok(s) => Ok((o.status.code(), s)),
            Err(e) => Err(e.to_string()),
        },
        Err(e) => Err(e.to_string()),
    }
}

/// Relies on duct: `cmd(..).unchecked().run()` runs the program with its
/// output streams inherited and yields its exit code (`None` when ended by
/// a signal), or the error that kept it from running.
#[verifier::external_body]
fn run_inherited(cmd: &str, args: &Vec<String>) -> (r: Result<Option<i32>, String>) {
    match duct::cmd(cmd, args.clone()).unchecked().run() {
        Ok(o) => Ok(o.status.code()),
        Err(e) => Err(e.to_string()),
    }
}

/// What a captured program run yields: the standard output exactly when
/// the program exited zero, the launch error when it could not run at all,
/// and a complaint naming the program on any non-zero or missing exit
/// code.
pub fn program_output_result(cmd: &str, outcome: Result<(Option<i32>, String), String>) -> (r:
    Result<String, String>)
    ensures
        r is Ok <==> (outcome matches Ok(p) && p.0 == Option::Some(0i32)),
        r matches Ok(s) ==> (outcome matches Ok(p) && s == p.1),
        r matches Err(m) ==> m@ == (match outcome {
            Result::Err(d) => d@,
            Result::Ok(_) => "program '"@ + cmd@ + "' returned non-zero"@,
        }),
{
    match outcome {
        Result::Err(d) => Err(d),
        Result::Ok((code, s)) => {
            let ok = match code {
                Option::Some(c) => c == 0,
                Option::None => false,
            };
            if ok {
                Ok(s)
            } else {
                let mut m = String::from_str("program '");
                m.append(cmd);
                m.append("' returned non-zero");
                proof {
                    assert(m@ =~= "program '"@ + cmd@ + "' returned non-zero"@);
                }
                Err(m)
            }
        },
    }
}

/// Run a program and get its standard output.  A program that cannot be
/// run, exits non-zero, or prints undecodable output is an error; what
/// came back is judged by `program_output_result`, whose contract says
/// exactly how.
pub fn run_program_get_output(cmd: &str, args: &Vec<String>) -> (r: Result<String, String>) {
    let outcome = run_captured(cmd, args);
    program_output_result(cmd, outcome)
}

/// Run a program with its output streams inherited and get its exit code
/// (`None` when it was ended by a signal); an error only when it could not
/// be run at all.
pub fn run_program_get_status(cmd: &str, args: &Vec<String>) -> (r: Result<Option<i32>, String>) {
    run_inherited(cmd, args)
}

/// Length of the prefix of `s` before its first NUL character.
pub open spec fn pre_nul_len(s: Seq<char>) -> nat
    decreases s.len(),
{
    if s.len() > 0 && s[0] != '\0' {
        pre_nul_len(s.drop_first()) + 1
    } else {
        0
    }
}

/// The first NUL-separated segment of a process-table `cmdline` record:
/// the process's command name (argv 0).
pub open spec fn spec_argv0(s: Seq<char>) -> Seq<char> {
    s.take(pre_nul_len(s) as int)
}

proof fn lemma_pre_nul_at(s: Seq<char>, i: int)
    requires
        0 <= i <= s.len(),
        forall|k: int| 0 <= k < i ==> (#[trigger] s[k]) != '\0',
        i == s.len() || s[i] == '\0',
    ensures
        pre_nul_len(s) == i,
    decreases i,
{
    if i > 0 {
        let t = s.drop_first();
        assert(forall|k: int| 0 <= k < i - 1 ==> (#[trigger] t[k]) != '\0');
        lemma_pre_nul_at(t, i - 1);
    }
}

/// Extract the command name from the raw content of a process-table
/// `cmdline` record (NUL-separated argument strings).
pub fn cmd_from_cmdline(data: &str) -> (r: String)
    ensures
        r@ == spec_argv0(data@),
{
    let len = data.unicode_len();
    let mut i: usize = 0;
    while i < len && data.get_char(i) != '\0'
        invariant
            0 <= i <= len,
            len == data@.len(),
            forall|k: int| 0 <= k < i ==> (#[trigger] data@[k]) != '\0',
        decreases len - i,
    {
        i = i + 1;
    }
    proof {
        lemma_pre_nul_at(data@, i as int);
    }
    data.substring_char(0, i).to_owned()
}

} // verus!
