//! Presentation of one service: a display-ready projection of a service
//! record, built from raw file contents with per-field fault tolerance, and
//! formatting of each of its columns.  Building a view never fails: every
//! unreadable or garbled input degrades its own field to a placeholder and
//! at most adds a diagnostic message.

use vstd::prelude::*;

use crate::runit::{pid_parses, spec_pid_of, spec_state_of, RunitService, RunitServiceState};
use crate::strutil::{spec_dec_str, spec_trim, trim_str, u64_to_string};
use crate::utils::{
    cmd_from_cmdline, format_status_line, relative_duration, spec_argv0, spec_relative_duration,
    spec_status_line,
};

verus! {

/// Run state of a service, as displayed.
#[derive(Clone, Copy, Debug, PartialEq, Eq, Structural)]
pub enum ServiceState {
    Run,
    Down,
    Finish,
    Unknown,
}

/// The display attribute carried alongside each formatted field.  The
/// presentation layer decides terminal capability; this only names the
/// category.
#[derive(Clone, Copy, Debug, PartialEq, Eq, Structural)]
pub enum FieldStyle {
    Plain,
    Dimmed,
    Green,
    Red,
    Yellow,
    Magenta,
}

/// The displayed state for each recorded state.
pub open spec fn spec_state_map(s: RunitServiceState) -> ServiceState {
    match s {
        RunitServiceState::Run => ServiceState::Run,
        RunitServiceState::Down => ServiceState::Down,
        RunitServiceState::Finish => ServiceState::Finish,
        RunitServiceState::Unknown => ServiceState::Unknown,
    }
}

/// The status glyph for each state.
pub open spec fn spec_state_char(s: ServiceState) -> Seq<char> {
    match s {
        ServiceState::Run => "✔"@,
        ServiceState::Down => "X"@,
        ServiceState::Finish => "X"@,
        ServiceState::Unknown => "?"@,
    }
}

/// The state column text for each state.
pub open spec fn spec_state_label(s: ServiceState) -> Seq<char> {
    match s {
        ServiceState::Run => "run"@,
        ServiceState::Down => "down"@,
        ServiceState::Finish => "finish"@,
        ServiceState::Unknown => "n/a"@,
    }
}

/// The style for each state: running is green, administratively down is
/// red, finished and unknown are yellow.
pub open spec fn spec_state_style(s: ServiceState) -> FieldStyle {
    match s {
        ServiceState::Run => FieldStyle::Green,
        ServiceState::Down => FieldStyle::Red,
        ServiceState::Finish => FieldStyle::Yellow,
        ServiceState::Unknown => FieldStyle::Yellow,
    }
}

impl ServiceState {
    /// The displayed state for a recorded state.
    pub fn from_runit_state(s: RunitServiceState) -> (r: ServiceState)
        ensures
            r == spec_state_map(s),
    {
        match s {
            RunitServiceState::Run => ServiceState::Run,
            RunitServiceState::Down => ServiceState::Down,
            RunitServiceState::Finish => ServiceState::Finish,
            RunitServiceState::Unknown => ServiceState::Unknown,
        }
    }

    /// A one-character glyph for the state.
    pub fn get_char(&self) -> (r: String)
        ensures
            r@ == spec_state_char(*self),
    {
        match self {
            ServiceState::Run => String::from_str("✔"),
            ServiceState::Down => String::from_str("X"),
            ServiceState::Finish => String::from_str("X"),
            ServiceState::Unknown => String::from_str("?"),
        }
    }

    /// The state column text.
    pub fn label(&self) -> (r: String)
        ensures
            r@ == spec_state_label(*self),
    {
        match self {
            ServiceState::Run => String::from_str("run"),
            ServiceState::Down => String::from_str("down"),
            ServiceState::Finish => String::from_str("finish"),
            ServiceState::Unknown => String::from_str("n/a"),
        }
    }

    /// A suitable style for the state.
    pub fn get_style(&self) -> (r: FieldStyle)
        ensures
            r == spec_state_style(*self),
    {
        match self {
            ServiceState::Run => FieldStyle::Green,
            ServiceState::Down => FieldStyle::Red,
            ServiceState::Finish => FieldStyle::Yellow,
            ServiceState::Unknown => FieldStyle::Yellow,
        }
    }
}

/// Raw per-service facts gathered by the caller: whether the sentinel file
/// exists, the contents of the status and pid files (`None` when a read
/// failed), the content of the process table's `cmdline` record for the
/// service's pid (`None` when there was no pid or the read failed), how many
/// seconds ago the status file last changed (`None` when unavailable), and
/// the outcome of the requested tree inspection (`None` when not run).
pub struct ServiceSnapshot {
    pub down_exists: bool,
    pub stat_content: Option<String>,
    pub pid_content: Option<String>,
    pub cmdline_content: Option<String>,
    pub elapsed_secs: Option<u64>,
    pub pstree_output: Option<Result<String, String>>,
}

/// A display-ready projection of one service.  One of these exists for
/// every discovered record; building it cannot fail.
pub struct Service {
    pub name: String,
    pub state: ServiceState,
    pub enabled: bool,
    pub command: Option<String>,
    pub pid: Option<u64>,
    pub start_elapsed: Option<u64>,
    pub pstree: Option<Result<String, String>>,
}

/// The diagnostic recorded when a pid was found but its command could not
/// be resolved from the process table.
pub open spec fn spec_cmd_diagnostic(path: Seq<char>, pid: nat) -> Seq<char> {
    path + ": failed to get command for pid "@ + spec_dec_str(pid)
}

/// The diagnostic recorded when the pid file was missing or did not parse.
pub open spec fn spec_pid_diagnostic(path: Seq<char>) -> Seq<char> {
    path + ": failed to get pid"@
}

impl Service {
    /// Build the view of one service from its record and a snapshot of its
    /// raw facts.  Total: every failure degrades one field.
    ///
    /// Returns the view and the diagnostics gathered while building it:
    /// one message when the pid file did not yield a pid, one when a pid
    /// was found but the command lookup failed, none otherwise.
    pub fn from_runit_service(service: &RunitService, want_pstree: bool, snap: ServiceSnapshot) -> (r:
        (Service, Vec<String>))
        ensures
            r.0.name@ == service.name@,
            r.0.state == spec_state_map(spec_state_of(snap.stat_content.deep_view())),
            r.0.enabled == !snap.down_exists,
            r.0.pid is Some <==> pid_parses(snap.pid_content.deep_view()),
            r.0.pid is Some ==> r.0.pid->0 as nat == spec_pid_of(snap.pid_content.deep_view()),
            r.0.command is Some <==> (pid_parses(snap.pid_content.deep_view())
                && snap.cmdline_content is Some),
            r.0.command is Some ==> r.0.command->0@ == spec_argv0(snap.cmdline_content->0@),
            r.0.start_elapsed == snap.elapsed_secs,
            r.0.pstree == (if want_pstree && pid_parses(snap.pid_content.deep_view()) {
                snap.pstree_output
            } else {
                Option::<Result<String, String>>::None
            }),
            r.1.deep_view() == spec_snap_diagnostics(*service, snap),
    {
        let mut messages: Vec<String> = Vec::new();
        let name = service.name.clone();
        let enabled = service.enabled(snap.down_exists);
        let pid = service.get_pid(&snap.pid_content);
        let runit_state = service.get_state(&snap.stat_content);
        let state = ServiceState::from_runit_state(runit_state);

        let mut command: Option<String> = Option::None;
        match pid {
            Option::Some(p) => {
                match &snap.cmdline_content {
                    Option::Some(data) => {
                        command = Option::Some(cmd_from_cmdline(data.as_str()));
                    },
                    Option::None => {
                        let mut m = service.path.clone();
                        m.append(": failed to get command for pid ");
                        let digits = u64_to_string(p);
                        m.append(digits.as_str());
                        proof {
                            assert(m@ =~= spec_cmd_diagnostic(
                                service.path@,
                                spec_pid_of(snap.pid_content.deep_view()),
                            ));
                        }
                        messages.push(m);
                    },
                }
            },
            Option::None => {
                let mut m = service.path.clone();
                m.append(": failed to get pid");
                proof {
                    assert(m@ =~= spec_pid_diagnostic(service.path@));
                }
                messages.push(m);
            },
        }

        let pstree: Option<Result<String, String>> = if want_pstree && pid.is_some() {
            snap.pstree_output
        } else {
            Option::None
        };

        let svc = Service {
            name,
            state,
            enabled,
            command,
            pid,
            start_elapsed: snap.elapsed_secs,
            pstree,
        };
        proof {
            assert(messages.deep_view() =~= (if !pid_parses(snap.pid_content.deep_view()) {
                seq![spec_pid_diagnostic(service.path@)]
            } else if snap.cmdline_content is None {
                seq![spec_cmd_diagnostic(service.path@, spec_pid_of(snap.pid_content.deep_view()))]
            } else {
                Seq::<Seq<char>>::empty()
            }));
        }
        (svc, messages)
    }

    /// The name column: the service's name, unstyled.
    pub fn format_name(&self) -> (r: (String, FieldStyle))
        ensures
            r.0@ == self.name@,
            r.1 == FieldStyle::Plain,
    {
        (self.name.clone(), FieldStyle::Plain)
    }

    /// The status glyph column, styled by state.
    pub fn format_status_char(&self) -> (r: (String, FieldStyle))
        ensures
            r.0@ == spec_state_char(self.state),
            r.1 == spec_state_style(self.state),
    {
        (self.state.get_char(), self.state.get_style())
    }

    /// The state column, styled by state.
    pub fn format_state(&self) -> (r: (String, FieldStyle))
        ensures
            r.0@ == spec_state_label(self.state),
            r.1 == spec_state_style(self.state),
    {
        (self.state.label(), self.state.get_style())
    }

    /// The enabled column: `true` in green or `false` in red.
    pub fn format_enabled(&self) -> (r: (String, FieldStyle))
        ensures
            r.0@ == spec_enabled_text(self.enabled),
            r.1 == (if self.enabled {
                FieldStyle::Green
            } else {
                FieldStyle::Red
            }),
    {
        if self.enabled {
            (String::from_str("true"), FieldStyle::Green)
        } else {
            (String::from_str("false"), FieldStyle::Red)
        }
    }

    /// The pid column: the pid in decimal, or the `---` placeholder.
    pub fn format_pid(&self) -> (r: (String, FieldStyle))
        ensures
            r.0@ == spec_pid_text(self.pid),
            r.1 == FieldStyle::Magenta,
    {
        match self.pid {
            Option::Some(p) => (u64_to_string(p), FieldStyle::Magenta),
            Option::None => (String::from_str("---"), FieldStyle::Magenta),
        }
    }

    /// The command column: the resolved command, or the `---` placeholder.
    pub fn format_command(&self) -> (r: (String, FieldStyle))
        ensures
            r.0@ == spec_command_text(*self),
            r.1 == FieldStyle::Green,
    {
        match &self.command {
            Option::Some(cmd) => (cmd.clone(), FieldStyle::Green),
            Option::None => (String::from_str("---"), FieldStyle::Green),
        }
    }

    /// The time column: the humanized time since the last state change, or
    /// the `---` placeholder when it is unavailable.  Very recent changes
    /// are highlighted, older ones dimmed.
    pub fn format_time(&self) -> (r: (String, FieldStyle))
        ensures
            r.0@ == spec_time_text(self.start_elapsed),
            r.1 == spec_time_style(self.start_elapsed),
    {
        match self.start_elapsed {
            Option::Some(secs) => {
                let s = relative_duration(secs);
                let style = if secs < 5 {
                    FieldStyle::Red
                } else if secs < 30 {
                    FieldStyle::Yellow
                } else {
                    FieldStyle::Dimmed
                };
                (s, style)
            },
            Option::None => (String::from_str("---"), FieldStyle::Red),
        }
    }

    /// The tree dump to print after the row: empty when none was requested,
    /// the trimmed dump framed by blank lines on success, an explanation in
    /// red on failure.
    pub fn format_pstree(&self) -> (r: (String, FieldStyle))
        ensures
            r.0@ == spec_pstree_text(*self),
            r.1 == spec_pstree_style(*self),
    {
        proof {
            reveal_strlit("\n");
        }
        match &self.pstree {
            Option::None => (String::new(), FieldStyle::Plain),
            Option::Some(Result::Ok(stdout)) => {
                let mut s = String::from_str("\n");
                let t = trim_str(stdout.as_str());
                s.append(t.as_str());
                s.append("\n");
                proof {
                    assert(s@ =~= spec_pstree_text(*self));
                }
                (s, FieldStyle::Dimmed)
            },
            Option::Some(Result::Err(err)) => {
                let mut s = String::from_str("\n");
                s.append("pstree call failed: ");
                s.append(err.as_str());
                s.append("\n");
                proof {
                    assert(s@ =~= spec_pstree_text(*self));
                }
                (s, FieldStyle::Red)
            },
        }
    }

    /// The full, unstyled status row for this service.
    pub fn render(&self) -> (r: String)
        ensures
            r@ == spec_service_row(*self),
    {
        let status_char = self.format_status_char();
        let name = self.format_name();
        let state = self.format_state();
        let enabled = self.format_enabled();
        let pid = self.format_pid();
        let command = self.format_command();
        let time = self.format_time();
        format_status_line(
            status_char.0.as_str(),
            name.0.as_str(),
            state.0.as_str(),
            enabled.0.as_str(),
            pid.0.as_str(),
            command.0.as_str(),
            time.0.as_str(),
        )
    }
}

/// The enabled column text.
pub open spec fn spec_enabled_text(enabled: bool) -> Seq<char> {
    if enabled {
        "true"@
    } else {
        "false"@
    }
}

/// The pid column text: decimal digits, or the placeholder.
pub open spec fn spec_pid_text(pid: Option<u64>) -> Seq<char> {
    match pid {
        Option::Some(p) => spec_dec_str(p as nat),
        Option::None => "---"@,
    }
}

/// The command column text: the resolved command, or the placeholder.
pub open spec fn spec_command_text(s: Service) -> Seq<char> {
    match s.command {
        Option::Some(cmd) => cmd@,
        Option::None => "---"@,
    }
}

/// The time column text: a humanized duration, or the placeholder.
pub open spec fn spec_time_text(elapsed: Option<u64>) -> Seq<char> {
    match elapsed {
        Option::Some(secs) => spec_relative_duration(secs as nat),
        Option::None => "---"@,
    }
}

/// The time column style: red under five seconds or when unavailable,
/// yellow under thirty, dimmed after that.
pub open spec fn spec_time_style(elapsed: Option<u64>) -> FieldStyle {
    match elapsed {
        Option::Some(secs) => if secs < 5 {
            FieldStyle::Red
        } else if secs < 30 {
            FieldStyle::Yellow
        } else {
            FieldStyle::Dimmed
        },
        Option::None => FieldStyle::Red,
    }
}

/// The tree dump text.
pub open spec fn spec_pstree_text(s: Service) -> Seq<char> {
    match s.pstree {
        Option::None => Seq::empty(),
        Option::Some(Result::Ok(stdout)) => "\n"@ + spec_trim(stdout@) + "\n"@,
        Option::Some(Result::Err(err)) => "\n"@ + "pstree call failed: "@ + err@ + "\n"@,
    }
}

/// The tree dump style.
pub open spec fn spec_pstree_style(s: Service) -> FieldStyle {
    match s.pstree {
        Option::None => FieldStyle::Plain,
        Option::Some(Result::Ok(_)) => FieldStyle::Dimmed,
        Option::Some(Result::Err(_)) => FieldStyle::Red,
    }
}

/// The full status row of a built view.
pub open spec fn spec_service_row(s: Service) -> Seq<char> {
    spec_status_line(
        spec_state_char(s.state),
        s.name@,
        spec_state_label(s.state),
        spec_enabled_text(s.enabled),
        spec_pid_text(s.pid),
        spec_command_text(s),
        spec_time_text(s.start_elapsed),
    )
}

/// The displayed state a snapshot decodes to.
pub open spec fn spec_snap_state(snap: ServiceSnapshot) -> ServiceState {
    spec_state_map(spec_state_of(snap.stat_content.deep_view()))
}

/// The pid column a snapshot renders to: the parsed pid, or the
/// placeholder when the pid file was missing or did not parse.
pub open spec fn spec_snap_pid_text(snap: ServiceSnapshot) -> Seq<char> {
    if pid_parses(snap.pid_content.deep_view()) {
        spec_dec_str(spec_pid_of(snap.pid_content.deep_view()))
    } else {
        "---"@
    }
}

/// The command column a snapshot renders to: the command name resolved
/// from the process table, or the placeholder when there was no pid or the
/// lookup failed.
pub open spec fn spec_snap_command_text(snap: ServiceSnapshot) -> Seq<char> {
    if pid_parses(snap.pid_content.deep_view()) && snap.cmdline_content is Some {
        spec_argv0(snap.cmdline_content->0@)
    } else {
        "---"@
    }
}

/// The full status row a record and its snapshot render to.
pub open spec fn spec_snap_row(rec: RunitService, snap: ServiceSnapshot) -> Seq<char> {
    spec_status_line(
        spec_state_char(spec_snap_state(snap)),
        rec.name@,
        spec_state_label(spec_snap_state(snap)),
        spec_enabled_text(!snap.down_exists),
        spec_snap_pid_text(snap),
        spec_snap_command_text(snap),
        spec_time_text(snap.elapsed_secs),
    )
}

/// The diagnostics building a view from a snapshot gathers: one message
/// when the pid could not be had, one when the command lookup for a good
/// pid failed, none otherwise.
pub open spec fn spec_snap_diagnostics(rec: RunitService, snap: ServiceSnapshot) -> Seq<
    Seq<char>,
> {
    if !pid_parses(snap.pid_content.deep_view()) {
        seq![spec_pid_diagnostic(rec.path@)]
    } else if snap.cmdline_content is None {
        seq![spec_cmd_diagnostic(rec.path@, spec_pid_of(snap.pid_content.deep_view()))]
    } else {
        Seq::<Seq<char>>::empty()
    }
}

/// A service with no pid file renders the pid and command placeholders;
/// nothing about such a snapshot is an error.
pub proof fn lemma_missing_pid_placeholders(snap: ServiceSnapshot)
    requires
        snap.pid_content is None,
    ensures
        spec_snap_pid_text(snap) == "---"@,
        spec_snap_command_text(snap) == "---"@,
{
}

/// A pid file whose content does not parse renders exactly like a missing
/// pid file: the same row and the same diagnostics.
pub proof fn lemma_unparsable_pid_like_missing(
    rec: RunitService,
    snap1: ServiceSnapshot,
    snap2: ServiceSnapshot,
)
    requires
        !pid_parses(snap1.pid_content.deep_view()),
        snap2.pid_content is None,
        snap2.down_exists == snap1.down_exists,
        snap2.stat_content == snap1.stat_content,
        snap2.cmdline_content == snap1.cmdline_content,
        snap2.elapsed_secs == snap1.elapsed_secs,
        snap2.pstree_output == snap1.pstree_output,
    ensures
        spec_snap_row(rec, snap1) == spec_snap_row(rec, snap2),
        spec_snap_diagnostics(rec, snap1) == spec_snap_diagnostics(rec, snap2),
{
}

} // verus!
