//! The pipelines behind each sub-command: enable/disable planning and
//! aggregation, forwarding decisions for an external sub-command, and the
//! ordered rendering of the status listing.  Every filesystem or process
//! action the pipelines call for is described as data; the caller performs
//! it and reports what happened.

use vstd::prelude::*;

use crate::config::{spec_mode_label, Config, Mode};
use crate::errors::VsvError;
use crate::runit::{pid_parses, RunitService};
use crate::service::{
    spec_service_row, spec_snap_diagnostics, spec_snap_row, Service, ServiceSnapshot,
};
use crate::utils::{format_status_line, spec_status_line};

verus! {

/// The header row above the status listing.
pub fn status_header() -> (r: String)
    ensures
        r@ == spec_status_line(""@, "SERVICE"@, "STATE"@, "ENABLED"@, "PID"@, "COMMAND"@, "TIME"@),
{
    format_status_line("", "SERVICE", "STATE", "ENABLED", "PID", "COMMAND", "TIME")
}

/// Build the view of every discovered service, in discovery order: one
/// view and one diagnostic list per record, however degraded the record's
/// snapshot is.  The caller gathers the snapshots (concurrently if it
/// likes); this mapping keeps the name-sorted record order regardless.
pub fn build_views(
    services: &Vec<RunitService>,
    want_pstree: bool,
    mut snaps: Vec<ServiceSnapshot>,
) -> (r: (Vec<Service>, Vec<Vec<String>>))
    requires
        snaps@.len() == services@.len(),
    ensures
        r.0@.len() == services@.len(),
        r.1@.len() == services@.len(),
        forall|i: int|
            0 <= i < services@.len() ==> spec_service_row(#[trigger] r.0@[i]) == spec_snap_row(
                services@[i],
                snaps@[i],
            ),
        forall|i: int| 0 <= i < services@.len() ==> (#[trigger] r.0@[i]).name@ == services@[i].name@,
        forall|i: int|
            0 <= i < services@.len() ==> (#[trigger] r.0@[i]).pstree == (if want_pstree
                && pid_parses(snaps@[i].pid_content.deep_view()) {
                snaps@[i].pstree_output
            } else {
                Option::<Result<String, String>>::None
            }),
        forall|i: int|
            0 <= i < services@.len() ==> (#[trigger] r.1@[i]).deep_view() == spec_snap_diagnostics(
                services@[i],
                snaps@[i],
            ),
{
    let ghost all_snaps = snaps@;
    let mut views: Vec<Service> = Vec::new();
    let mut diags: Vec<Vec<String>> = Vec::new();
    let mut i: usize = 0;
    let n = services.len();
    proof {
        assert(all_snaps.skip(0) =~= all_snaps);
    }
    while i < n
        invariant
            0 <= i <= n,
            n == services@.len(),
            all_snaps.len() == n,
            snaps@ == all_snaps.skip(i as int),
            views@.len() == i,
            diags@.len() == i,
            forall|k: int|
                0 <= k < i ==> spec_service_row(#[trigger] views@[k]) == spec_snap_row(
                    services@[k],
                    all_snaps[k],
                ),
            forall|k: int| 0 <= k < i ==> (#[trigger] views@[k]).name@ == services@[k].name@,
            forall|k: int|
                0 <= k < i ==> (#[trigger] views@[k]).pstree == (if want_pstree && pid_parses(
                    all_snaps[k].pid_content.deep_view(),
                ) {
                    all_snaps[k].pstree_output
                } else {
                    Option::<Result<String, String>>::None
                }),
            forall|k: int|
                0 <= k < i ==> (#[trigger] diags@[k]).deep_view() == spec_snap_diagnostics(
                    services@[k],
                    all_snaps[k],
                ),
        decreases n - i,
    {
        let snap = snaps.remove(0);
        proof {
            assert(all_snaps.skip(i as int)[0] == all_snaps[i as int]);
            assert(all_snaps.skip(i as int).remove(0) =~= all_snaps.skip(i + 1));
        }
        let (svc, messages) = Service::from_runit_service(&services[i], want_pstree, snap);
        views.push(svc);
        diags.push(messages);
        i = i + 1;
    }
    (views, diags)
}

/// Render the status row of every view, in order.
pub fn render_all(views: &Vec<Service>) -> (r: Vec<String>)
    ensures
        r@.len() == views@.len(),
        forall|i: int|
            0 <= i < views@.len() ==> (#[trigger] r@[i])@ == spec_service_row(views@[i]),
{
    let mut rows: Vec<String> = Vec::new();
    let mut i: usize = 0;
    while i < views.len()
        invariant
            0 <= i <= views@.len(),
            rows@.len() == i,
            forall|k: int| 0 <= k < i ==> (#[trigger] rows@[k])@ == spec_service_row(views@[k]),
        decreases views@.len() - i,
    {
        rows.push(views[i].render());
        i = i + 1;
    }
    rows
}

/// What happened to one mutation target: it was not a valid service (and
/// was not touched), its sentinel operation succeeded, the sentinel to
/// remove was already absent (success all the same), or the filesystem
/// refused (with the reported reason).
#[derive(Debug)]
pub enum TargetOutcome {
    Invalid,
    Done,
    AlreadyAbsent,
    Failed(String),
}

/// Whether a target counts as successfully modified.  Removing a sentinel
/// that was already absent is success: enabling is idempotent.
pub open spec fn target_ok(t: TargetOutcome) -> bool {
    t is Done || t is AlreadyAbsent
}

fn target_succeeded(t: &TargetOutcome) -> (r: bool)
    ensures
        r == target_ok(*t),
{
    match t {
        TargetOutcome::Done => true,
        TargetOutcome::AlreadyAbsent => true,
        TargetOutcome::Invalid => false,
        TargetOutcome::Failed(_) => false,
    }
}

/// The single filesystem step planned for one mutation target: the service
/// directory, its control subdirectory (whose presence makes the target
/// valid), the one sentinel file to create or remove, and which of the two
/// to do.
#[derive(Debug)]
pub struct MutationStep {
    pub name: String,
    pub path: String,
    pub supervise: String,
    pub sentinel: String,
    pub create: bool,
}

/// The directory of a target service under the supervision root.
pub open spec fn spec_target_path(svdir: Seq<char>, name: Seq<char>) -> Seq<char> {
    svdir + "/"@ + name
}

/// Plan the mutation: one step per named target, in order; disabling
/// creates the target's single sentinel file, enabling removes that same
/// file.  Zero targets is an immediate user error.
pub fn mutation_steps(cfg: &Config) -> (r: Result<Vec<MutationStep>, VsvError>)
    requires
        cfg.mode is Enable || cfg.mode is Disable,
    ensures
        match r {
            Ok(steps) => {
                &&& cfg.operands@.len() > 0
                &&& steps@.len() == cfg.operands@.len()
                &&& forall|i: int|
                    0 <= i < steps@.len() ==> {
                        &&& (#[trigger] steps@[i]).name@ == cfg.operands@[i]@
                        &&& steps@[i].path@ == spec_target_path(cfg.svdir@, cfg.operands@[i]@)
                        &&& steps@[i].supervise@ == steps@[i].path@ + "/supervise"@
                        &&& steps@[i].sentinel@ == steps@[i].path@ + "/down"@
                        &&& steps@[i].create == (cfg.mode is Disable)
                    }
            },
            Err(e) => e is NoTargets && cfg.operands@.len() == 0,
        },
{
    if cfg.operands.len() == 0 {
        return Err(VsvError::NoTargets);
    }
    let create = match cfg.mode {
        Mode::Disable => true,
        _ => false,
    };
    let mut steps: Vec<MutationStep> = Vec::new();
    let mut i: usize = 0;
    while i < cfg.operands.len()
        invariant
            0 <= i <= cfg.operands@.len(),
            steps@.len() == i,
            create == (cfg.mode is Disable),
            forall|k: int|
                0 <= k < i ==> {
                    &&& (#[trigger] steps@[k]).name@ == cfg.operands@[k]@
                    &&& steps@[k].path@ == spec_target_path(cfg.svdir@, cfg.operands@[k]@)
                    &&& steps@[k].supervise@ == steps@[k].path@ + "/supervise"@
                    &&& steps@[k].sentinel@ == steps@[k].path@ + "/down"@
                    &&& steps@[k].create == (cfg.mode is Disable)
                },
        decreases cfg.operands@.len() - i,
    {
        let name = &cfg.operands[i];
        let mut p = cfg.svdir.clone();
        p.append("/");
        p.append(name.as_str());
        let svc = RunitService::new(name.as_str(), p.as_str());
        let supervise = svc.supervise_path();
        let sentinel = svc.down_path();
        steps.push(
            MutationStep { name: name.clone(), path: p, supervise, sentinel, create },
        );
        i = i + 1;
    }
    Ok(steps)
}

/// The text reported for one target's outcome.
pub open spec fn spec_outcome_text(t: TargetOutcome) -> Seq<char> {
    match t {
        TargetOutcome::Invalid => "failed! service not valid"@,
        TargetOutcome::Done => "done."@,
        TargetOutcome::AlreadyAbsent => "done."@,
        TargetOutcome::Failed(e) => "failed! "@ + e@,
    }
}

/// The full report line for one target.
pub open spec fn spec_target_report(mode: Mode, name: Seq<char>, t: TargetOutcome) -> Seq<char> {
    spec_mode_label(mode) + " service "@ + name + "... "@ + spec_outcome_text(t)
}

/// Render the report line for one target: what was attempted, on which
/// service, and how it went.
pub fn target_report(mode: &Mode, name: &str, t: &TargetOutcome) -> (r: String)
    ensures
        r@ == spec_target_report(*mode, name@, *t),
{
    let mut r = mode.label();
    r.append(" service ");
    r.append(name);
    r.append("... ");
    match t {
        TargetOutcome::Invalid => r.append("failed! service not valid"),
        TargetOutcome::Done => r.append("done."),
        TargetOutcome::AlreadyAbsent => r.append("done."),
        TargetOutcome::Failed(e) => {
            r.append("failed! ");
            r.append(e.as_str());
        },
    }
    proof {
        assert(r@ =~= spec_target_report(*mode, name@, *t));
    }
    r
}

fn _do_enable_disable(cfg: &Config, outcomes: &Vec<TargetOutcome>) -> (r: Result<(), VsvError>)
    requires
        outcomes@.len() == cfg.operands@.len(),
    ensures
        r is Ok <==> cfg.operands@.len() > 0 && (forall|i: int|
            0 <= i < outcomes@.len() ==> target_ok(#[trigger] outcomes@[i])),
        r matches Err(e) ==> e == (if cfg.operands@.len() == 0 {
            VsvError::NoTargets
        } else {
            VsvError::ModifyFailed
        }),
{
    if cfg.operands.len() == 0 {
        return Err(VsvError::NoTargets);
    }
    let mut had_error = false;
    let mut i: usize = 0;
    while i < outcomes.len()
        invariant
            0 <= i <= outcomes@.len(),
            had_error == !(forall|k: int| 0 <= k < i ==> target_ok(#[trigger] outcomes@[k])),
        decreases outcomes@.len() - i,
    {
        if !target_succeeded(&outcomes[i]) {
            had_error = true;
        }
        i = i + 1;
    }
    if had_error {
        Err(VsvError::ModifyFailed)
    } else {
        Ok(())
    }
}

/// Judge an enable run: every named target must have been attempted, and
/// the whole operation succeeds exactly when every target was valid and
/// its sentinel was removed or already absent.
pub fn do_enable(cfg: &Config, outcomes: &Vec<TargetOutcome>) -> (r: Result<(), VsvError>)
    requires
        outcomes@.len() == cfg.operands@.len(),
    ensures
        r is Ok <==> cfg.operands@.len() > 0 && (forall|i: int|
            0 <= i < outcomes@.len() ==> target_ok(#[trigger] outcomes@[i])),
        r matches Err(e) ==> e == (if cfg.operands@.len() == 0 {
            VsvError::NoTargets
        } else {
            VsvError::ModifyFailed
        }),
{
    _do_enable_disable(cfg, outcomes)
}

/// Judge a disable run, by the same aggregation: all targets attempted,
/// overall success exactly when every one succeeded.
pub fn do_disable(cfg: &Config, outcomes: &Vec<TargetOutcome>) -> (r: Result<(), VsvError>)
    requires
        outcomes@.len() == cfg.operands@.len(),
    ensures
        r is Ok <==> cfg.operands@.len() > 0 && (forall|i: int|
            0 <= i < outcomes@.len() ==> target_ok(#[trigger] outcomes@[i])),
        r matches Err(e) ==> e == (if cfg.operands@.len() == 0 {
            VsvError::NoTargets
        } else {
            VsvError::ModifyFailed
        }),
{
    _do_enable_disable(cfg, outcomes)
}

/// Removing an already-absent sentinel counts as success: enabling an
/// enabled service is idempotent.
pub proof fn lemma_enable_idempotent()
    ensures
        target_ok(TargetOutcome::AlreadyAbsent),
{
}

/// The elements of `v` joined with single spaces.
pub open spec fn spec_join_spaces(v: Seq<String>) -> Seq<char>
    decreases v.len(),
{
    if v.len() == 0 {
        Seq::empty()
    } else if v.len() == 1 {
        v[0]@
    } else {
        spec_join_spaces(v.drop_last()) + " "@ + v.last()@
    }
}

/// Join strings with single spaces, for display of a forwarded command.
pub fn join_spaces(v: &Vec<String>) -> (r: String)
    ensures
        r@ == spec_join_spaces(v@),
{
    let mut r = String::new();
    let mut i: usize = 0;
    while i < v.len()
        invariant
            0 <= i <= v@.len(),
            r@ == spec_join_spaces(v@.take(i as int)),
        decreases v@.len() - i,
    {
        if i > 0 {
            r.append(" ");
        }
        r.append(v[i].as_str());
        proof {
            assert(v@.take(i + 1).drop_last() =~= v@.take(i as int));
            assert(v@.take(i + 1).last() == v@[i as int]);
            assert(r@ =~= spec_join_spaces(v@.take(i + 1)));
        }
        i = i + 1;
    }
    proof {
        assert(v@.take(v@.len() as int) =~= v@);
    }
    r
}

/// Check the shape of a forwarded sub-command: the sub-command word must
/// be followed by at least one argument.
pub fn external_check(cfg: &Config) -> (r: Result<(), VsvError>)
    requires
        cfg.operands@.len() > 0,
    ensures
        r is Ok <==> cfg.operands@.len() >= 2,
        r matches Err(e) ==> e matches VsvError::MissingArgument { prog, sub } && prog@
            == cfg.sv_prog@ && sub@ == cfg.operands@[0]@,
{
    if cfg.operands.len() < 2 {
        return Err(
            VsvError::MissingArgument { prog: cfg.sv_prog.clone(), sub: cfg.operands[0].clone() },
        );
    }
    Ok(())
}

/// Judge a forwarded sub-command's run: `Err` with the launch failure text
/// when it could not be run, success exactly on exit code zero, and a
/// missing exit code counts as failure.
pub fn external_result(cfg: &Config, outcome: &Result<Option<i32>, String>) -> (r: Result<
    (),
    VsvError,
>)
    ensures
        r is Ok <==> (outcome matches Ok(c) && c == Option::Some(0i32)),
        r matches Err(e) ==> match e {
            VsvError::ExternalLaunch { prog, detail } => outcome matches Err(d) && prog@
                == cfg.sv_prog@ && detail@ == d@,
            VsvError::ExternalFailed { prog } => prog@ == cfg.sv_prog@ && (outcome matches Ok(c)
                && c != Option::Some(0i32)),
            _ => false,
        },
{
    match outcome {
        Result::Err(d) => Err(
            VsvError::ExternalLaunch { prog: cfg.sv_prog.clone(), detail: d.clone() },
        ),
        Result::Ok(c) => {
            let code: i32 = match c {
                Option::Some(v) => *v,
                Option::None => -1,
            };
            if code == 0 && c.is_some() {
                Ok(())
            } else {
                Err(VsvError::ExternalFailed { prog: cfg.sv_prog.clone() })
            }
        },
    }
}

} // verus!
