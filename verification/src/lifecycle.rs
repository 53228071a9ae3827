//! The on-disk picture of one job, and the laws the engine's transitions
//! obey against it. A job with trigger path `p` owns four possible files:
//! the trigger `p` itself, `p + ".running"`, `p + ".failed"`, and
//! `p + ".diagnostics"`. The first three are the job's state markers; the
//! model records which of the four exist, and the laws say how the actions
//! the engine emits move that picture.

use vstd::prelude::*;

use crate::diagnostics::diagnostics_content_spec;
use crate::engine::{step_spec, ActionV, EventV, PhaseV};
use crate::paths::{
    diagnostics_path_spec, diagnostics_suffix, failed_path_spec, failed_suffix, is_trigger_path,
    lemma_append_cancels, lemma_job_paths_distinct, lemma_name_suffix_is_path_suffix, parent_spec,
    running_path_spec, running_suffix, ytdl_suffix,
};

verus! {

/// Which of one job's four files exist on disk.
pub struct JobFiles {
    /// The trigger file (the path itself) exists.
    pub pending: bool,
    /// The `".running"` sibling exists.
    pub running: bool,
    /// The `".failed"` sibling exists.
    pub failed: bool,
    /// The `".diagnostics"` sibling exists.
    pub diagnostics: bool,
}

/// How many state markers of the job exist. The diagnostics file is a
/// detail record, not a state marker.
pub open spec fn marker_count(f: JobFiles) -> int {
    (if f.pending {
        1int
    } else {
        0int
    }) + (if f.running {
        1int
    } else {
        0int
    }) + (if f.failed {
        1int
    } else {
        0int
    })
}

/// The core invariant: at no observation point does a job show more than one
/// state marker.
pub open spec fn at_most_one_marker(f: JobFiles) -> bool {
    marker_count(f) <= 1
}

/// The picture after the file at `q` disappears, for the job with trigger
/// path `p`.
pub open spec fn file_removed(f: JobFiles, p: Seq<u8>, q: Seq<u8>) -> JobFiles {
    JobFiles {
        pending: f.pending && q != p,
        running: f.running && q != running_path_spec(p),
        failed: f.failed && q != failed_path_spec(p),
        diagnostics: f.diagnostics && q != diagnostics_path_spec(p),
    }
}

/// The picture after a file appears at `q`, for the job with trigger path
/// `p`.
pub open spec fn file_added(f: JobFiles, p: Seq<u8>, q: Seq<u8>) -> JobFiles {
    JobFiles {
        pending: f.pending || q == p,
        running: f.running || q == running_path_spec(p),
        failed: f.failed || q == failed_path_spec(p),
        diagnostics: f.diagnostics || q == diagnostics_path_spec(p),
    }
}

/// The effect of an action on the job with trigger path `p`, given whether
/// the filesystem operation succeeded. A rename is one atomic move: source
/// gone and target present in the same step. Running the downloader touches
/// none of the job's files.
pub open spec fn apply_action(f: JobFiles, p: Seq<u8>, a: ActionV, ok: bool) -> JobFiles {
    match a {
        ActionV::Wait => f,
        ActionV::Run { .. } => f,
        ActionV::Rename { from, to } => if ok {
            file_added(file_removed(f, p, from), p, to)
        } else {
            f
        },
        ActionV::Write { path, .. } => if ok {
            file_added(f, p, path)
        } else {
            f
        },
        ActionV::Remove { path } => if ok {
            file_removed(f, p, path)
        } else {
            f
        },
    }
}

/// What the filesystem guarantees of a rename: it can only succeed when its
/// source exists. Stated for the job's own three marker paths.
pub open spec fn rename_outcome_sound(f: JobFiles, p: Seq<u8>, a: ActionV, ok: bool) -> bool {
    match a {
        ActionV::Rename { from, .. } => (ok && from == p ==> f.pending) && (ok && from
            == running_path_spec(p) ==> f.running) && (ok && from == failed_path_spec(p)
            ==> f.failed),
        _ => true,
    }
}

/// The trigger path of the job the engine is working on, if any.
pub open spec fn phase_job(ph: PhaseV) -> Option<Seq<u8>> {
    match ph {
        PhaseV::Idle => Option::None,
        PhaseV::Claiming { path } => Option::Some(path),
        PhaseV::Executing { path } => Option::Some(path),
        PhaseV::FailRenaming { path, .. } => Option::Some(path),
        PhaseV::WritingDiagnostics { path } => Option::Some(path),
        PhaseV::Cleaning { path } => Option::Some(path),
    }
}

/// The job a step concerns: the one in flight, or the one the notification
/// names when the engine is idle.
pub open spec fn job_of(ph: PhaseV, ev: EventV) -> Seq<u8> {
    match phase_job(ph) {
        Option::Some(p) => p,
        Option::None => match ev {
            EventV::Notified { path } => path,
            _ => Seq::empty(),
        },
    }
}

/// `q` is one of the four paths belonging to the job with trigger path `p`.
pub open spec fn is_job_path(q: Seq<u8>, p: Seq<u8>) -> bool {
    q == p || q == running_path_spec(p) || q == failed_path_spec(p) || q == diagnostics_path_spec(
        p,
    )
}

/// The action names no path outside the job with trigger path `p`.
pub open spec fn touches_only(a: ActionV, p: Seq<u8>) -> bool {
    match a {
        ActionV::Wait => true,
        ActionV::Rename { from, to } => is_job_path(from, p) && is_job_path(to, p),
        ActionV::Run { out_dir, batch } => out_dir == parent_spec(p) && batch
            == running_path_spec(p),
        ActionV::Write { path, .. } => is_job_path(path, p),
        ActionV::Remove { path } => is_job_path(path, p),
    }
}

/// Law: every transition of the engine preserves the core invariant. If a
/// job shows at most one state marker, then after any event, the action the
/// engine emits — applied atomically, with any outcome the filesystem can
/// give it — leaves the job showing at most one state marker.
pub proof fn lemma_step_preserves_marker_invariant(ph: PhaseV, ev: EventV, f: JobFiles, ok: bool)
    requires
        at_most_one_marker(f),
        rename_outcome_sound(f, job_of(ph, ev), step_spec(ph, ev).1, ok),
    ensures
        at_most_one_marker(apply_action(f, job_of(ph, ev), step_spec(ph, ev).1, ok)),
{
    let p = job_of(ph, ev);
    lemma_job_paths_distinct(p);
}

/// Law: processing never strays from the job it is about. While a job is in
/// flight — or as one starts from a notification — every action the engine
/// emits names only that job's own four paths, and the engine either stays
/// on that job or returns to idle. Two triggers handled one after the other
/// therefore never touch one another's files.
pub proof fn lemma_serial_processing(ph: PhaseV, ev: EventV, p: Seq<u8>)
    requires
        phase_job(ph) == Option::Some(p) || (ph == PhaseV::Idle && ev == (EventV::Notified {
            path: p,
        })),
    ensures
        touches_only(step_spec(ph, ev).1, p),
        phase_job(step_spec(ph, ev).0) == Option::Some(p) || phase_job(step_spec(ph, ev).0)
            == Option::<Seq<u8>>::None,
{
}

/// Every phase is about a checked trigger: outside `Idle`, the path the
/// engine carries was accepted by the trigger filter.
pub open spec fn phase_wf(ph: PhaseV) -> bool {
    match phase_job(ph) {
        Option::Some(p) => is_trigger_path(p),
        Option::None => true,
    }
}

/// The engine phase and the files of the job with trigger path `b` after the
/// whole event sequence `evs` is consumed, the action answered by event `k`
/// having had outcome `oks[k]`.
pub open spec fn run_trace(
    ph: PhaseV,
    f: JobFiles,
    b: Seq<u8>,
    evs: Seq<EventV>,
    oks: Seq<bool>,
) -> (PhaseV, JobFiles)
    decreases evs.len(),
{
    if evs.len() == 0 {
        (ph, f)
    } else {
        let s = step_spec(ph, evs[0]);
        let f2 = apply_action(f, b, s.1, oks[0]);
        run_trace(s.0, f2, b, evs.drop_first(), oks.drop_first())
    }
}

/// Along the trace, every rename outcome respects the filesystem: a rename
/// only succeeds when its source exists.
pub open spec fn outcomes_sound(
    ph: PhaseV,
    f: JobFiles,
    b: Seq<u8>,
    evs: Seq<EventV>,
    oks: Seq<bool>,
) -> bool
    decreases evs.len(),
{
    evs.len() == oks.len() && (evs.len() == 0 || {
        let s = step_spec(ph, evs[0]);
        rename_outcome_sound(f, b, s.1, oks[0]) && outcomes_sound(
            s.0,
            apply_action(f, b, s.1, oks[0]),
            b,
            evs.drop_first(),
            oks.drop_first(),
        )
    })
}

/// The last byte of each of a job's four paths names its kind: `'l'` for the
/// trigger itself, `'g'` for running, `'d'` for failed, `'s'` for
/// diagnostics.
proof fn lemma_path_kind_bytes(b: Seq<u8>)
    requires
        is_trigger_path(b),
    ensures
        b.len() >= 5,
        b[b.len() - 1] == 108,
        running_path_spec(b)[running_path_spec(b).len() - 1] == 103,
        failed_path_spec(b)[failed_path_spec(b).len() - 1] == 100,
        diagnostics_path_spec(b)[diagnostics_path_spec(b).len() - 1] == 115,
{
    lemma_name_suffix_is_path_suffix(b, ytdl_suffix());
    assert(b.subrange(b.len() - 5, b.len() as int)[4] == b[b.len() - 1]);
    assert(ytdl_suffix()[4] == 108);
    assert(running_path_spec(b)[b.len() as int + 7] == running_suffix()[7]);
    assert(running_suffix()[7] == 103);
    assert(failed_path_spec(b)[b.len() as int + 6] == failed_suffix()[6]);
    assert(failed_suffix()[6] == 100);
    assert(diagnostics_path_spec(b)[b.len() as int + 11] == diagnostics_suffix()[11]);
    assert(diagnostics_suffix()[11] == 115);
}

/// Law: jobs do not interfere. An action confined to one trigger's own four
/// paths changes nothing in the on-disk picture of a different trigger —
/// so two jobs handled one after the other each keep exactly the files
/// their own run left.
pub proof fn lemma_foreign_action_changes_nothing(
    f: JobFiles,
    b: Seq<u8>,
    other: Seq<u8>,
    a: ActionV,
    ok: bool,
)
    requires
        is_trigger_path(b),
        is_trigger_path(other),
        b != other,
        touches_only(a, other),
    ensures
        apply_action(f, b, a, ok) == f,
{
    lemma_path_kind_bytes(b);
    lemma_path_kind_bytes(other);
    if running_path_spec(other) == running_path_spec(b) {
        lemma_append_cancels(other, b, running_suffix());
    }
    if failed_path_spec(other) == failed_path_spec(b) {
        lemma_append_cancels(other, b, failed_suffix());
    }
    if diagnostics_path_spec(other) == diagnostics_path_spec(b) {
        lemma_append_cancels(other, b, diagnostics_suffix());
    }
}

/// Law: one step, seen from any job. Whatever job a transition is about, it
/// keeps every job's marker invariant — its own by the per-step law, any
/// other because actions never cross job boundaries — and the engine never
/// leaves `Idle` except for a checked trigger.
pub proof fn lemma_step_preserves_for_any_job(
    ph: PhaseV,
    ev: EventV,
    f: JobFiles,
    b: Seq<u8>,
    ok: bool,
)
    requires
        phase_wf(ph),
        is_trigger_path(b),
        at_most_one_marker(f),
        rename_outcome_sound(f, b, step_spec(ph, ev).1, ok),
    ensures
        at_most_one_marker(apply_action(f, b, step_spec(ph, ev).1, ok)),
        phase_wf(step_spec(ph, ev).0),
{
    let a = step_spec(ph, ev).1;
    match phase_job(ph) {
        Option::Some(j) => {
            lemma_serial_processing(ph, ev, j);
            if j == b {
                lemma_step_preserves_marker_invariant(ph, ev, f, ok);
            } else {
                lemma_foreign_action_changes_nothing(f, b, j, a, ok);
            }
        },
        Option::None => {
            match ev {
                EventV::Notified { path } => {
                    if is_trigger_path(path) {
                        lemma_serial_processing(ph, ev, path);
                        if path == b {
                            lemma_step_preserves_marker_invariant(ph, ev, f, ok);
                        } else {
                            lemma_foreign_action_changes_nothing(f, b, path, a, ok);
                        }
                    }
                },
                _ => {},
            }
        },
    }
}

/// Law: at every observation point, at most one marker. Starting from any
/// settled picture of a job, an entire run of the engine — jobs starting,
/// succeeding and failing, notifications for other paths in between, with
/// every rename outcome the filesystem can give — never lets that job show
/// more than one of its trigger, running and failed files.
pub proof fn lemma_trace_preserves_marker_invariant(
    ph: PhaseV,
    f: JobFiles,
    b: Seq<u8>,
    evs: Seq<EventV>,
    oks: Seq<bool>,
)
    requires
        phase_wf(ph),
        is_trigger_path(b),
        at_most_one_marker(f),
        outcomes_sound(ph, f, b, evs, oks),
    ensures
        at_most_one_marker(run_trace(ph, f, b, evs, oks).1),
        phase_wf(run_trace(ph, f, b, evs, oks).0),
    decreases evs.len(),
{
    if evs.len() > 0 {
        let s = step_spec(ph, evs[0]);
        let f2 = apply_action(f, b, s.1, oks[0]);
        lemma_step_preserves_for_any_job(ph, evs[0], f, b, oks[0]);
        lemma_trace_preserves_marker_invariant(s.0, f2, b, evs.drop_first(), oks.drop_first());
    }
}

/// Law: a path whose file name does not end in `".ytdl"` triggers nothing —
/// the engine stays idle and asks for no filesystem change.
pub proof fn lemma_non_trigger_ignored(p: Seq<u8>)
    requires
        !is_trigger_path(p),
    ensures
        step_spec(PhaseV::Idle, EventV::Notified { path: p }) == (PhaseV::Idle, ActionV::Wait),
{
}

/// Law: when the claim rename fails, the job is abandoned untouched — the
/// engine returns to idle, asks for nothing further, and the job's files are
/// exactly as they were.
pub proof fn lemma_claim_failure_abandons(p: Seq<u8>, f: JobFiles)
    ensures
        step_spec(PhaseV::Claiming { path: p }, EventV::Renamed { ok: false }) == (
            PhaseV::Idle,
            ActionV::Wait,
        ),
        apply_action(
            f,
            p,
            step_spec(PhaseV::Claiming { path: p }, EventV::Renamed { ok: false }).1,
            true,
        ) == f,
{
}

/// Law: a successful run leaves no trace. Starting from a pending trigger
/// alone, the claim, a downloader exit of zero, and the removal — each
/// succeeding — end with the engine idle and none of the job's four files on
/// disk.
pub proof fn lemma_success_leaves_no_trace(p: Seq<u8>, stderr: Seq<u8>)
    requires
        is_trigger_path(p),
    ensures
        ({
            let f0 = (JobFiles { pending: true, running: false, failed: false, diagnostics: false });
            let s1 = step_spec(PhaseV::Idle, EventV::Notified { path: p });
            let f1 = apply_action(f0, p, s1.1, true);
            let s2 = step_spec(s1.0, EventV::Renamed { ok: true });
            let f2 = apply_action(f1, p, s2.1, true);
            let s3 = step_spec(s2.0, EventV::Executed { launched: true, code: 0, stderr });
            let f3 = apply_action(f2, p, s3.1, true);
            let s4 = step_spec(s3.0, EventV::Removed { ok: true });
            let f4 = apply_action(f3, p, s4.1, true);
            s4.0 == PhaseV::Idle && f4 == (JobFiles {
                pending: false,
                running: false,
                failed: false,
                diagnostics: false,
            })
        }),
{
    lemma_job_paths_distinct(p);
}

/// Law: a failing run leaves exactly the failed marker and the diagnostics
/// record. Starting from a pending trigger alone, the claim, a non-zero
/// downloader exit, the rename to failed and the diagnostics write — each
/// succeeding — end with the engine idle, only `".failed"` and
/// `".diagnostics"` present, and the record's content naming that exit code
/// and that captured standard error.
pub proof fn lemma_failure_leaves_failed_and_diagnostics(p: Seq<u8>, code: i32, stderr: Seq<u8>)
    requires
        is_trigger_path(p),
        code != 0,
    ensures
        ({
            let f0 = (JobFiles { pending: true, running: false, failed: false, diagnostics: false });
            let s1 = step_spec(PhaseV::Idle, EventV::Notified { path: p });
            let f1 = apply_action(f0, p, s1.1, true);
            let s2 = step_spec(s1.0, EventV::Renamed { ok: true });
            let f2 = apply_action(f1, p, s2.1, true);
            let s3 = step_spec(s2.0, EventV::Executed { launched: true, code, stderr });
            let f3 = apply_action(f2, p, s3.1, true);
            let s4 = step_spec(s3.0, EventV::Renamed { ok: true });
            let f4 = apply_action(f3, p, s4.1, true);
            let s5 = step_spec(s4.0, EventV::Wrote { ok: true });
            let f5 = apply_action(f4, p, s5.1, true);
            s5.0 == PhaseV::Idle && f5 == (JobFiles {
                pending: false,
                running: false,
                failed: true,
                diagnostics: true,
            }) && s4.1 == (ActionV::Write {
                path: diagnostics_path_spec(p),
                content: diagnostics_content_spec(code as int, stderr),
            })
        }),
{
    lemma_job_paths_distinct(p);
}

} // verus!
