//! The job lifecycle engine. It is a pure state machine: each call of
//! [`step`] consumes one event — a filesystem notification, or the outcome of
//! the action the engine asked for last — and returns the next phase together
//! with the next action. The surrounding process performs the action
//! (a rename, the downloader run, a file write or removal) and feeds the
//! outcome back as the next event, so every decision the system makes is
//! taken, and verified, here.

use vstd::prelude::*;

use crate::diagnostics::{diagnostics_content, diagnostics_content_spec};
use crate::paths::{
    copy_bytes, diagnostics_path_of, diagnostics_path_spec, failed_path_of, failed_path_spec,
    file_name_of, is_trigger_name, is_trigger_path, parent_of, parent_spec, running_path_of,
    running_path_spec,
};

verus! {

/// Where the engine stands in one job's lifecycle. Outside `Idle`, the phase
/// carries the trigger path of the one job in flight.
#[derive(Debug, PartialEq, Eq)]
pub enum Phase {
    /// No job in flight; waiting for the next notification.
    Idle,
    /// The claim rename (trigger -> running) has been requested.
    Claiming { path: Vec<u8> },
    /// The downloader has been started against the running file.
    Executing { path: Vec<u8> },
    /// The downloader failed; the rename (running -> failed) has been
    /// requested. The exit code and captured standard error are kept for the
    /// diagnostics record.
    FailRenaming { path: Vec<u8>, code: i32, stderr: Vec<u8> },
    /// The failed marker is in place; the diagnostics write has been
    /// requested.
    WritingDiagnostics { path: Vec<u8> },
    /// The downloader succeeded; removal of the running file has been
    /// requested.
    Cleaning { path: Vec<u8> },
}

/// What the engine hears: a notification, or the outcome of the action it
/// asked for last.
#[derive(Debug, PartialEq, Eq)]
pub enum Event {
    /// The watch source reports that `path` changed.
    Notified { path: Vec<u8> },
    /// Outcome of a requested rename.
    Renamed { ok: bool },
    /// Outcome of the downloader run. `launched` is false when the subprocess
    /// could not be started at all; otherwise `code` is its exit code and
    /// `stderr` its captured standard error.
    Executed { launched: bool, code: i32, stderr: Vec<u8> },
    /// Outcome of the requested diagnostics write.
    Wrote { ok: bool },
    /// Outcome of the requested removal.
    Removed { ok: bool },
}

/// What the engine asks the surrounding process to do next.
#[derive(Debug, PartialEq, Eq)]
pub enum Action {
    /// Nothing: the current notification is fully handled.
    Wait,
    /// Atomically rename `from` to `to`.
    Rename { from: Vec<u8>, to: Vec<u8> },
    /// Run the downloader with output directory `out_dir` against the batch
    /// file `batch`, and wait for it to exit.
    Run { out_dir: Vec<u8>, batch: Vec<u8> },
    /// Create the file at `path` with the given `content`.
    Write { path: Vec<u8>, content: Vec<u8> },
    /// Remove the file at `path`.
    Remove { path: Vec<u8> },
}

/// Mathematical image of [`Phase`], over byte sequences.
pub enum PhaseV {
    Idle,
    Claiming { path: Seq<u8> },
    Executing { path: Seq<u8> },
    FailRenaming { path: Seq<u8>, code: i32, stderr: Seq<u8> },
    WritingDiagnostics { path: Seq<u8> },
    Cleaning { path: Seq<u8> },
}

/// Mathematical image of [`Event`], over byte sequences.
pub enum EventV {
    Notified { path: Seq<u8> },
    Renamed { ok: bool },
    Executed { launched: bool, code: i32, stderr: Seq<u8> },
    Wrote { ok: bool },
    Removed { ok: bool },
}

/// Mathematical image of [`Action`], over byte sequences.
pub enum ActionV {
    Wait,
    Rename { from: Seq<u8>, to: Seq<u8> },
    Run { out_dir: Seq<u8>, batch: Seq<u8> },
    Write { path: Seq<u8>, content: Seq<u8> },
    Remove { path: Seq<u8> },
}

impl View for Phase {
    type V = PhaseV;

    open spec fn view(&self) -> PhaseV {
        match self {
            Phase::Idle => PhaseV::Idle,
            Phase::Claiming { path } => PhaseV::Claiming { path: path@ },
            Phase::Executing { path } => PhaseV::Executing { path: path@ },
            Phase::FailRenaming { path, code, stderr } => PhaseV::FailRenaming {
                path: path@,
                code: *code,
                stderr: stderr@,
            },
            Phase::WritingDiagnostics { path } => PhaseV::WritingDiagnostics { path: path@ },
            Phase::Cleaning { path } => PhaseV::Cleaning { path: path@ },
        }
    }
}

impl View for Event {
    type V = EventV;

    open spec fn view(&self) -> EventV {
        match self {
            Event::Notified { path } => EventV::Notified { path: path@ },
            Event::Renamed { ok } => EventV::Renamed { ok: *ok },
            Event::Executed { launched, code, stderr } => EventV::Executed {
                launched: *launched,
                code: *code,
                stderr: stderr@,
            },
            Event::Wrote { ok } => EventV::Wrote { ok: *ok },
            Event::Removed { ok } => EventV::Removed { ok: *ok },
        }
    }
}

impl View for Action {
    type V = ActionV;

    open spec fn view(&self) -> ActionV {
        match self {
            Action::Wait => ActionV::Wait,
            Action::Rename { from, to } => ActionV::Rename { from: from@, to: to@ },
            Action::Run { out_dir, batch } => ActionV::Run { out_dir: out_dir@, batch: batch@ },
            Action::Write { path, content } => ActionV::Write {
                path: path@,
                content: content@,
            },
            Action::Remove { path } => ActionV::Remove { path: path@ },
        }
    }
}

/// The transition relation of the engine, as a function: from the current
/// phase and the event just heard, the next phase and the action to perform.
///
/// - A notification whose file name ends in `".ytdl"` starts a claim: the
///   trigger is renamed to its `".running"` sibling. Any other notification
///   is ignored.
/// - A successful claim starts the downloader against the running file, with
///   the trigger's directory as output directory. A failed claim abandons the
///   notification: no record is fabricated.
/// - A downloader that could not be launched leaves the running file in
///   place for the operator. Exit code zero asks for removal of the running
///   file; any other exit code asks for the rename to the `".failed"`
///   sibling.
/// - Once the failed marker is in place, the diagnostics record is written.
///   If the rename to failed itself failed, the notification is abandoned.
/// - The outcomes of the diagnostics write and of the removal end the job
///   either way.
/// - An event that does not answer the current phase changes nothing.
pub open spec fn step_spec(ph: PhaseV, ev: EventV) -> (PhaseV, ActionV) {
    match (ph, ev) {
        (PhaseV::Idle, EventV::Notified { path }) => {
            if is_trigger_path(path) {
                (
                    PhaseV::Claiming { path },
                    ActionV::Rename { from: path, to: running_path_spec(path) },
                )
            } else {
                (PhaseV::Idle, ActionV::Wait)
            }
        },
        (PhaseV::Claiming { path }, EventV::Renamed { ok }) => {
            if ok {
                (
                    PhaseV::Executing { path },
                    ActionV::Run { out_dir: parent_spec(path), batch: running_path_spec(path) },
                )
            } else {
                (PhaseV::Idle, ActionV::Wait)
            }
        },
        (PhaseV::Executing { path }, EventV::Executed { launched, code, stderr }) => {
            if !launched {
                (PhaseV::Idle, ActionV::Wait)
            } else if code == 0 {
                (
                    PhaseV::Cleaning { path },
                    ActionV::Remove { path: running_path_spec(path) },
                )
            } else {
                (
                    PhaseV::FailRenaming { path, code, stderr },
                    ActionV::Rename {
                        from: running_path_spec(path),
                        to: failed_path_spec(path),
                    },
                )
            }
        },
        (PhaseV::FailRenaming { path, code, stderr }, EventV::Renamed { ok }) => {
            if ok {
                (
                    PhaseV::WritingDiagnostics { path },
                    ActionV::Write {
                        path: diagnostics_path_spec(path),
                        content: diagnostics_content_spec(code as int, stderr),
                    },
                )
            } else {
                (PhaseV::Idle, ActionV::Wait)
            }
        },
        (PhaseV::WritingDiagnostics { .. }, EventV::Wrote { .. }) => (PhaseV::Idle, ActionV::Wait),
        (PhaseV::Cleaning { .. }, EventV::Removed { .. }) => (PhaseV::Idle, ActionV::Wait),
        (other, _) => (other, ActionV::Wait),
    }
}

/// One step of the engine: consume `event` in `phase`, return the next phase
/// and the action the surrounding process is to perform before reporting
/// back. The result is exactly [`step_spec`] of the inputs.
pub fn step(phase: Phase, event: Event) -> (r: (Phase, Action))
    ensures
        r.0@ == step_spec(phase@, event@).0,
        r.1@ == step_spec(phase@, event@).1,
{
    match phase {
        Phase::Idle => match event {
            Event::Notified { path } => {
                let name = file_name_of(&path);
                if is_trigger_name(&name) {
                    let from = copy_bytes(&path);
                    let to = running_path_of(&path);
                    (Phase::Claiming { path }, Action::Rename { from, to })
                } else {
                    (Phase::Idle, Action::Wait)
                }
            },
            _ => (Phase::Idle, Action::Wait),
        },
        Phase::Claiming { path } => match event {
            Event::Renamed { ok } => {
                if ok {
                    let out_dir = parent_of(&path);
                    let batch = running_path_of(&path);
                    (Phase::Executing { path }, Action::Run { out_dir, batch })
                } else {
                    (Phase::Idle, Action::Wait)
                }
            },
            _ => (Phase::Claiming { path }, Action::Wait),
        },
        Phase::Executing { path } => match event {
            Event::Executed { launched, code, stderr } => {
                if !launched {
                    (Phase::Idle, Action::Wait)
                } else if code == 0 {
                    let run = running_path_of(&path);
                    (Phase::Cleaning { path }, Action::Remove { path: run })
                } else {
                    let from = running_path_of(&path);
                    let to = failed_path_of(&path);
                    (Phase::FailRenaming { path, code, stderr }, Action::Rename { from, to })
                }
            },
            _ => (Phase::Executing { path }, Action::Wait),
        },
        Phase::FailRenaming { path, code, stderr } => match event {
            Event::Renamed { ok } => {
                if ok {
                    let target = diagnostics_path_of(&path);
                    let content = diagnostics_content(code, &stderr);
                    (
                        Phase::WritingDiagnostics { path },
                        Action::Write { path: target, content },
                    )
                } else {
                    (Phase::Idle, Action::Wait)
                }
            },
            _ => (Phase::FailRenaming { path, code, stderr }, Action::Wait),
        },
        Phase::WritingDiagnostics { path } => match event {
            Event::Wrote { .. } => (Phase::Idle, Action::Wait),
            _ => (Phase::WritingDiagnostics { path }, Action::Wait),
        },
        Phase::Cleaning { path } => match event {
            Event::Removed { .. } => (Phase::Idle, Action::Wait),
            _ => (Phase::Cleaning { path }, Action::Wait),
        },
    }
}

} // verus!
