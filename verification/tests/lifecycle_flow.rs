use ytdl_watch::engine::{step, Action, Event, Phase};

fn bv(s: &str) -> Vec<u8> {
    s.as_bytes().to_vec()
}

#[test]
fn successful_run_cleans_up_the_job() {
    let (phase, action) = step(Phase::Idle, Event::Notified { path: bv("/w/movie.ytdl") });
    assert_eq!(
        action,
        Action::Rename { from: bv("/w/movie.ytdl"), to: bv("/w/movie.ytdl.running") }
    );

    let (phase, action) = step(phase, Event::Renamed { ok: true });
    assert_eq!(
        action,
        Action::Run { out_dir: bv("/w"), batch: bv("/w/movie.ytdl.running") }
    );

    let (phase, action) = step(
        phase,
        Event::Executed { launched: true, code: 0, stderr: Vec::new() },
    );
    assert_eq!(action, Action::Remove { path: bv("/w/movie.ytdl.running") });

    let (phase, action) = step(phase, Event::Removed { ok: true });
    assert_eq!(phase, Phase::Idle);
    assert_eq!(action, Action::Wait);
}

#[test]
fn failing_run_leaves_failed_marker_and_diagnostics() {
    let (phase, action) = step(Phase::Idle, Event::Notified { path: bv("/w/movie.ytdl") });
    assert_eq!(
        action,
        Action::Rename { from: bv("/w/movie.ytdl"), to: bv("/w/movie.ytdl.running") }
    );

    let (phase, _) = step(phase, Event::Renamed { ok: true });
    let (phase, action) = step(
        phase,
        Event::Executed { launched: true, code: 1, stderr: bv("boom") },
    );
    assert_eq!(
        action,
        Action::Rename { from: bv("/w/movie.ytdl.running"), to: bv("/w/movie.ytdl.failed") }
    );

    let (phase, action) = step(phase, Event::Renamed { ok: true });
    assert_eq!(
        action,
        Action::Write {
            path: bv("/w/movie.ytdl.diagnostics"),
            content: bv("Exited with error code: 1\n\nboom\n"),
        }
    );

    let (phase, action) = step(phase, Event::Wrote { ok: true });
    assert_eq!(phase, Phase::Idle);
    assert_eq!(action, Action::Wait);
}

#[test]
fn non_trigger_paths_are_ignored() {
    let (phase, action) = step(Phase::Idle, Event::Notified { path: bv("/w/movie.mp4") });
    assert_eq!(phase, Phase::Idle);
    assert_eq!(action, Action::Wait);

    let (phase, action) = step(Phase::Idle, Event::Notified { path: bv("/w/movie.ytdl.running") });
    assert_eq!(phase, Phase::Idle);
    assert_eq!(action, Action::Wait);
}

#[test]
fn claim_failure_abandons_the_notification() {
    let (phase, action) = step(Phase::Idle, Event::Notified { path: bv("/w/movie.ytdl") });
    assert!(matches!(action, Action::Rename { .. }));

    // The trigger vanished between the notification and the rename: the
    // rename fails, and the engine asks for nothing more.
    let (phase, action) = step(phase, Event::Renamed { ok: false });
    assert_eq!(phase, Phase::Idle);
    assert_eq!(action, Action::Wait);
}

#[test]
fn launch_failure_leaves_the_running_file() {
    let (phase, _) = step(Phase::Idle, Event::Notified { path: bv("/w/movie.ytdl") });
    let (phase, _) = step(phase, Event::Renamed { ok: true });
    let (phase, action) = step(
        phase,
        Event::Executed { launched: false, code: 0, stderr: Vec::new() },
    );
    assert_eq!(phase, Phase::Idle);
    assert_eq!(action, Action::Wait);
}

#[test]
fn failed_resolution_rename_stops_without_diagnostics() {
    let (phase, _) = step(Phase::Idle, Event::Notified { path: bv("/w/movie.ytdl") });
    let (phase, _) = step(phase, Event::Renamed { ok: true });
    let (phase, _) = step(
        phase,
        Event::Executed { launched: true, code: 1, stderr: bv("boom") },
    );
    let (phase, action) = step(phase, Event::Renamed { ok: false });
    assert_eq!(phase, Phase::Idle);
    assert_eq!(action, Action::Wait);
}

fn drive_to_completion(trigger: &str, code: i32, stderr: &str) -> Vec<Action> {
    let mut actions: Vec<Action> = Vec::new();
    let mut phase = Phase::Idle;
    let mut event = Event::Notified { path: bv(trigger) };
    loop {
        let (next, action) = step(phase, event);
        phase = next;
        event = match &action {
            Action::Wait => {
                actions.push(action);
                break;
            }
            Action::Rename { .. } => Event::Renamed { ok: true },
            Action::Run { .. } => Event::Executed {
                launched: true,
                code,
                stderr: bv(stderr),
            },
            Action::Write { .. } => Event::Wrote { ok: true },
            Action::Remove { .. } => Event::Removed { ok: true },
        };
        actions.push(action);
    }
    assert_eq!(phase, Phase::Idle);
    actions
}

#[test]
fn two_triggers_in_succession_never_interleave() {
    // First job fails, second succeeds; each is driven to completion before
    // the next notification is looked at, and every action of a job names
    // only that job's own files.
    let first = drive_to_completion("/w/a.ytdl", 1, "boom");
    let second = drive_to_completion("/w/b.ytdl", 0, "");

    let touches = |actions: &[Action], job: &str| {
        let own = [
            bv(job),
            bv(&format!("{}.running", job)),
            bv(&format!("{}.failed", job)),
            bv(&format!("{}.diagnostics", job)),
        ];
        for action in actions {
            let named: Vec<&Vec<u8>> = match action {
                Action::Wait => Vec::new(),
                Action::Rename { from, to } => vec![from, to],
                Action::Run { batch, .. } => vec![batch],
                Action::Write { path, .. } => vec![path],
                Action::Remove { path } => vec![path],
            };
            for p in named {
                assert!(own.contains(p), "action named a foreign path");
            }
        }
    };
    touches(&first, "/w/a.ytdl");
    touches(&second, "/w/b.ytdl");

    // The first job was fully resolved to failed + diagnostics, the second
    // to cleanup.
    assert!(first
        .iter()
        .any(|a| matches!(a, Action::Write { path, .. } if *path == bv("/w/a.ytdl.diagnostics"))));
    assert!(second
        .iter()
        .any(|a| matches!(a, Action::Remove { path } if *path == bv("/w/b.ytdl.running"))));
}

#[test]
fn mismatched_events_change_nothing() {
    let (phase, _) = step(Phase::Idle, Event::Notified { path: bv("/w/movie.ytdl") });
    let before = Phase::Claiming { path: bv("/w/movie.ytdl") };
    assert_eq!(phase, before);

    // A stray notification mid-job is not acted upon.
    let (phase, action) = step(phase, Event::Notified { path: bv("/w/other.ytdl") });
    assert_eq!(phase, before);
    assert_eq!(action, Action::Wait);
}
