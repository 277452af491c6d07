use batadase::lmdb::Error;
use batadase::scheduler::{step, Action, Event, Outcome, Phase};

#[test]
fn a_successful_job_is_begun_run_committed_and_released() {
    let (p, a) = step(Phase::Waiting, Event::Granted);
    assert_eq!((p, a), (Phase::Holding, Action::Begin));
    let (p, a) = step(p, Event::Begun { txn: 7 });
    assert_eq!((p, a), (Phase::Running { txn: 7 }, Action::Run { txn: 7 }));
    let (p, a) = step(p, Event::JobDone { success: true });
    assert_eq!((p, a), (Phase::Committing { txn: 7 }, Action::Commit { txn: 7 }));
    let (p, a) = step(p, Event::Committed);
    assert_eq!((p, a), (Phase::Finished(Outcome::Committed), Action::Release(Outcome::Committed)));
    assert_eq!(step(p, Event::Committed), (p, Action::Ignore));
}

#[test]
fn a_failed_job_is_aborted_and_never_committed() {
    let p = Phase::Running { txn: 3 };
    let (p, a) = step(p, Event::JobDone { success: false });
    assert_eq!((p, a), (Phase::Aborting { txn: 3 }, Action::Abort { txn: 3 }));
    assert_eq!(step(p, Event::Committed), (p, Action::Ignore));
    let (p, a) = step(p, Event::Aborted);
    assert_eq!((p, a), (Phase::Finished(Outcome::JobFailed), Action::Release(Outcome::JobFailed)));
}

#[test]
fn engine_failures_release_the_permit() {
    let failed = Outcome::EngineFailed(Error::ReadersFull);
    assert_eq!(
        step(Phase::Holding, Event::BeginFailed(Error::ReadersFull)),
        (Phase::Finished(failed), Action::Release(failed))
    );
    let failed = Outcome::EngineFailed(Error::NoDiskSpace);
    assert_eq!(
        step(Phase::Committing { txn: 1 }, Event::CommitFailed(Error::NoDiskSpace)),
        (Phase::Finished(failed), Action::Release(failed))
    );
}

#[test]
fn events_out_of_turn_change_nothing() {
    let all = [
        Event::Granted,
        Event::Begun { txn: 1 },
        Event::BeginFailed(Error::Oom),
        Event::JobDone { success: true },
        Event::JobDone { success: false },
        Event::Committed,
        Event::CommitFailed(Error::Io),
        Event::Aborted,
    ];
    for e in all {
        if e != Event::Granted {
            assert_eq!(step(Phase::Waiting, e), (Phase::Waiting, Action::Ignore));
        }
        let over = Phase::Finished(Outcome::JobFailed);
        assert_eq!(step(over, e), (over, Action::Ignore));
        if !matches!(e, Event::JobDone { .. }) {
            let running = Phase::Running { txn: 2 };
            assert_eq!(step(running, e), (running, Action::Ignore));
        }
    }
}

#[test]
fn two_jobs_one_after_the_other() {
    // job 1 delays, writes and succeeds; job 2 writes and fails; one permit
    let mut first = Phase::Waiting;
    let mut second = Phase::Waiting;
    let mut log = Vec::new();
    for (job, success) in [(1usize, true), (2usize, false)] {
        let phase = if job == 1 { &mut first } else { &mut second };
        let mut event = Event::Granted;
        loop {
            let (then, action) = step(*phase, event);
            *phase = then;
            log.push((job, action));
            event = match action {
                Action::Begin => Event::Begun { txn: job },
                Action::Run { .. } => Event::JobDone { success },
                Action::Commit { .. } => Event::Committed,
                Action::Abort { .. } => Event::Aborted,
                Action::Release(_) => break,
                Action::Ignore => unreachable!(),
            };
        }
    }
    assert_eq!(first, Phase::Finished(Outcome::Committed));
    assert_eq!(second, Phase::Finished(Outcome::JobFailed));
    assert_eq!(
        log,
        vec![
            (1, Action::Begin),
            (1, Action::Run { txn: 1 }),
            (1, Action::Commit { txn: 1 }),
            (1, Action::Release(Outcome::Committed)),
            (2, Action::Begin),
            (2, Action::Run { txn: 2 }),
            (2, Action::Abort { txn: 2 }),
            (2, Action::Release(Outcome::JobFailed)),
        ]
    );
}
