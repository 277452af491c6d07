//! The decisions of the write scheduler.
//!
//! A write job waits for the single permit, begins a transaction, runs,
//! and is committed where it succeeded and aborted where it failed; then the
//! permit is released. Waiting, running the job and the engine's calls are
//! for the caller to carry out. What is decided here is what to do next:
//! [`step`] takes where a job stands and what has just happened, and gives
//! where the job stands now and what is to be done.

use vstd::prelude::*;
use crate::lmdb::Error;

verus! {

/// How a write job ended.
#[derive(Debug, Clone, Copy, PartialEq, Eq, Structural)]
pub enum Outcome {
    /// The job succeeded and its transaction was committed.
    Committed,
    /// The job failed and its transaction was aborted.
    JobFailed,
    /// The engine failed to begin or to commit the transaction.
    EngineFailed(Error),
}

/// Where a write job stands.
#[derive(Debug, Clone, Copy, PartialEq, Eq, Structural)]
pub enum Phase {
    /// Submitted, and waiting for the permit.
    Waiting,
    /// Holding the permit; a transaction is being begun.
    Holding,
    /// The job is running in the transaction `txn`.
    Running { txn: usize },
    /// The job succeeded; the commit of `txn` is under way.
    Committing { txn: usize },
    /// The job failed; the abort of `txn` is under way.
    Aborting { txn: usize },
    /// Over, and the permit released.
    Finished(Outcome),
}

/// What has just happened to a write job.
#[derive(Debug, Clone, Copy, PartialEq, Eq, Structural)]
pub enum Event {
    /// The permit was granted.
    Granted,
    /// The engine began the transaction `txn`.
    Begun { txn: usize },
    /// The engine failed to begin a transaction.
    BeginFailed(Error),
    /// The job ran to its end, with success or without.
    JobDone { success: bool },
    /// The engine committed the transaction.
    Committed,
    /// The engine failed to commit the transaction.
    CommitFailed(Error),
    /// The transaction was aborted.
    Aborted,
}

/// What is to be done next for a write job.
#[derive(Debug, Clone, Copy, PartialEq, Eq, Structural)]
pub enum Action {
    /// Begin a read-write transaction.
    Begin,
    /// Run the job in the transaction `txn`, away from the submitting task.
    Run { txn: usize },
    /// Commit the transaction `txn`.
    Commit { txn: usize },
    /// Abort the transaction `txn`.
    Abort { txn: usize },
    /// Release the permit, note for how long it was held, and report.
    Release(Outcome),
    /// Nothing: the event has no meaning where the job stands.
    Ignore,
}

/// The job holds the permit.
pub open spec fn holds_permit(phase: Phase) -> bool {
    phase is Holding || phase is Running || phase is Committing || phase is Aborting
}

/// The job's transaction is open.
pub open spec fn txn_open(phase: Phase) -> bool {
    phase is Running || phase is Committing || phase is Aborting
}

/// Where a job stands after `event`, and what is to be done.
pub open spec fn next(phase: Phase, event: Event) -> (Phase, Action) {
    match (phase, event) {
        (Phase::Waiting, Event::Granted) => (Phase::Holding, Action::Begin),
        (Phase::Holding, Event::Begun { txn }) => (Phase::Running { txn }, Action::Run { txn }),
        (Phase::Holding, Event::BeginFailed(e)) => (
            Phase::Finished(Outcome::EngineFailed(e)),
            Action::Release(Outcome::EngineFailed(e)),
        ),
        (Phase::Running { txn }, Event::JobDone { success }) => if success {
            (Phase::Committing { txn }, Action::Commit { txn })
        } else {
            (Phase::Aborting { txn }, Action::Abort { txn })
        },
        (Phase::Committing { txn }, Event::Committed) => (
            Phase::Finished(Outcome::Committed),
            Action::Release(Outcome::Committed),
        ),
        (Phase::Committing { txn }, Event::CommitFailed(e)) => (
            Phase::Finished(Outcome::EngineFailed(e)),
            Action::Release(Outcome::EngineFailed(e)),
        ),
        (Phase::Aborting { txn }, Event::Aborted) => (
            Phase::Finished(Outcome::JobFailed),
            Action::Release(Outcome::JobFailed),
        ),
        _ => (phase, Action::Ignore),
    }
}

/// Decides what to do for a write job that stands at `phase` when `event`
/// has happened.
pub fn step(phase: Phase, event: Event) -> (r: (Phase, Action))
    ensures
        r == next(phase, event),
{
    match phase {
        Phase::Waiting => match event {
            Event::Granted => (Phase::Holding, Action::Begin),
            _ => (phase, Action::Ignore),
        },
        Phase::Holding => match event {
            Event::Begun { txn } => (Phase::Running { txn }, Action::Run { txn }),
            Event::BeginFailed(e) => (
                Phase::Finished(Outcome::EngineFailed(e)),
                Action::Release(Outcome::EngineFailed(e)),
            ),
            _ => (phase, Action::Ignore),
        },
        Phase::Running { txn } => match event {
            Event::JobDone { success } => if success {
                (Phase::Committing { txn }, Action::Commit { txn })
            } else {
                (Phase::Aborting { txn }, Action::Abort { txn })
            },
            _ => (phase, Action::Ignore),
        },
        Phase::Committing { txn } => match event {
            Event::Committed => (
                Phase::Finished(Outcome::Committed),
                Action::Release(Outcome::Committed),
            ),
            Event::CommitFailed(e) => (
                Phase::Finished(Outcome::EngineFailed(e)),
                Action::Release(Outcome::EngineFailed(e)),
            ),
            _ => (phase, Action::Ignore),
        },
        Phase::Aborting { txn } => match event {
            Event::Aborted => (Phase::Finished(Outcome::JobFailed), Action::Release(Outcome::JobFailed)),
            _ => (phase, Action::Ignore),
        },
        Phase::Finished(_) => (phase, Action::Ignore),
    }
}

/// A commit is asked for only when a running job has succeeded, an abort
/// only when it has failed, and a job counts as committed only once the
/// engine has answered its commit with success.
pub proof fn lemma_commit_follows_success(phase: Phase, event: Event)
    ensures
        next(phase, event).1 is Commit ==> phase is Running && event == (Event::JobDone {
            success: true,
        }),
        next(phase, event).1 is Abort ==> phase is Running && event == (Event::JobDone {
            success: false,
        }),
        next(phase, event).0 == Phase::Finished(Outcome::Committed) && phase != next(
            phase,
            event,
        ).0 ==> phase is Committing && event == Event::Committed,
{
}

/// A transaction is open only under the permit. The permit is taken only by
/// being granted, a transaction is begun only by a job that holds the permit,
/// and the permit is given up only by the action that releases it, when no
/// transaction is open any more.
pub proof fn lemma_transaction_only_under_permit(phase: Phase, event: Event)
    ensures
        txn_open(phase) ==> holds_permit(phase),
        holds_permit(next(phase, event).0) && !holds_permit(phase) ==> event is Granted,
        txn_open(next(phase, event).0) ==> holds_permit(phase),
        holds_permit(phase) && !holds_permit(next(phase, event).0) <==> next(phase, event).1
            is Release,
        next(phase, event).1 is Release ==> !txn_open(next(phase, event).0),
{
}

/// Write jobs under one permit: where each job stands, in the order of
/// submission, which job holds the permit, and how many jobs were granted the
/// permit so far. The permit goes to the jobs in the order of submission.
pub struct Jobs {
    pub phases: Seq<Phase>,
    pub holder: Option<int>,
    pub granted: int,
}

impl Jobs {
    /// Nothing was submitted yet.
    pub open spec fn start() -> Jobs {
        Jobs { phases: Seq::empty(), holder: None, granted: 0 }
    }

    /// A job was submitted.
    pub open spec fn submit(self) -> Jobs {
        Jobs { phases: self.phases.push(Phase::Waiting), ..self }
    }

    /// The permit is free and a job is waiting for it.
    pub open spec fn can_grant(self) -> bool {
        self.holder is None && self.granted < self.phases.len()
    }

    /// The permit was granted to the job that has waited longest.
    pub open spec fn grant(self) -> Jobs {
        Jobs {
            phases: self.phases.update(
                self.granted,
                next(self.phases[self.granted], Event::Granted).0,
            ),
            holder: Some(self.granted),
            granted: self.granted + 1,
        }
    }

    /// Something but the granting of the permit happened to the job `j`.
    pub open spec fn deliver(self, j: int, event: Event) -> Jobs {
        let (phase, action) = next(self.phases[j], event);
        Jobs {
            phases: self.phases.update(j, phase),
            holder: if action is Release {
                None
            } else {
                self.holder
            },
            granted: self.granted,
        }
    }

    /// The permit is held by exactly the job that is recorded as its holder,
    /// the jobs before the count of grants are those that were granted it,
    /// and the others still wait.
    pub open spec fn inv(self) -> bool {
        &&& 0 <= self.granted <= self.phases.len()
        &&& forall|j: int|
            0 <= j < self.phases.len() ==> (holds_permit(#[trigger] self.phases[j]) <==> self.holder
                == Some(j))
        &&& forall|j: int|
            0 <= j < self.phases.len() ==> (#[trigger] self.phases[j] is Waiting <==> j
                >= self.granted)
        &&& self.holder matches Some(h) ==> 0 <= h < self.granted
    }
}

/// Every state that submissions, grants and the jobs' events lead to
/// from the start keeps the permit with one job.
pub proof fn lemma_jobs_keep_the_permit_single(jobs: Jobs, j: int, event: Event)
    requires
        jobs.inv(),
    ensures
        Jobs::start().inv(),
        jobs.submit().inv(),
        jobs.can_grant() ==> jobs.grant().inv(),
        0 <= j < jobs.phases.len() && !(event is Granted) ==> jobs.deliver(j, event).inv(),
{
    let s = jobs.submit();
    assert forall|k: int| 0 <= k < s.phases.len() implies (holds_permit(#[trigger] s.phases[k])
        <==> s.holder == Some(k)) && (s.phases[k] is Waiting <==> k >= s.granted) by {
        if k < jobs.phases.len() {
            assert(s.phases[k] == jobs.phases[k]);
        }
    }
    if jobs.can_grant() {
        let a = jobs.grant();
        assert forall|k: int| 0 <= k < a.phases.len() implies (holds_permit(#[trigger] a.phases[k])
            <==> a.holder == Some(k)) && (a.phases[k] is Waiting <==> k >= a.granted) by {
            if k != jobs.granted {
                assert(a.phases[k] == jobs.phases[k]);
            }
        }
    }
    if 0 <= j < jobs.phases.len() && !(event is Granted) {
        let d = jobs.deliver(j, event);
        lemma_transaction_only_under_permit(jobs.phases[j], event);
        assert forall|k: int| 0 <= k < d.phases.len() implies (holds_permit(#[trigger] d.phases[k])
            <==> d.holder == Some(k)) && (d.phases[k] is Waiting <==> k >= d.granted) by {
            if k != j {
                assert(d.phases[k] == jobs.phases[k]);
            }
        }
    }
}

/// Under one permit at most one job's transaction is open at any instant.
pub proof fn lemma_one_writer_at_a_time(jobs: Jobs, i: int, j: int)
    requires
        jobs.inv(),
        0 <= i < jobs.phases.len(),
        0 <= j < jobs.phases.len(),
        txn_open(jobs.phases[i]),
        txn_open(jobs.phases[j]),
    ensures
        i == j,
{
}

/// The permit goes to the jobs in the order of submission: the job that gets
/// it next was submitted after every job that got it before and before every
/// job that still waits.
pub proof fn lemma_grants_follow_submission(jobs: Jobs, k: int)
    requires
        jobs.inv(),
        jobs.can_grant(),
        0 <= k < jobs.phases.len(),
    ensures
        jobs.grant().holder == Some(jobs.granted),
        !(jobs.phases[k] is Waiting) ==> k < jobs.granted,
        jobs.phases[k] is Waiting && k != jobs.granted ==> k > jobs.granted,
{
}

} // verus!
