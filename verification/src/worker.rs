use crate::storage::{
    is_job_update, JobUpdate, JobUpdateView, ProofJobStatus, Storage, StorageView,
};
use crate::types::{CoreError, DealInfo, DealInfoView, SignedMessage, SignedMessageView};
use vstd::prelude::*;
use vstd::string::StringExecFns;

verus! {

/// Drives proof jobs through their life cycle. The worker decides; the
/// call of the proving backend between [`ProofWorker::start_job`] and
/// [`ProofWorker::finish_job`] is made by the caller, with the storage released.
#[derive(Clone, Copy, Debug)]
pub struct ProofWorker {}

/// What is to be done for a job after it was started.
#[derive(Debug)]
pub enum WorkerStep {
    /// Ask the backend for a proof that these two commitments together
    /// reach the required amount.
    Prove { deal_id: String, lb1: SignedMessage, lb2: SignedMessage, required_amount: u64 },
    /// The job has failed for want of commitments; the backend is not asked.
    Failed,
    /// There is no pending job of that identifier; nothing was changed.
    Skipped,
}

/// Mathematical value of a [`WorkerStep`].
pub enum WorkerStepView {
    Prove { deal_id: Seq<char>, lb1: SignedMessageView, lb2: SignedMessageView, required_amount: u64 },
    Failed,
    Skipped,
}

impl View for WorkerStep {
    type V = WorkerStepView;

    open spec fn view(&self) -> WorkerStepView {
        match self {
            WorkerStep::Prove { deal_id, lb1, lb2, required_amount } => WorkerStepView::Prove {
                deal_id: deal_id@,
                lb1: lb1@,
                lb2: lb2@,
                required_amount: *required_amount,
            },
            WorkerStep::Failed => WorkerStepView::Failed,
            WorkerStep::Skipped => WorkerStepView::Skipped,
        }
    }
}

/// The error recorded on a job whose deal has fewer than two commitments.
pub open spec fn not_enough_commitments() -> Seq<char> {
    "Not enough commitments"@
}

/// Starting a job. A pending job goes in progress at time `started`. Where
/// its deal then has fewer than two commitments it fails at time `failed`;
/// otherwise the first two commitments, by arrival, are to be proved. A
/// job that is unknown or not pending is left alone.
pub open spec fn start_outcome<R>(
    storage: StorageView<R>,
    job_id: Seq<char>,
    started: i128,
    failed: i128,
) -> (StorageView<R>, WorkerStepView) {
    if !storage.proof_jobs.contains_key(job_id) || !(storage.proof_jobs[job_id].status
        is Pending) {
        (storage, WorkerStepView::Skipped)
    } else {
        let job = storage.proof_jobs[job_id];
        let running = storage.with_job_update(job_id, JobUpdateView::Start, started);
        let commitments = storage.commitments_for(job.deal_id);
        if commitments.len() < 2 {
            (
                running.with_job_update(
                    job_id,
                    JobUpdateView::Fail(not_enough_commitments()),
                    failed,
                ),
                WorkerStepView::Failed,
            )
        } else {
            (
                running,
                WorkerStepView::Prove {
                    deal_id: job.deal_id,
                    lb1: commitments[0],
                    lb2: commitments[1],
                    required_amount: job.required_amount,
                },
            )
        }
    }
}

/// Finishing a job with what the backend answered, at time `now`. On a
/// proof, the proof object is stored under the job's deal and the job
/// completes with what the proof discloses. On an error the job fails
/// with the error's text and no proof is stored. A job that is unknown or
/// not in progress is left alone, and nothing is stored.
pub open spec fn finish_outcome<R>(
    storage: StorageView<R>,
    job_id: Seq<char>,
    answer: Result<(R, DealInfoView, u64), Seq<char>>,
    now: i128,
) -> StorageView<R> {
    if !storage.proof_jobs.contains_key(job_id) || !(storage.proof_jobs[job_id].status
        is InProgress) {
        storage
    } else {
        match answer {
            Ok((receipt, deal_info, verified_amount)) => storage.with_proof(
                storage.proof_jobs[job_id].deal_id,
                receipt,
            ).with_job_update(job_id, JobUpdateView::Complete(deal_info, verified_amount), now),
            Err(text) => storage.with_job_update(job_id, JobUpdateView::Fail(text), now),
        }
    }
}

/// The backend's answer as the storage records it.
pub open spec fn answer_view<R>(answer: Result<(R, DealInfo, u64), CoreError>) -> Result<
    (R, DealInfoView, u64),
    Seq<char>,
> {
    match answer {
        Ok((receipt, deal_info, verified_amount)) => Ok((receipt, deal_info@, verified_amount)),
        Err(error) => Err(error.text()),
    }
}

impl ProofWorker {
    /// A worker. It holds nothing: all state is in the storage it is handed.
    pub fn new() -> (worker: Self) {
        ProofWorker {}
    }

    /// Starts the job `job_id` and says what is to be done for it.
    pub fn start_job<R>(&self, job_id: &str, storage: &mut Storage<R>) -> (step: WorkerStep)
        ensures
            exists|started: i128, failed: i128|
                start_outcome(old(storage)@, job_id@, started, failed) == (final(storage)@, step@),
            final(storage)@.well_formed(),
    {
        let (deal_id, required_amount) = match storage.get_proof_job(job_id) {
            Some(job) => {
                match job.status {
                    ProofJobStatus::Pending => (job.deal_id.clone(), job.required_amount),
                    _ => {
                        assert(start_outcome(old(storage)@, job_id@, 0, 0) == (
                            storage@,
                            WorkerStepView::Skipped,
                        ));
                        return WorkerStep::Skipped;
                    },
                }
            },
            None => {
                assert(start_outcome(old(storage)@, job_id@, 0, 0) == (
                    storage@,
                    WorkerStepView::Skipped,
                ));
                return WorkerStep::Skipped;
            },
        };
        let started_job = storage.update_proof_job(job_id, JobUpdate::Start);
        let ghost running = storage@;
        let ghost started: i128 = choose|now: i128|
            is_job_update(
                old(storage)@,
                job_id@,
                JobUpdateView::Start,
                now,
                running,
                started_job,
            );
        let pair = match storage.get_commitments(deal_id.as_str()) {
            Some(list) => {
                if list.len() >= 2 {
                    Some((list[0].clone(), list[1].clone()))
                } else {
                    None
                }
            },
            None => None,
        };
        match pair {
            Some((lb1, lb2)) => {
                let step = WorkerStep::Prove { deal_id, lb1, lb2, required_amount };
                assert(start_outcome(old(storage)@, job_id@, started, 0) == (storage@, step@));
                step
            },
            None => {
                let failed_job = storage.update_proof_job(
                    job_id,
                    JobUpdate::Fail(String::from_str("Not enough commitments")),
                );
                let ghost failed: i128 = choose|now: i128|
                    is_job_update(
                        running,
                        job_id@,
                        JobUpdateView::Fail(not_enough_commitments()),
                        now,
                        storage@,
                        failed_job,
                    );
                assert(start_outcome(old(storage)@, job_id@, started, failed) == (
                    storage@,
                    WorkerStepView::Failed,
                ));
                WorkerStep::Failed
            },
        }
    }

    /// Records on the job `job_id` what the backend answered.
    pub fn finish_job<R>(
        &self,
        job_id: &str,
        answer: Result<(R, DealInfo, u64), CoreError>,
        storage: &mut Storage<R>,
    )
        ensures
            exists|now: i128|
                finish_outcome(old(storage)@, job_id@, answer_view(answer), now) == final(
                    storage
                )@,
            final(storage)@.well_formed(),
    {
        let deal_id = match storage.get_proof_job(job_id) {
            Some(job) => {
                match job.status {
                    ProofJobStatus::InProgress => job.deal_id.clone(),
                    _ => {
                        assert(finish_outcome(old(storage)@, job_id@, answer_view(answer), 0)
                            == storage@);
                        return ;
                    },
                }
            },
            None => {
                assert(finish_outcome(old(storage)@, job_id@, answer_view(answer), 0) == storage@);
                return ;
            },
        };
        match answer {
            Ok((receipt, deal_info, verified_amount)) => {
                storage.add_proof(deal_id, receipt);
                let ghost stored = storage@;
                let ghost update = JobUpdateView::Complete(deal_info@, verified_amount);
                let done = storage.update_proof_job(
                    job_id,
                    JobUpdate::Complete(deal_info, verified_amount),
                );
                let ghost now: i128 = choose|now: i128|
                    is_job_update(stored, job_id@, update, now, storage@, done);
                assert(finish_outcome(old(storage)@, job_id@, answer_view(answer), now)
                    == storage@);
            },
            Err(error) => {
                let ghost update = JobUpdateView::Fail(error.text());
                let done = storage.update_proof_job(job_id, JobUpdate::Fail(error.to_string()));
                let ghost now: i128 = choose|now: i128|
                    is_job_update(old(storage)@, job_id@, update, now, storage@, done);
                assert(finish_outcome(old(storage)@, job_id@, answer_view(answer), now)
                    == storage@);
            },
        }
    }
}

/// A pending job whose deal has fewer than two commitments when it is
/// started ends as failed, with the error that says so, and is not handed
/// on for proving; the stored proofs and commitments stay as they were.
pub proof fn lemma_job_without_two_commitments_fails<R>(
    storage: StorageView<R>,
    job_id: Seq<char>,
    started: i128,
    failed: i128,
)
    requires
        storage.proof_jobs.contains_key(job_id),
        storage.proof_jobs[job_id].status is Pending,
        storage.commitments_for(storage.proof_jobs[job_id].deal_id).len() < 2,
    ensures
        ({
            let (after, step) = start_outcome(storage, job_id, started, failed);
            &&& step is Failed
            &&& after.proof_jobs.contains_key(job_id)
            &&& after.proof_jobs[job_id].status is Failed
            &&& after.proof_jobs[job_id].error == Some(not_enough_commitments())
            &&& after.proof_jobs[job_id].proof == storage.proof_jobs[job_id].proof
            &&& after.proofs == storage.proofs
            &&& after.commitments == storage.commitments
        }),
{
}

/// A job is handed on for proving only with the first two commitments of
/// its deal, in arrival order, and with the amount the job asks for.
pub proof fn lemma_proving_takes_first_two<R>(
    storage: StorageView<R>,
    job_id: Seq<char>,
    started: i128,
    failed: i128,
)
    ensures
        start_outcome(storage, job_id, started, failed).1 matches WorkerStepView::Prove {
            deal_id,
            lb1,
            lb2,
            required_amount,
        } ==> {
            &&& storage.proof_jobs.contains_key(job_id)
            &&& deal_id == storage.proof_jobs[job_id].deal_id
            &&& required_amount == storage.proof_jobs[job_id].required_amount
            &&& storage.commitments_for(deal_id).len() >= 2
            &&& lb1 == storage.commitments_for(deal_id)[0]
            &&& lb2 == storage.commitments_for(deal_id)[1]
        },
{
}

} // verus!
