use crate::types::{DealInfo, DealInfoView, SignedMessage, SignedMessageView};
use vstd::hash_map::StringHashMap;
use vstd::prelude::*;

verus! {

/// Where a proof job stands.
#[derive(Debug, Clone, Copy, PartialEq, Eq, Structural)]
pub enum ProofJobStatus {
    Pending,
    InProgress,
    Completed,
    Failed,
}

impl ProofJobStatus {
    /// A job that has completed or failed moves no more.
    pub open spec fn is_terminal(self) -> bool {
        self is Completed || self is Failed
    }

    /// How far along a job is: pending, then in progress, then ended.
    pub open spec fn rank(self) -> nat {
        match self {
            ProofJobStatus::Pending => 0,
            ProofJobStatus::InProgress => 1,
            _ => 2,
        }
    }
}

/// A tracked request to produce a proof for a deal.
#[derive(Debug)]
pub struct ProofGenerationJob {
    pub id: String,
    pub status: ProofJobStatus,
    pub deal_id: String,
    pub required_amount: u64,
    /// Nanoseconds since the Unix epoch, UTC.
    pub created_at: i128,
    /// Nanoseconds since the Unix epoch, UTC.
    pub updated_at: i128,
    /// What the proof discloses, once the job has completed.
    pub proof: Option<(DealInfo, u64)>,
    /// Why the job failed, once it has.
    pub error: Option<String>,
}

/// Mathematical value of a [`ProofGenerationJob`].
pub struct ProofGenerationJobView {
    pub id: Seq<char>,
    pub status: ProofJobStatus,
    pub deal_id: Seq<char>,
    pub required_amount: u64,
    pub created_at: i128,
    pub updated_at: i128,
    pub proof: Option<(DealInfoView, u64)>,
    pub error: Option<Seq<char>>,
}

impl ProofGenerationJobView {
    /// A result is held exactly by completed jobs, an error exactly by failed ones.
    pub open spec fn consistent(self) -> bool {
        &&& self.proof is Some <==> self.status is Completed
        &&& self.error is Some <==> self.status is Failed
    }
}

impl View for ProofGenerationJob {
    type V = ProofGenerationJobView;

    open spec fn view(&self) -> ProofGenerationJobView {
        ProofGenerationJobView {
            id: self.id@,
            status: self.status,
            deal_id: self.deal_id@,
            required_amount: self.required_amount,
            created_at: self.created_at,
            updated_at: self.updated_at,
            proof: match self.proof {
                Some(disclosed) => Some((disclosed.0@, disclosed.1)),
                None => None,
            },
            error: match self.error {
                Some(text) => Some(text@),
                None => None,
            },
        }
    }
}

impl Clone for ProofGenerationJob {
    fn clone(&self) -> (copy: Self)
        ensures
            copy@ == self@,
    {
        ProofGenerationJob {
            id: self.id.clone(),
            status: self.status,
            deal_id: self.deal_id.clone(),
            required_amount: self.required_amount,
            created_at: self.created_at,
            updated_at: self.updated_at,
            proof: match &self.proof {
                Some(disclosed) => Some((disclosed.0.clone(), disclosed.1)),
                None => None,
            },
            error: match &self.error {
                Some(text) => Some(text.clone()),
                None => None,
            },
        }
    }
}

/// A step in the life of a job.
#[derive(Debug)]
pub enum JobUpdate {
    /// Work on the job begins.
    Start,
    /// A proof was produced; it discloses these terms and this amount.
    Complete(DealInfo, u64),
    /// No proof was produced, for this reason.
    Fail(String),
}

/// Mathematical value of a [`JobUpdate`].
pub enum JobUpdateView {
    Start,
    Complete(DealInfoView, u64),
    Fail(Seq<char>),
}

impl View for JobUpdate {
    type V = JobUpdateView;

    open spec fn view(&self) -> JobUpdateView {
        match self {
            JobUpdate::Start => JobUpdateView::Start,
            JobUpdate::Complete(deal_info, verified_amount) => JobUpdateView::Complete(
                deal_info@,
                *verified_amount,
            ),
            JobUpdate::Fail(error) => JobUpdateView::Fail(error@),
        }
    }
}

/// The steps a job can take: a pending job starts, a job in progress
/// completes or fails, and an ended job takes no step.
pub open spec fn can_apply(status: ProofJobStatus, update: JobUpdateView) -> bool {
    match update {
        JobUpdateView::Start => status is Pending,
        _ => status is InProgress,
    }
}

/// The job after a step at time `now`. A step that the job cannot take
/// leaves it as it is; one that it takes also refreshes `updated_at`.
pub open spec fn updated_job(
    job: ProofGenerationJobView,
    update: JobUpdateView,
    now: i128,
) -> ProofGenerationJobView {
    if !can_apply(job.status, update) {
        job
    } else {
        match update {
            JobUpdateView::Start => ProofGenerationJobView {
                status: ProofJobStatus::InProgress,
                updated_at: now,
                ..job
            },
            JobUpdateView::Complete(deal_info, verified_amount) => ProofGenerationJobView {
                status: ProofJobStatus::Completed,
                updated_at: now,
                proof: Some((deal_info, verified_amount)),
                ..job
            },
            JobUpdateView::Fail(error) => ProofGenerationJobView {
                status: ProofJobStatus::Failed,
                updated_at: now,
                error: Some(error),
                ..job
            },
        }
    }
}

/// The job that `create` makes at time `now` under the identifier `id`.
pub open spec fn pending_job(
    id: Seq<char>,
    deal_id: Seq<char>,
    required_amount: u64,
    now: i128,
) -> ProofGenerationJobView {
    ProofGenerationJobView {
        id,
        status: ProofJobStatus::Pending,
        deal_id,
        required_amount,
        created_at: now,
        updated_at: now,
        proof: None,
        error: None,
    }
}

/// Calls `time::OffsetDateTime::now_utc` and reads the instant with
/// `unix_timestamp_nanos`. Nothing is claimed of the value.
#[verifier::external_body]
fn now_utc() -> i128 {
    time::OffsetDateTime::now_utc().unix_timestamp_nanos()
}

/// Calls `uuid::Uuid::new_v4` and writes the identifier out with
/// `to_string`. Claimed without proof: the text has the 36 characters of
/// the hyphenated form.
#[verifier::external_body]
fn new_job_id() -> (id: String)
    ensures
        id@.len() == 36,
{
    uuid::Uuid::new_v4().to_string()
}

impl ProofGenerationJob {
    /// A pending job for `deal_id` under a fresh random identifier, created now.
    pub fn new(deal_id: String, required_amount: u64) -> (job: Self)
        ensures
            job@ == pending_job(job@.id, deal_id@, required_amount, job@.created_at),
            job@.id.len() == 36,
    {
        let now = now_utc();
        let id = new_job_id();
        ProofGenerationJob::pending(id, deal_id, required_amount, now)
    }

    /// A pending job for `deal_id` under the identifier `id`, created at `now`.
    pub fn pending(id: String, deal_id: String, required_amount: u64, now: i128) -> (job: Self)
        ensures
            job@ == pending_job(id@, deal_id@, required_amount, now),
    {
        ProofGenerationJob {
            id,
            status: ProofJobStatus::Pending,
            deal_id,
            required_amount,
            created_at: now,
            updated_at: now,
            proof: None,
            error: None,
        }
    }

    /// Takes a step at time `now` where the job can take it, and says whether it did.
    pub fn apply(&mut self, update: JobUpdate, now: i128) -> (taken: bool)
        ensures
            taken == can_apply(old(self)@.status, update@),
            final(self)@ == updated_job(old(self)@, update@, now),
    {
        match update {
            JobUpdate::Start => {
                match self.status {
                    ProofJobStatus::Pending => {},
                    _ => {
                        return false;
                    },
                }
                self.status = ProofJobStatus::InProgress;
                self.updated_at = now;
                true
            },
            JobUpdate::Complete(deal_info, verified_amount) => {
                match self.status {
                    ProofJobStatus::InProgress => {},
                    _ => {
                        return false;
                    },
                }
                self.status = ProofJobStatus::Completed;
                self.updated_at = now;
                self.proof = Some((deal_info, verified_amount));
                true
            },
            JobUpdate::Fail(error) => {
                match self.status {
                    ProofJobStatus::InProgress => {},
                    _ => {
                        return false;
                    },
                }
                self.status = ProofJobStatus::Failed;
                self.updated_at = now;
                self.error = Some(error);
                true
            },
        }
    }
}

/// A job never moves backwards, and an ended job never moves.
pub proof fn lemma_jobs_only_advance(job: ProofGenerationJobView, update: JobUpdateView, now: i128)
    ensures
        updated_job(job, update, now).status.rank() >= job.status.rank(),
        job.status.is_terminal() ==> updated_job(job, update, now) == job,
        updated_job(job, update, now) != job ==> updated_job(job, update, now).status.rank()
            == job.status.rank() + 1 && updated_job(job, update, now).updated_at == now,
{
}

/// A job that holds a result exactly when completed and an error exactly
/// when failed still does so after any step; a new job does so too.
pub proof fn lemma_jobs_stay_consistent(
    job: ProofGenerationJobView,
    update: JobUpdateView,
    now: i128,
)
    requires
        job.consistent(),
    ensures
        updated_job(job, update, now).consistent(),
        pending_job(job.id, job.deal_id, job.required_amount, now).consistent(),
{
}

/// The commitments received for each deal, the proof stored for each
/// deal, and the table of proof jobs. `R` is the proof object of the
/// proving backend, which is kept and handed back untouched.
#[verifier::reject_recursive_types(R)]
pub struct Storage<R> {
    commitments: StringHashMap<Vec<SignedMessage>>,
    proofs: StringHashMap<R>,
    proof_jobs: StringHashMap<ProofGenerationJob>,
}

/// Mathematical value of a [`Storage`].
#[verifier::reject_recursive_types(R)]
pub struct StorageView<R> {
    /// For each deal with commitments, those commitments in arrival order.
    pub commitments: Map<Seq<char>, Seq<SignedMessageView>>,
    /// For each deal with a proof, the proof object.
    pub proofs: Map<Seq<char>, R>,
    /// The jobs by identifier.
    pub proof_jobs: Map<Seq<char>, ProofGenerationJobView>,
}

impl<R> StorageView<R> {
    /// Every deal on record has a commitment, and every job stands under
    /// its own identifier, with a result exactly when completed and an
    /// error exactly when failed.
    pub open spec fn well_formed(self) -> bool {
        &&& forall|deal_id: Seq<char>|
            self.commitments.contains_key(deal_id) ==> (#[trigger] self.commitments[deal_id]).len()
                > 0
        &&& forall|job_id: Seq<char>| #[trigger]
            self.proof_jobs.contains_key(job_id) ==> self.proof_jobs[job_id].id == job_id
                && self.proof_jobs[job_id].consistent()
    }

    /// The commitments received for a deal, in arrival order; none for an
    /// unknown deal.
    pub open spec fn commitments_for(self, deal_id: Seq<char>) -> Seq<SignedMessageView> {
        if self.commitments.contains_key(deal_id) {
            self.commitments[deal_id]
        } else {
            Seq::empty()
        }
    }

    /// The storage after a commitment has arrived for a deal.
    pub open spec fn with_commitment(self, deal_id: Seq<char>, commitment: SignedMessageView) -> Self {
        StorageView {
            commitments: self.commitments.insert(
                deal_id,
                self.commitments_for(deal_id).push(commitment),
            ),
            ..self
        }
    }

    /// The storage after a proof has been put under a deal.
    pub open spec fn with_proof(self, deal_id: Seq<char>, receipt: R) -> Self {
        StorageView { proofs: self.proofs.insert(deal_id, receipt), ..self }
    }

    /// The storage after a job has been entered under its identifier.
    pub open spec fn with_job(self, job: ProofGenerationJobView) -> Self {
        StorageView { proof_jobs: self.proof_jobs.insert(job.id, job), ..self }
    }

    /// The storage after the job `job_id` was asked to take a step at
    /// time `now`. Without such a job nothing changes.
    pub open spec fn with_job_update(self, job_id: Seq<char>, update: JobUpdateView, now: i128) -> Self {
        if self.proof_jobs.contains_key(job_id) {
            StorageView {
                proof_jobs: self.proof_jobs.insert(
                    job_id,
                    updated_job(self.proof_jobs[job_id], update, now),
                ),
                ..self
            }
        } else {
            self
        }
    }
}

fn clone_commitments(list: &Vec<SignedMessage>) -> (copy: Vec<SignedMessage>)
    ensures
        copy.deep_view() == list.deep_view(),
{
    let mut copy: Vec<SignedMessage> = Vec::with_capacity(list.len());
    let mut i: usize = 0;
    while i < list.len()
        invariant
            i <= list.len(),
            copy.len() == i,
            forall|j: int| 0 <= j < i ==> copy@[j]@ == list@[j]@,
        decreases list.len() - i,
    {
        copy.push(list[i].clone());
        i += 1;
    }
    copy
}

impl<R> View for Storage<R> {
    type V = StorageView<R>;

    closed spec fn view(&self) -> StorageView<R> {
        StorageView {
            commitments: self.commitments@.map_values(|list: Vec<SignedMessage>| list.deep_view()),
            proofs: self.proofs@,
            proof_jobs: self.proof_jobs@.map_values(|job: ProofGenerationJob| job@),
        }
    }
}

impl<R> Storage<R> {
    #[verifier::type_invariant]
    spec fn type_inv(self) -> bool {
        &&& forall|deal_id: Seq<char>| #[trigger]
            self.commitments@.contains_key(deal_id) ==> self.commitments@[deal_id].len() > 0
        &&& forall|job_id: Seq<char>| #[trigger]
            self.proof_jobs@.contains_key(job_id) ==> self.proof_jobs@[job_id]@.id == job_id
                && self.proof_jobs@[job_id]@.consistent()
    }

    /// An empty storage.
    pub fn new() -> (storage: Self)
        ensures
            storage@.commitments == Map::<Seq<char>, Seq<SignedMessageView>>::empty(),
            storage@.proofs == Map::<Seq<char>, R>::empty(),
            storage@.proof_jobs == Map::<Seq<char>, ProofGenerationJobView>::empty(),
            storage@.well_formed(),
    {
        Storage {
            commitments: StringHashMap::new(),
            proofs: StringHashMap::new(),
            proof_jobs: StringHashMap::new(),
        }
    }

    /// Appends a commitment to those of a deal, which is entered if unknown.
    pub fn add_commitment(&mut self, deal_id: String, commitment: SignedMessage)
        ensures
            final(self)@ == old(self)@.with_commitment(deal_id@, commitment@),
            final(self)@.well_formed(),
    {
        proof {
            use_type_invariant(&*self);
        }
        let mut list = match self.commitments.get(deal_id.as_str()) {
            Some(known) => clone_commitments(known),
            None => Vec::new(),
        };
        list.push(commitment);
        assert(list.deep_view() =~= old(self)@.commitments_for(deal_id@).push(commitment@));
        // The table is taken out, extended and put back, so that the
        // storage is whole whenever a call is made on one of its parts.
        let mut table: StringHashMap<Vec<SignedMessage>> = StringHashMap::new();
        core::mem::swap(&mut self.commitments, &mut table);
        table.insert(deal_id, list);
        self.commitments = table;
        assert(self@.commitments =~= old(self)@.with_commitment(deal_id@, commitment@).commitments);
    }

    /// The commitments received for a deal, in arrival order, if there are any.
    pub fn get_commitments(&self, deal_id: &str) -> (found: Option<&Vec<SignedMessage>>)
        ensures
            self@.well_formed(),
            match found {
                Some(list) => self@.commitments.contains_key(deal_id@) && list.deep_view()
                    == self@.commitments[deal_id@],
                None => !self@.commitments.contains_key(deal_id@),
            },
    {
        proof {
            use_type_invariant(self);
        }
        self.commitments.get(deal_id)
    }

    /// Puts a proof under a deal, in place of any earlier one.
    pub fn add_proof(&mut self, deal_id: String, receipt: R)
        ensures
            final(self)@ == old(self)@.with_proof(deal_id@, receipt),
            final(self)@.well_formed(),
    {
        proof {
            use_type_invariant(&*self);
        }
        let mut table: StringHashMap<R> = StringHashMap::new();
        core::mem::swap(&mut self.proofs, &mut table);
        table.insert(deal_id, receipt);
        self.proofs = table;
    }

    /// The proof stored under a deal, if there is one.
    pub fn get_proof(&self, deal_id: &str) -> (found: Option<&R>)
        ensures
            match found {
                Some(receipt) => self@.proofs.contains_key(deal_id@) && *receipt
                    == self@.proofs[deal_id@],
                None => !self@.proofs.contains_key(deal_id@),
            },
    {
        self.proofs.get(deal_id)
    }

    /// Enters a new pending job for a deal and returns a copy of it.
    pub fn create_proof_job(&mut self, deal_id: String, required_amount: u64) -> (job:
        ProofGenerationJob)
        ensures
            job@ == pending_job(job@.id, deal_id@, required_amount, job@.created_at),
            job@.id.len() == 36,
            final(self)@ == old(self)@.with_job(job@),
            final(self)@.well_formed(),
    {
        let job = ProofGenerationJob::new(deal_id, required_amount);
        self.insert_job(job.clone());
        job
    }

    /// Enters a job under its identifier, in place of any job that stood there.
    fn insert_job(&mut self, job: ProofGenerationJob)
        requires
            job@.consistent(),
        ensures
            final(self)@ == old(self)@.with_job(job@),
            final(self)@.well_formed(),
    {
        proof {
            use_type_invariant(&*self);
        }
        let key = job.id.clone();
        let mut table: StringHashMap<ProofGenerationJob> = StringHashMap::new();
        core::mem::swap(&mut self.proof_jobs, &mut table);
        table.insert(key, job);
        self.proof_jobs = table;
        assert(self@.proof_jobs =~= old(self)@.with_job(job@).proof_jobs);
    }

    /// The job with the given identifier, if there is one.
    pub fn get_proof_job(&self, job_id: &str) -> (found: Option<&ProofGenerationJob>)
        ensures
            self@.well_formed(),
            match found {
                Some(job) => self@.proof_jobs.contains_key(job_id@) && job@
                    == self@.proof_jobs[job_id@],
                None => !self@.proof_jobs.contains_key(job_id@),
            },
    {
        proof {
            use_type_invariant(self);
        }
        self.proof_jobs.get(job_id)
    }

    /// A copy of the job with the given identifier and, where that job has
    /// completed, the proof stored under its deal.
    pub fn get_proof_job_with_receipt(&self, job_id: &str) -> (found: Option<
        (ProofGenerationJob, Option<&R>),
    >)
        ensures
            match found {
                Some((job, receipt)) => {
                    &&& self@.proof_jobs.contains_key(job_id@)
                    &&& job@ == self@.proof_jobs[job_id@]
                    &&& match receipt {
                        Some(r) => job@.status is Completed && self@.proofs.contains_key(
                            job@.deal_id,
                        ) && *r == self@.proofs[job@.deal_id],
                        None => !(job@.status is Completed && self@.proofs.contains_key(
                            job@.deal_id,
                        )),
                    }
                },
                None => !self@.proof_jobs.contains_key(job_id@),
            },
    {
        match self.proof_jobs.get(job_id) {
            Some(job) => {
                let receipt = match job.status {
                    ProofJobStatus::Completed => self.get_proof(job.deal_id.as_str()),
                    _ => None,
                };
                Some((job.clone(), receipt))
            },
            None => None,
        }
    }

    /// Asks a job to take a step at time `now`. Returns the job as it
    /// stands afterwards, or nothing where there is no such job.
    pub fn apply_job_update(&mut self, job_id: &str, update: JobUpdate, now: i128) -> (after:
        Option<ProofGenerationJob>)
        ensures
            is_job_update(old(self)@, job_id@, update@, now, final(self)@, after),
            final(self)@.well_formed(),
    {
        proof {
            use_type_invariant(&*self);
        }
        let mut job = match self.proof_jobs.get(job_id) {
            Some(known) => known.clone(),
            None => {
                return None;
            },
        };
        let ghost before = job@;
        job.apply(update, now);
        proof {
            lemma_jobs_stay_consistent(before, update@, now);
        }
        let after = job.clone();
        self.insert_job(job);
        Some(after)
    }

    /// Asks a job to take a step now. Returns the job as it stands
    /// afterwards, or nothing where there is no such job.
    pub fn update_proof_job(&mut self, job_id: &str, update: JobUpdate) -> (after: Option<
        ProofGenerationJob,
    >)
        ensures
            exists|now: i128| is_job_update(old(self)@, job_id@, update@, now, final(self)@, after),
            final(self)@.well_formed(),
    {
        let now = now_utc();
        self.apply_job_update(job_id, update, now)
    }
}

/// That `after` and `returned` are what asking the job `job_id` of
/// `before` to take a step at time `now` leaves and hands back: the job as
/// it stands afterwards, or nothing where there is no such job.
pub open spec fn is_job_update<R>(
    before: StorageView<R>,
    job_id: Seq<char>,
    update: JobUpdateView,
    now: i128,
    after: StorageView<R>,
    returned: Option<ProofGenerationJob>,
) -> bool {
    &&& after == before.with_job_update(job_id, update, now)
    &&& match returned {
        Some(job) => before.proof_jobs.contains_key(job_id) && job@ == updated_job(
            before.proof_jobs[job_id],
            update,
            now,
        ),
        None => !before.proof_jobs.contains_key(job_id),
    }
}

} // verus!
