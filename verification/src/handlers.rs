use crate::engine::{create_signed_message, signed_commitment};
use crate::keys::{derived_secret, get_deterministic_signing_key, has_derived_key};
use crate::storage::{
    pending_job, ProofGenerationJobView, ProofJobStatus, Storage, StorageView,
};
use crate::text::{decimal_string, decimal_text};
use crate::types::{CoreError, DealInfo, DealInfoView, SignedMessage, SignedMessageView, SEED};
use vstd::prelude::*;
use vstd::string::StringExecFns;

verus! {

/// A party asks to pledge an amount toward a deal.
#[derive(Debug)]
pub struct CommitmentRequest {
    pub bank_index: u64,
    pub amount: u64,
    pub deal_id: String,
    pub buyer: String,
}

/// A proof is asked for a deal, at once.
#[derive(Debug)]
pub struct ProofRequest {
    pub required_amount: u64,
    pub deal_id: String,
}

/// The proof stored for a deal is to be checked.
#[derive(Debug)]
pub struct VerifyRequest {
    pub deal_id: String,
}

#[derive(Debug)]
pub struct CommitmentResponse {
    pub signed_message: SignedMessage,
}

#[derive(Debug)]
pub struct ProofResponse {
    pub success: bool,
    pub verified_amount: u64,
    pub deal_info: DealInfo,
}

#[derive(Debug)]
pub struct VerifyResponse {
    pub verified: bool,
    pub deal_info: Option<DealInfo>,
}

/// A proof is asked for a deal, as a job.
#[derive(Debug)]
pub struct CreateProofJobRequest {
    pub deal_id: String,
    pub required_amount: u64,
}

#[derive(Debug)]
pub struct CreateProofJobResponse {
    pub job_id: String,
}

/// A snapshot of a job, for whoever polls it.
#[derive(Debug)]
pub struct GetProofJobResponse {
    pub status: ProofJobStatus,
    pub created_at: i128,
    pub updated_at: i128,
    pub proof: Option<ProofResponse>,
    pub error: Option<String>,
}

/// What every request answers when it fails.
#[derive(Debug)]
pub struct ErrorResponse {
    pub error: String,
}

/// Why the proof stored for a deal was not confirmed.
#[derive(Debug)]
pub enum VerifyError {
    /// The backend does not accept the proof.
    Rejected(String),
    /// The proof is accepted but what it discloses cannot be read.
    Unreadable(String),
}

/// The deal a commitment request speaks of when it names none.
pub fn default_deal_id() -> (deal_id: String)
    ensures
        deal_id@ == "DEAL123"@,
{
    String::from_str("DEAL123")
}

/// The buyer a commitment request speaks of when it names none.
pub fn default_buyer() -> (buyer: String)
    ensures
        buyer@ == "buyer123"@,
{
    String::from_str("buyer123")
}

/// The commitment that answers a request of the party `bank_index` for
/// the given terms, or the error text. The one index without a key is
/// refused; so is a request for which no signature is made.
pub open spec fn commitment_outcome(bank_index: u64, terms: DealInfoView) -> Result<
    SignedMessageView,
    Seq<char>,
> {
    if !has_derived_key(bank_index) {
        Err("Failed to create commitment: Invalid key bytes"@)
    } else {
        match signed_commitment(derived_secret(bank_index), terms) {
            Some(commitment) => Ok(commitment),
            None => Err("Failed to create commitment: "@ + CoreError::SigningError.text()),
        }
    }
}

/// Signs the requested terms with the key of the requesting party, stores
/// the commitment under its deal and answers with it.
pub fn handle_commitment<R>(req: CommitmentRequest, storage: &mut Storage<R>) -> (reply: Result<
    CommitmentResponse,
    ErrorResponse,
>)
    ensures
        match commitment_outcome(
            req.bank_index,
            DealInfoView { amount: req.amount, deal_id: req.deal_id@, buyer: req.buyer@ },
        ) {
            Ok(commitment) => reply matches Ok(r) && r.signed_message@ == commitment && final(storage)@ == old(storage)@.with_commitment(req.deal_id@, commitment),
            Err(text) => reply matches Err(e) && e.error@ == text && final(storage)@ == old(storage)@,
        },
{
    if SEED.wrapping_add(req.bank_index) == 0 {
        return Err(
            ErrorResponse {
                error: String::from_str("Failed to create commitment: Invalid key bytes"),
            },
        );
    }
    let signing_key = get_deterministic_signing_key(req.bank_index);
    match create_signed_message(&signing_key, req.amount, req.deal_id.clone(), req.buyer) {
        Ok(signed_message) => {
            storage.add_commitment(req.deal_id, signed_message.clone());
            Ok(CommitmentResponse { signed_message })
        },
        Err(e) => Err(
            ErrorResponse {
                error: String::from_str("Failed to create commitment: ").concat(
                    e.to_string().as_str(),
                ),
            },
        ),
    }
}

/// The commitments over which a proof for a deal is produced: the first
/// two by arrival. A deal without commitments, or with a single one, is
/// refused with a text that says so.
pub open spec fn proof_selection<R>(storage: StorageView<R>, deal_id: Seq<char>) -> Result<
    (SignedMessageView, SignedMessageView),
    Seq<char>,
> {
    if !storage.commitments.contains_key(deal_id) {
        Err("No commitments found for deal "@ + deal_id)
    } else if storage.commitments[deal_id].len() < 2 {
        Err(
            "Not enough commitments for proof generation. Need 2, got "@ + decimal_text(
                storage.commitments[deal_id].len(),
            ),
        )
    } else {
        Ok((storage.commitments[deal_id][0], storage.commitments[deal_id][1]))
    }
}

/// Picks the commitments over which the backend is to prove the funds of a deal.
pub fn handle_proof<R>(req: &ProofRequest, storage: &Storage<R>) -> (selected: Result<
    (SignedMessage, SignedMessage),
    ErrorResponse,
>)
    ensures
        match proof_selection(storage@, req.deal_id@) {
            Ok((lb1, lb2)) => selected matches Ok(pair) && pair.0@ == lb1 && pair.1@ == lb2,
            Err(text) => selected matches Err(e) && e.error@ == text,
        },
{
    let commitments = match storage.get_commitments(req.deal_id.as_str()) {
        Some(commits) => commits,
        None => {
            return Err(
                ErrorResponse {
                    error: String::from_str("No commitments found for deal ").concat(
                        req.deal_id.as_str(),
                    ),
                },
            );
        },
    };
    if commitments.len() < 2 {
        return Err(
            ErrorResponse {
                error: String::from_str(
                    "Not enough commitments for proof generation. Need 2, got ",
                ).concat(decimal_string(commitments.len()).as_str()),
            },
        );
    }
    Ok((commitments[0].clone(), commitments[1].clone()))
}

/// Answers a proof request with what the backend returned: a proof is
/// stored under the deal and its disclosed output is passed on; an error
/// is passed on as text and nothing is stored.
pub fn handle_proof_result<R>(
    req: ProofRequest,
    answer: Result<(R, DealInfo, u64), CoreError>,
    storage: &mut Storage<R>,
) -> (reply: Result<ProofResponse, ErrorResponse>)
    ensures
        match answer {
            Ok((receipt, deal_info, verified_amount)) => {
                &&& reply matches Ok(r) && r.success && r.verified_amount == verified_amount
                    && r.deal_info@ == deal_info@
                &&& final(storage)@ == old(storage)@.with_proof(req.deal_id@, receipt)
            },
            Err(error) => {
                &&& reply matches Err(e) && e.error@ == "Failed to generate proof: "@
                    + error.text()
                &&& final(storage)@ == old(storage)@
            },
        },
{
    match answer {
        Ok((receipt, deal_info, verified_amount)) => {
            storage.add_proof(req.deal_id, receipt);
            Ok(ProofResponse { success: true, verified_amount, deal_info })
        },
        Err(e) => Err(
            ErrorResponse {
                error: String::from_str("Failed to generate proof: ").concat(
                    e.to_string().as_str(),
                ),
            },
        ),
    }
}

/// Finds the proof that is to be checked for a deal.
pub fn handle_verify<'a, R>(req: &VerifyRequest, storage: &'a Storage<R>) -> (found: Result<
    &'a R,
    ErrorResponse,
>)
    ensures
        match found {
            Ok(receipt) => storage@.proofs.contains_key(req.deal_id@) && *receipt
                == storage@.proofs[req.deal_id@],
            Err(e) => !storage@.proofs.contains_key(req.deal_id@) && e.error@
                == "No proof found for deal "@ + req.deal_id@,
        },
{
    match storage.get_proof(req.deal_id.as_str()) {
        Some(receipt) => Ok(receipt),
        None => Err(
            ErrorResponse {
                error: String::from_str("No proof found for deal ").concat(req.deal_id.as_str()),
            },
        ),
    }
}

/// Answers a verify request with what the backend found of the stored proof.
pub fn handle_verify_result(checked: Result<(DealInfo, u64), VerifyError>) -> (reply: Result<
    VerifyResponse,
    ErrorResponse,
>)
    ensures
        match checked {
            Ok((deal_info, verified_amount)) => reply matches Ok(r) && r.verified && (
            r.deal_info matches Some(disclosed) && disclosed@ == deal_info@),
            Err(VerifyError::Rejected(detail)) => reply matches Err(e) && e.error@
                == "Proof verification failed: "@ + detail@,
            Err(VerifyError::Unreadable(detail)) => reply matches Err(e) && e.error@
                == "Failed to decode proof data: "@ + detail@,
        },
{
    match checked {
        Ok((deal_info, _verified_amount)) => Ok(
            VerifyResponse { verified: true, deal_info: Some(deal_info) },
        ),
        Err(VerifyError::Rejected(detail)) => Err(
            ErrorResponse {
                error: String::from_str("Proof verification failed: ").concat(detail.as_str()),
            },
        ),
        Err(VerifyError::Unreadable(detail)) => Err(
            ErrorResponse {
                error: String::from_str("Failed to decode proof data: ").concat(detail.as_str()),
            },
        ),
    }
}

/// Enters a pending job for the requested deal and answers with its
/// identifier. The job is then to be handed to a worker.
pub fn handle_create_proof_job<R>(req: CreateProofJobRequest, storage: &mut Storage<R>) -> (reply:
    CreateProofJobResponse)
    ensures
        exists|now: i128|
            final(storage)@ == old(storage)@.with_job(
                #[trigger] pending_job(
                    reply.job_id@,
                    req.deal_id@,
                    req.required_amount,
                    now,
                ),
            ),
{
    let job = storage.create_proof_job(req.deal_id, req.required_amount);
    let ghost now = job@.created_at;
    let reply = CreateProofJobResponse { job_id: job.id };
    assert(storage@ == old(storage)@.with_job(
        pending_job(reply.job_id@, req.deal_id@, req.required_amount, now),
    ));
    reply
}

/// That a response shows a job as it stands.
pub open spec fn shows_job(response: GetProofJobResponse, job: ProofGenerationJobView) -> bool {
    &&& response.status == job.status
    &&& response.created_at == job.created_at
    &&& response.updated_at == job.updated_at
    &&& match job.proof {
        Some((deal_info, verified_amount)) => response.proof matches Some(p) && p.success
            && p.verified_amount == verified_amount && p.deal_info@ == deal_info,
        None => response.proof is None,
    }
    &&& match job.error {
        Some(text) => response.error matches Some(e) && e@ == text,
        None => response.error is None,
    }
}

/// Answers a poll with the job as it stands, or with an error where no
/// job has that identifier.
pub fn handle_get_proof_job<R>(job_id: &str, storage: &Storage<R>) -> (reply: Result<
    GetProofJobResponse,
    ErrorResponse,
>)
    ensures
        match reply {
            Ok(response) => storage@.proof_jobs.contains_key(job_id@) && shows_job(
                response,
                storage@.proof_jobs[job_id@],
            ),
            Err(e) => !storage@.proof_jobs.contains_key(job_id@) && e.error@
                == "Proof job not found: "@ + job_id@,
        },
{
    match storage.get_proof_job_with_receipt(job_id) {
        Some((job, _receipt)) => {
            let proof = match job.proof {
                Some((deal_info, verified_amount)) => Some(
                    ProofResponse { success: true, verified_amount, deal_info },
                ),
                None => None,
            };
            Ok(
                GetProofJobResponse {
                    status: job.status,
                    created_at: job.created_at,
                    updated_at: job.updated_at,
                    proof,
                    error: job.error,
                },
            )
        },
        None => Err(
            ErrorResponse {
                error: String::from_str("Proof job not found: ").concat(job_id),
            },
        ),
    }
}

} // verus!
