use rwz_pof::handlers::{
    default_buyer, default_deal_id, handle_commitment, handle_create_proof_job,
    handle_get_proof_job, handle_proof, handle_proof_result, handle_verify, handle_verify_result,
    CommitmentRequest, CreateProofJobRequest, ProofRequest, VerifyError, VerifyRequest,
};
use rwz_pof::keys::generate_deterministic_pubkey;
use rwz_pof::statement::{evaluate_statement, verify_signature};
use rwz_pof::storage::{JobUpdate, ProofJobStatus, Storage};
use rwz_pof::worker::{ProofWorker, WorkerStep};
use rwz_pof::{CoreError, DealInfo, SignedMessage};

fn commitment(tag: u8, amount: u64, deal_id: &str) -> SignedMessage {
    SignedMessage {
        pubkey: vec![tag; 33],
        message: DealInfo { amount, deal_id: deal_id.to_string(), buyer: "B".to_string() },
        signature: vec![tag; 64],
    }
}

fn disclosed(amount: u64) -> DealInfo {
    DealInfo { amount, deal_id: "D".to_string(), buyer: "B".to_string() }
}

fn pledge(bank_index: u64, amount: u64) -> CommitmentRequest {
    CommitmentRequest { bank_index, amount, deal_id: default_deal_id(), buyer: default_buyer() }
}

#[test]
fn job_without_commitments_fails_without_proving() {
    let worker = ProofWorker::new();
    let mut storage: Storage<Vec<u8>> = Storage::new();
    let job = storage.create_proof_job("D".to_string(), 60);

    let step = worker.start_job(&job.id, &mut storage);
    assert!(matches!(step, WorkerStep::Failed));
    let stored = storage.get_proof_job(&job.id).unwrap();
    assert_eq!(stored.status, ProofJobStatus::Failed);
    assert_eq!(stored.error.as_deref(), Some("Not enough commitments"));
    assert!(stored.proof.is_none());
    assert!(storage.get_proof("D").is_none());
}

#[test]
fn job_with_one_commitment_fails_without_proving() {
    let worker = ProofWorker::new();
    let mut storage: Storage<Vec<u8>> = Storage::new();
    storage.add_commitment("D".to_string(), commitment(1, 10, "D"));
    storage.add_commitment("E".to_string(), commitment(2, 10, "E"));
    storage.add_commitment("E".to_string(), commitment(3, 10, "E"));
    let job = storage.create_proof_job("D".to_string(), 5);

    assert!(matches!(worker.start_job(&job.id, &mut storage), WorkerStep::Failed));
    let stored = storage.get_proof_job(&job.id).unwrap();
    assert_eq!(stored.status, ProofJobStatus::Failed);
    assert_eq!(stored.error.as_deref(), Some("Not enough commitments"));
    assert_eq!(storage.get_commitments("D").unwrap().len(), 1);

    // the failed job stays failed, whatever comes later
    storage.add_commitment("D".to_string(), commitment(4, 10, "D"));
    assert!(matches!(worker.start_job(&job.id, &mut storage), WorkerStep::Skipped));
    worker.finish_job(&job.id, Ok((vec![1], disclosed(5), 5)), &mut storage);
    let stored = storage.get_proof_job(&job.id).unwrap();
    assert_eq!(stored.status, ProofJobStatus::Failed);
    assert_eq!(stored.error.as_deref(), Some("Not enough commitments"));
    assert!(storage.get_proof("D").is_none());
}

#[test]
fn job_with_commitments_is_proved_over_the_first_two() {
    let worker = ProofWorker::new();
    let mut storage: Storage<Vec<u8>> = Storage::new();
    storage.add_commitment("D".to_string(), commitment(1, 10, "D"));
    storage.add_commitment("D".to_string(), commitment(2, 20, "D"));
    storage.add_commitment("D".to_string(), commitment(3, 30, "D"));
    let job = storage.create_proof_job("D".to_string(), 25);

    match worker.start_job(&job.id, &mut storage) {
        WorkerStep::Prove { deal_id, lb1, lb2, required_amount } => {
            assert_eq!(deal_id, "D");
            assert_eq!(lb1.pubkey, vec![1; 33]);
            assert_eq!(lb1.message.amount, 10);
            assert_eq!(lb2.pubkey, vec![2; 33]);
            assert_eq!(lb2.message.amount, 20);
            assert_eq!(required_amount, 25);
        }
        other => panic!("unexpected step {:?}", other),
    }
    assert_eq!(storage.get_proof_job(&job.id).unwrap().status, ProofJobStatus::InProgress);
    assert!(storage.get_proof("D").is_none());

    // a second start does nothing
    assert!(matches!(worker.start_job(&job.id, &mut storage), WorkerStep::Skipped));
    assert_eq!(storage.get_proof_job(&job.id).unwrap().status, ProofJobStatus::InProgress);

    worker.finish_job(&job.id, Ok((vec![9, 9], disclosed(25), 25)), &mut storage);
    let stored = storage.get_proof_job(&job.id).unwrap();
    assert_eq!(stored.status, ProofJobStatus::Completed);
    let (deal_info, verified_amount) = stored.proof.clone().unwrap();
    assert_eq!((deal_info.amount, verified_amount), (25, 25));
    assert!(stored.error.is_none());
    assert_eq!(storage.get_proof("D"), Some(&vec![9, 9]));
    let (_, receipt) = storage.get_proof_job_with_receipt(&job.id).unwrap();
    assert_eq!(receipt, Some(&vec![9, 9]));
}

#[test]
fn backend_error_fails_the_job_and_stores_no_proof() {
    let worker = ProofWorker::new();
    let mut storage: Storage<Vec<u8>> = Storage::new();
    storage.add_commitment("D".to_string(), commitment(1, 10, "D"));
    storage.add_commitment("D".to_string(), commitment(2, 20, "D"));
    let job = storage.create_proof_job("D".to_string(), 31);
    assert!(matches!(worker.start_job(&job.id, &mut storage), WorkerStep::Prove { .. }));

    worker.finish_job(
        &job.id,
        Err(CoreError::ProofError("Guest panicked".to_string())),
        &mut storage,
    );
    let stored = storage.get_proof_job(&job.id).unwrap();
    assert_eq!(stored.status, ProofJobStatus::Failed);
    assert_eq!(stored.error.as_deref(), Some("Proof generation failed: Guest panicked"));
    assert!(stored.proof.is_none());
    assert!(storage.get_proof("D").is_none());

    // no retry: a later answer is not recorded
    worker.finish_job(&job.id, Ok((vec![1], disclosed(31), 31)), &mut storage);
    assert_eq!(storage.get_proof_job(&job.id).unwrap().status, ProofJobStatus::Failed);
    assert!(storage.get_proof("D").is_none());
}

#[test]
fn worker_leaves_unknown_and_unstarted_jobs_alone() {
    let worker = ProofWorker::new();
    let mut storage: Storage<Vec<u8>> = Storage::new();
    assert!(matches!(worker.start_job("nobody", &mut storage), WorkerStep::Skipped));
    worker.finish_job("nobody", Ok((vec![1], disclosed(1), 1)), &mut storage);
    assert!(storage.get_proof_job("nobody").is_none());

    let job = storage.create_proof_job("D".to_string(), 1);
    worker.finish_job(&job.id, Ok((vec![1], disclosed(1), 1)), &mut storage);
    assert_eq!(storage.get_proof_job(&job.id).unwrap().status, ProofJobStatus::Pending);
    assert!(storage.get_proof("D").is_none());
    worker.finish_job(&job.id, Err(CoreError::SigningError), &mut storage);
    assert_eq!(storage.get_proof_job(&job.id).unwrap().status, ProofJobStatus::Pending);
}

#[test]
fn request_defaults() {
    assert_eq!(default_deal_id(), "DEAL123");
    assert_eq!(default_buyer(), "buyer123");
}

#[test]
fn commitment_request_signs_and_stores() {
    let mut storage: Storage<Vec<u8>> = Storage::new();
    let reply = handle_commitment(pledge(0, 50), &mut storage).unwrap();
    assert_eq!(reply.signed_message.pubkey, generate_deterministic_pubkey(0));
    assert_eq!(reply.signed_message.message.amount, 50);
    assert_eq!(reply.signed_message.message.deal_id, "DEAL123");
    assert_eq!(reply.signed_message.message.buyer, "buyer123");
    assert!(verify_signature(&reply.signed_message));

    let second = handle_commitment(pledge(1, 30), &mut storage).unwrap();
    let stored = storage.get_commitments("DEAL123").unwrap();
    assert_eq!(stored.len(), 2);
    assert_eq!(stored[0].signature, reply.signed_message.signature);
    assert_eq!(stored[1].signature, second.signed_message.signature);
    assert_eq!(stored[1].pubkey, generate_deterministic_pubkey(1));

    let (deal_info, verified_amount) = evaluate_statement(&stored[0], &stored[1], 60).unwrap();
    assert_eq!((deal_info.amount, verified_amount), (60, 60));
}

#[test]
fn commitment_request_of_the_index_without_key_is_refused() {
    let mut storage: Storage<Vec<u8>> = Storage::new();
    let index = u64::MAX - 31336;
    let reply = handle_commitment(pledge(index, 50), &mut storage).unwrap_err();
    assert_eq!(reply.error, "Failed to create commitment: Invalid key bytes");
    assert!(storage.get_commitments("DEAL123").is_none());
    assert!(handle_commitment(pledge(index + 1, 50), &mut storage).is_ok());
    assert!(handle_commitment(pledge(index - 1, 50), &mut storage).is_ok());
}

#[test]
fn proof_request_picks_the_first_two_commitments() {
    let mut storage: Storage<Vec<u8>> = Storage::new();
    let req = ProofRequest { required_amount: 60, deal_id: "D".to_string() };
    assert_eq!(handle_proof(&req, &storage).unwrap_err().error, "No commitments found for deal D");

    storage.add_commitment("D".to_string(), commitment(1, 10, "D"));
    assert_eq!(
        handle_proof(&req, &storage).unwrap_err().error,
        "Not enough commitments for proof generation. Need 2, got 1"
    );

    storage.add_commitment("D".to_string(), commitment(2, 20, "D"));
    storage.add_commitment("D".to_string(), commitment(3, 30, "D"));
    let (lb1, lb2) = handle_proof(&req, &storage).unwrap();
    assert_eq!(lb1.pubkey[0], 1);
    assert_eq!(lb2.pubkey[0], 2);

    let empty = ProofRequest { required_amount: 60, deal_id: String::new() };
    assert_eq!(handle_proof(&empty, &storage).unwrap_err().error, "No commitments found for deal ");
}

#[test]
fn proof_answer_is_stored_or_passed_on_as_error() {
    let mut storage: Storage<Vec<u8>> = Storage::new();
    let req = ProofRequest { required_amount: 60, deal_id: "D".to_string() };
    let reply = handle_proof_result(req, Ok((vec![5, 6], disclosed(60), 60)), &mut storage).unwrap();
    assert!(reply.success);
    assert_eq!(reply.verified_amount, 60);
    assert_eq!(reply.deal_info.amount, 60);
    assert_eq!(reply.deal_info.deal_id, "D");
    assert_eq!(storage.get_proof("D"), Some(&vec![5, 6]));

    let req = ProofRequest { required_amount: 60, deal_id: "E".to_string() };
    let reply = handle_proof_result(
        req,
        Err(CoreError::Risc0Error("no prover".to_string())),
        &mut storage,
    )
    .unwrap_err();
    assert_eq!(reply.error, "Failed to generate proof: RISC0 error: no prover");
    assert!(storage.get_proof("E").is_none());
    assert_eq!(storage.get_proof("D"), Some(&vec![5, 6]));
}

#[test]
fn verify_request_finds_the_stored_proof() {
    let mut storage: Storage<Vec<u8>> = Storage::new();
    let req = VerifyRequest { deal_id: "D".to_string() };
    assert_eq!(handle_verify(&req, &storage).unwrap_err().error, "No proof found for deal D");
    storage.add_proof("D".to_string(), vec![1, 2]);
    assert_eq!(handle_verify(&req, &storage).unwrap(), &vec![1, 2]);
}

#[test]
fn verify_answer_is_passed_on() {
    let reply = handle_verify_result(Ok((disclosed(60), 60))).unwrap();
    assert!(reply.verified);
    let deal_info = reply.deal_info.unwrap();
    assert_eq!(deal_info.amount, 60);
    assert_eq!(deal_info.deal_id, "D");
    assert_eq!(deal_info.buyer, "B");

    let reply =
        handle_verify_result(Err(VerifyError::Rejected("bad seal".to_string()))).unwrap_err();
    assert_eq!(reply.error, "Proof verification failed: bad seal");
    let reply =
        handle_verify_result(Err(VerifyError::Unreadable("short".to_string()))).unwrap_err();
    assert_eq!(reply.error, "Failed to decode proof data: short");
}

#[test]
fn job_requests_create_and_show_jobs() {
    let mut storage: Storage<Vec<u8>> = Storage::new();
    assert_eq!(
        handle_get_proof_job("abc", &storage).unwrap_err().error,
        "Proof job not found: abc"
    );
    let created = handle_create_proof_job(
        CreateProofJobRequest { deal_id: "D".to_string(), required_amount: 60 },
        &mut storage,
    );
    assert_eq!(created.job_id.len(), 36);
    let job = storage.get_proof_job(&created.job_id).unwrap().clone();
    assert_eq!(job.deal_id, "D");
    assert_eq!(job.required_amount, 60);

    let shown = handle_get_proof_job(&created.job_id, &storage).unwrap();
    assert_eq!(shown.status, ProofJobStatus::Pending);
    assert_eq!(shown.created_at, job.created_at);
    assert_eq!(shown.updated_at, job.updated_at);
    assert!(shown.proof.is_none());
    assert!(shown.error.is_none());

    storage.apply_job_update(&created.job_id, JobUpdate::Start, 5);
    storage.apply_job_update(&created.job_id, JobUpdate::Complete(disclosed(60), 60), 6);
    let shown = handle_get_proof_job(&created.job_id, &storage).unwrap();
    assert_eq!(shown.status, ProofJobStatus::Completed);
    assert_eq!(shown.updated_at, 6);
    let proof = shown.proof.unwrap();
    assert!(proof.success);
    assert_eq!(proof.verified_amount, 60);
    assert_eq!(proof.deal_info.deal_id, "D");
    assert!(shown.error.is_none());

    let failing = handle_create_proof_job(
        CreateProofJobRequest { deal_id: "D".to_string(), required_amount: 60 },
        &mut storage,
    );
    assert_ne!(failing.job_id, created.job_id);
    ProofWorker::new().start_job(&failing.job_id, &mut storage);
    let shown = handle_get_proof_job(&failing.job_id, &storage).unwrap();
    assert_eq!(shown.status, ProofJobStatus::Failed);
    assert_eq!(shown.error.as_deref(), Some("Not enough commitments"));
    assert!(shown.proof.is_none());
}
