use crate::encoding::{canonical_bytes, canonical_encoding};
use crate::keys::{get_valid_pubkeys, k256_verify, signature_accepted, valid_pubkeys};
use crate::types::{DealInfo, DealInfoView, SignedMessage, SignedMessageView};
use vstd::prelude::*;

verus! {

/// Why a pair of commitments does not prove the funds.
#[derive(Debug, Clone, Copy, PartialEq, Eq, Structural)]
pub enum StatementError {
    /// A signature does not validate over the terms under the key it names.
    SignatureInvalid,
    /// A commitment names a key that is not among the known parties.
    UnknownParty,
    /// Both commitments come from one party.
    DuplicateParty,
    /// The commitments speak of different deals.
    DealMismatch,
    /// The commitments speak of different buyers.
    BuyerMismatch,
    /// The pledged amounts together stay below what is required.
    InsufficientFunds,
}

/// How one commitment fares against a list of accepted keys.
#[derive(Debug, Clone, Copy, PartialEq, Eq, Structural)]
pub enum SignatureStatus {
    /// The key is accepted and the signature validates.
    Valid,
    /// The key is not accepted.
    UnknownParty,
    /// The key is accepted, the signature does not validate.
    SignatureInvalid,
}

/// The standing of a commitment: its key must be among `allowed`, and its
/// signature must validate over the canonical bytes of its terms.
pub open spec fn signature_status(
    signed: SignedMessageView,
    allowed: Seq<Seq<u8>>,
) -> SignatureStatus {
    if !allowed.contains(signed.pubkey) {
        SignatureStatus::UnknownParty
    } else if !signature_accepted(
        signed.pubkey,
        canonical_encoding(signed.message),
        signed.signature,
    ) {
        SignatureStatus::SignatureInvalid
    } else {
        SignatureStatus::Valid
    }
}

/// Whether `key` is one of `allowed`.
pub fn is_allowed_key(key: &Vec<u8>, allowed: &[Vec<u8>]) -> (found: bool)
    ensures
        found == allowed.deep_view().contains(key@),
{
    let mut i: usize = 0;
    while i < allowed.len()
        invariant
            i <= allowed.len(),
            forall|j: int| 0 <= j < i ==> allowed.deep_view()[j] != key@,
        decreases allowed.len() - i,
    {
        let same = allowed[i] == *key;
        if same {
            assert(allowed.deep_view()[i as int] == key@);
            return true;
        }
        i += 1;
    }
    false
}

/// Checks a commitment against a list of accepted keys.
pub fn check_signature(signed: &SignedMessage, allowed: &[Vec<u8>]) -> (status: SignatureStatus)
    ensures
        status == signature_status(signed@, allowed.deep_view()),
{
    if !is_allowed_key(&signed.pubkey, allowed) {
        return SignatureStatus::UnknownParty;
    }
    let message_bytes = canonical_bytes(&signed.message);
    if k256_verify(
        signed.pubkey.as_slice(),
        message_bytes.as_slice(),
        signed.signature.as_slice(),
    ) {
        SignatureStatus::Valid
    } else {
        SignatureStatus::SignatureInvalid
    }
}

/// Whether a commitment comes from a known party and carries that party's
/// valid signature over its terms.
pub fn verify_signature(signed: &SignedMessage) -> (valid: bool)
    ensures
        valid == (signature_status(signed@, valid_pubkeys()) is Valid),
{
    let keys = get_valid_pubkeys();
    match check_signature(signed, keys.as_slice()) {
        SignatureStatus::Valid => true,
        _ => false,
    }
}

/// The error that a failed signature check stands for.
pub open spec fn status_error(status: SignatureStatus) -> StatementError {
    match status {
        SignatureStatus::UnknownParty => StatementError::UnknownParty,
        _ => StatementError::SignatureInvalid,
    }
}

/// What is disclosed when the statement holds: the required amount, the
/// deal and the buyer, and the required amount once more as the amount proved.
pub open spec fn disclosed_output(lb1: SignedMessageView, proof_amount: u64) -> (DealInfoView, u64) {
    (
        DealInfoView {
            amount: proof_amount,
            deal_id: lb1.message.deal_id,
            buyer: lb1.message.buyer,
        },
        proof_amount,
    )
}

/// The statement over two commitments whose signature checks are known.
/// The checks are made in this order and the first that fails decides:
/// the first signature, the second signature, that the parties differ,
/// that the deals agree, that the buyers agree, that the amounts together
/// reach the required amount.
pub open spec fn statement_outcome(
    first: SignatureStatus,
    second: SignatureStatus,
    lb1: SignedMessageView,
    lb2: SignedMessageView,
    proof_amount: u64,
) -> Result<(DealInfoView, u64), StatementError> {
    if !(first is Valid) {
        Err(status_error(first))
    } else if !(second is Valid) {
        Err(status_error(second))
    } else if lb1.pubkey == lb2.pubkey {
        Err(StatementError::DuplicateParty)
    } else if lb1.message.deal_id != lb2.message.deal_id {
        Err(StatementError::DealMismatch)
    } else if lb1.message.buyer != lb2.message.buyer {
        Err(StatementError::BuyerMismatch)
    } else if lb1.message.amount + lb2.message.amount < proof_amount {
        Err(StatementError::InsufficientFunds)
    } else {
        Ok(disclosed_output(lb1, proof_amount))
    }
}

/// The statement over two commitments, judged against the known parties.
pub open spec fn funding_statement(
    lb1: SignedMessageView,
    lb2: SignedMessageView,
    proof_amount: u64,
) -> Result<(DealInfoView, u64), StatementError> {
    statement_outcome(
        signature_status(lb1, valid_pubkeys()),
        signature_status(lb2, valid_pubkeys()),
        lb1,
        lb2,
        proof_amount,
    )
}

/// That an executable result is the given outcome.
pub open spec fn is_outcome(
    got: Result<(DealInfo, u64), StatementError>,
    outcome: Result<(DealInfoView, u64), StatementError>,
) -> bool {
    match outcome {
        Ok(output) => got matches Ok(disclosed) && disclosed.0@ == output.0 && disclosed.1
            == output.1,
        Err(error) => got matches Err(e) && e == error,
    }
}

fn error_of(status: SignatureStatus) -> (error: StatementError)
    ensures
        error == status_error(status),
{
    match status {
        SignatureStatus::UnknownParty => StatementError::UnknownParty,
        _ => StatementError::SignatureInvalid,
    }
}

/// Decides the statement once the two signature checks have been made.
pub fn decide_statement(
    first: SignatureStatus,
    second: SignatureStatus,
    lb1: &SignedMessage,
    lb2: &SignedMessage,
    proof_amount: u64,
) -> (decided: Result<(DealInfo, u64), StatementError>)
    ensures
        is_outcome(decided, statement_outcome(first, second, lb1@, lb2@, proof_amount)),
{
    match first {
        SignatureStatus::Valid => {},
        _ => {
            return Err(error_of(first));
        },
    }
    match second {
        SignatureStatus::Valid => {},
        _ => {
            return Err(error_of(second));
        },
    }
    let same_key = lb1.pubkey == lb2.pubkey;
    assert(same_key == (lb1.pubkey@ =~= lb2.pubkey@));
    if same_key {
        return Err(StatementError::DuplicateParty);
    }
    if lb1.message.deal_id != lb2.message.deal_id {
        return Err(StatementError::DealMismatch);
    }
    if lb1.message.buyer != lb2.message.buyer {
        return Err(StatementError::BuyerMismatch);
    }
    let total: u128 = lb1.message.amount as u128 + lb2.message.amount as u128;
    if total < proof_amount as u128 {
        return Err(StatementError::InsufficientFunds);
    }
    let verification_info = DealInfo {
        amount: proof_amount,
        deal_id: lb1.message.deal_id.clone(),
        buyer: lb1.message.buyer.clone(),
    };
    Ok((verification_info, proof_amount))
}

/// Evaluates the statement over two commitments: both come from known
/// parties and are validly signed, the parties differ, deal and buyer
/// agree, and the amounts together reach `proof_amount`.
pub fn evaluate_statement(lb1: &SignedMessage, lb2: &SignedMessage, proof_amount: u64) -> (decided:
    Result<(DealInfo, u64), StatementError>)
    ensures
        is_outcome(decided, funding_statement(lb1@, lb2@, proof_amount)),
{
    let keys = get_valid_pubkeys();
    let first = check_signature(lb1, keys.as_slice());
    match first {
        SignatureStatus::Valid => {},
        _ => {
            return Err(error_of(first));
        },
    }
    let second = check_signature(lb2, keys.as_slice());
    decide_statement(first, second, lb1, lb2, proof_amount)
}

/// Two valid commitments of different known parties to one deal of one
/// buyer, whose amounts together reach the required amount, prove the
/// funds; what is disclosed is the required amount with the deal and the
/// buyer, never the sum of the amounts.
pub proof fn lemma_sufficient_funds_are_proved(
    lb1: SignedMessageView,
    lb2: SignedMessageView,
    proof_amount: u64,
)
    requires
        signature_status(lb1, valid_pubkeys()) is Valid,
        signature_status(lb2, valid_pubkeys()) is Valid,
        lb1.pubkey != lb2.pubkey,
        lb1.message.deal_id == lb2.message.deal_id,
        lb1.message.buyer == lb2.message.buyer,
        lb1.message.amount + lb2.message.amount >= proof_amount,
    ensures
        funding_statement(lb1, lb2, proof_amount) == Ok::<(DealInfoView, u64), StatementError>(
            (
                DealInfoView {
                    amount: proof_amount,
                    deal_id: lb1.message.deal_id,
                    buyer: lb1.message.buyer,
                },
                proof_amount,
            ),
        ),
{
}

/// Two valid commitments of different known parties to one deal of one
/// buyer, whose amounts together stay below the required amount, fail
/// for insufficient funds.
pub proof fn lemma_short_funds_are_refused(
    lb1: SignedMessageView,
    lb2: SignedMessageView,
    proof_amount: u64,
)
    requires
        signature_status(lb1, valid_pubkeys()) is Valid,
        signature_status(lb2, valid_pubkeys()) is Valid,
        lb1.pubkey != lb2.pubkey,
        lb1.message.deal_id == lb2.message.deal_id,
        lb1.message.buyer == lb2.message.buyer,
        lb1.message.amount + lb2.message.amount < proof_amount,
    ensures
        funding_statement(lb1, lb2, proof_amount) == Err::<(DealInfoView, u64), StatementError>(
            StatementError::InsufficientFunds,
        ),
{
}

/// Two valid commitments that name one public key fail as a duplicate
/// party, whatever their terms and whatever amount is required.
pub proof fn lemma_shared_key_is_duplicate(
    lb1: SignedMessageView,
    lb2: SignedMessageView,
    proof_amount: u64,
)
    requires
        signature_status(lb1, valid_pubkeys()) is Valid,
        signature_status(lb2, valid_pubkeys()) is Valid,
        lb1.pubkey == lb2.pubkey,
    ensures
        funding_statement(lb1, lb2, proof_amount) == Err::<(DealInfoView, u64), StatementError>(
            StatementError::DuplicateParty,
        ),
{
}

/// The statement never discloses more than was asked: whenever it holds,
/// the amount it shows is the required amount.
pub proof fn lemma_output_carries_required_amount(
    lb1: SignedMessageView,
    lb2: SignedMessageView,
    proof_amount: u64,
)
    ensures
        funding_statement(lb1, lb2, proof_amount) matches Ok(output) ==> output.0.amount
            == proof_amount && output.1 == proof_amount,
{
}

} // verus!
