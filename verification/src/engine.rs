use crate::encoding::{canonical_bytes, canonical_encoding};
use crate::keys::{ecdsa_signature, sec1_public_key, SigningKey};
use crate::types::{CoreError, DealInfo, DealInfoView, SignedMessage, SignedMessageView};
use vstd::prelude::*;

verus! {

/// What signing the terms with a secret scalar gives: the commitment that
/// carries the scalar's public key and its signature over the canonical
/// bytes of the terms, or nothing where no signature is made.
pub open spec fn signed_commitment(secret: Seq<u8>, terms: DealInfoView) -> Option<
    SignedMessageView,
> {
    match ecdsa_signature(secret, canonical_encoding(terms)) {
        Some(signature) => Some(
            SignedMessageView { pubkey: sec1_public_key(secret), message: terms, signature },
        ),
        None => None,
    }
}

/// Pledges `amount` toward the deal `deal_id` of `buyer` in the name of
/// the holder of `signing_key`.
pub fn create_signed_message(
    signing_key: &SigningKey,
    amount: u64,
    deal_id: String,
    buyer: String,
) -> (made: Result<SignedMessage, CoreError>)
    ensures
        match signed_commitment(
            signing_key.secret_bytes(),
            DealInfoView { amount, deal_id: deal_id@, buyer: buyer@ },
        ) {
            Some(commitment) => made matches Ok(m) && m@ == commitment,
            None => made matches Err(e) && e is SigningError,
        },
{
    let deal_info = DealInfo { amount, deal_id, buyer };
    let message_bytes = canonical_bytes(&deal_info);
    match signing_key.sign(message_bytes.as_slice()) {
        Some(signature) => Ok(
            SignedMessage { pubkey: signing_key.to_sec1_bytes(), message: deal_info, signature },
        ),
        None => Err(CoreError::SigningError),
    }
}

} // verus!
