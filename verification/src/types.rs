use vstd::prelude::*;
use vstd::string::StringExecFns;

verus! {

/// Seed from which the keys of the known parties are derived.
pub const SEED: u64 = 31337;

/// The terms a party pledges to: an amount toward a deal of a buyer.
#[derive(Debug)]
pub struct DealInfo {
    pub amount: u64,
    pub deal_id: String,
    pub buyer: String,
}

/// Mathematical value of a [`DealInfo`].
pub struct DealInfoView {
    pub amount: u64,
    pub deal_id: Seq<char>,
    pub buyer: Seq<char>,
}

impl View for DealInfo {
    type V = DealInfoView;

    open spec fn view(&self) -> DealInfoView {
        DealInfoView { amount: self.amount, deal_id: self.deal_id@, buyer: self.buyer@ }
    }
}

impl DeepView for DealInfo {
    type V = DealInfoView;

    open spec fn deep_view(&self) -> DealInfoView {
        self@
    }
}

impl Clone for DealInfo {
    fn clone(&self) -> (copy: Self)
        ensures
            copy@ == self@,
    {
        DealInfo { amount: self.amount, deal_id: self.deal_id.clone(), buyer: self.buyer.clone() }
    }
}

/// A commitment: deal terms together with the SEC1 public key of the party
/// that pledged them and that party's signature over their canonical bytes.
#[derive(Debug)]
pub struct SignedMessage {
    pub pubkey: Vec<u8>,
    pub message: DealInfo,
    pub signature: Vec<u8>,
}

/// Mathematical value of a [`SignedMessage`].
pub struct SignedMessageView {
    pub pubkey: Seq<u8>,
    pub message: DealInfoView,
    pub signature: Seq<u8>,
}

impl View for SignedMessage {
    type V = SignedMessageView;

    open spec fn view(&self) -> SignedMessageView {
        SignedMessageView {
            pubkey: self.pubkey@,
            message: self.message@,
            signature: self.signature@,
        }
    }
}

impl DeepView for SignedMessage {
    type V = SignedMessageView;

    open spec fn deep_view(&self) -> SignedMessageView {
        self@
    }
}

impl Clone for SignedMessage {
    fn clone(&self) -> (copy: Self)
        ensures
            copy@ == self@,
    {
        SignedMessage {
            pubkey: self.pubkey.clone(),
            message: self.message.clone(),
            signature: self.signature.clone(),
        }
    }
}

/// What can go wrong while a commitment is made or a proof is produced.
#[derive(Debug)]
pub enum CoreError {
    /// The proving backend did not produce a proof.
    ProofError(String),
    /// Terms or a commitment could not be encoded or decoded.
    SerializationError(String),
    /// The proving backend refused its inputs or its output could not be read.
    Risc0Error(String),
    /// No signature could be made over the terms.
    SigningError,
}

impl CoreError {
    /// The text of the error.
    pub open spec fn text(self) -> Seq<char> {
        match self {
            CoreError::ProofError(detail) => "Proof generation failed: "@ + detail@,
            CoreError::SerializationError(detail) => "Serialization error: "@ + detail@,
            CoreError::Risc0Error(detail) => "RISC0 error: "@ + detail@,
            CoreError::SigningError => "Signing failed"@,
        }
    }

    /// The text of the error.
    pub fn to_string(&self) -> (text: String)
        ensures
            text@ == self.text(),
    {
        match self {
            CoreError::ProofError(detail) => String::from_str("Proof generation failed: ").concat(
                detail.as_str(),
            ),
            CoreError::SerializationError(detail) => String::from_str(
                "Serialization error: ",
            ).concat(detail.as_str()),
            CoreError::Risc0Error(detail) => String::from_str("RISC0 error: ").concat(
                detail.as_str(),
            ),
            CoreError::SigningError => String::from_str("Signing failed"),
        }
    }
}

} // verus!
