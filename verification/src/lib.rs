//! Proof of funds between lenders and a buyer: deterministic party keys,
//! signed commitments to deal terms, the statement that two commitments
//! together reach a required amount, and the stores and job life cycle of
//! the host that has such statements proved.

pub mod encoding;
pub mod engine;
pub mod handlers;
pub mod keys;
pub mod statement;
pub mod storage;
pub mod text;
pub mod types;
pub mod worker;

pub use engine::create_signed_message;
pub use keys::{get_deterministic_signing_key, SigningKey};
pub use types::{CoreError, DealInfo, SignedMessage};
