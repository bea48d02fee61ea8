use crate::encoding::{byte_at, lemma_u64_le_bytes_injective, u64_le_bytes};
use crate::types::SEED;
use vstd::prelude::*;

verus! {

/// The order of the secp256k1 group, as 32 big-endian bytes.
pub open spec fn curve_order_bytes() -> Seq<u8> {
    seq![
        0xFFu8, 0xFFu8, 0xFFu8, 0xFFu8, 0xFFu8, 0xFFu8, 0xFFu8, 0xFFu8,
        0xFFu8, 0xFFu8, 0xFFu8, 0xFFu8, 0xFFu8, 0xFFu8, 0xFFu8, 0xFEu8,
        0xBAu8, 0xAEu8, 0xDCu8, 0xE6u8, 0xAFu8, 0x48u8, 0xA0u8, 0x3Bu8,
        0xBFu8, 0xD2u8, 0x5Eu8, 0x8Cu8, 0xD0u8, 0x36u8, 0x41u8, 0x41u8,
    ]
}

/// `a` is below `b` when both are read as big-endian integers of one
/// length: they agree up to some place, where `a` holds the smaller byte.
pub open spec fn be_less(a: Seq<u8>, b: Seq<u8>) -> bool {
    exists|i: int|
        0 <= i < a.len() && i < b.len() && #[trigger] a[i] < b[i] && a.subrange(0, i)
            == b.subrange(0, i)
}

/// The bytes that can serve as a secret key: 32 of them, which as a
/// big-endian integer are neither zero nor reach the group order.
pub open spec fn is_secret_scalar(bytes: Seq<u8>) -> bool {
    &&& bytes.len() == 32
    &&& exists|i: int| 0 <= i < 32 && #[trigger] bytes[i] != 0
    &&& be_less(bytes, curve_order_bytes())
}

/// The compressed SEC1 encoding of the public key that belongs to a
/// secret scalar, as k256 computes it.
pub uninterp spec fn sec1_public_key(secret: Seq<u8>) -> Seq<u8>;

/// The signature that k256 makes with a secret scalar over a message
/// (deterministic ECDSA over SHA-256, `r` then `s`), or `None` where it
/// makes none.
pub uninterp spec fn ecdsa_signature(secret: Seq<u8>, message: Seq<u8>) -> Option<Seq<u8>>;

/// Whether k256 reads `pubkey` as a SEC1 public key and `signature` as a
/// signature, and finds the signature valid for the message under that key.
pub uninterp spec fn signature_accepted(
    pubkey: Seq<u8>,
    message: Seq<u8>,
    signature: Seq<u8>,
) -> bool;

/// Calls `k256::ecdsa::SigningKey::from_bytes` and, on the key it gives,
/// `verifying_key` and `to_sec1_bytes`. Claimed without proof: the bytes
/// are taken as a key exactly when they are a secret scalar, and the
/// public key then returned is a function of those bytes alone, in the
/// compressed form of 33 bytes.
#[verifier::external_body]
fn k256_public_key(secret: &[u8; 32]) -> (public: Option<Vec<u8>>)
    ensures
        public is Some <==> is_secret_scalar(secret@),
        public matches Some(p) ==> p@ == sec1_public_key(secret@) && p@.len() == 33,
{
    match k256::ecdsa::SigningKey::from_bytes(&(*secret).into()) {
        Ok(key) => Some(key.verifying_key().to_sec1_bytes().to_vec()),
        Err(_) => None,
    }
}

/// Calls `try_sign` of k256's `SigningKey` (the `Signer` trait of the
/// signature crate) with the key made from `secret`. Claimed without
/// proof: whether a signature comes back, and which, is a function of
/// the secret bytes and the message alone; a signature has 64 bytes.
#[verifier::external_body]
fn k256_sign(secret: &[u8; 32], message: &[u8]) -> (signature: Option<Vec<u8>>)
    ensures
        match signature {
            Some(s) => ecdsa_signature(secret@, message@) == Some(s@) && s@.len() == 64,
            None => ecdsa_signature(secret@, message@) is None,
        },
{
    let key = match k256::ecdsa::SigningKey::from_bytes(&(*secret).into()) {
        Ok(key) => key,
        Err(_) => return None,
    };
    let made: Result<k256::ecdsa::Signature, k256::ecdsa::Error> =
        k256::ecdsa::signature::Signer::try_sign(&key, message);
    match made {
        Ok(s) => Some(s.to_bytes().to_vec()),
        Err(_) => None,
    }
}

/// Calls `VerifyingKey::from_sec1_bytes`, `Signature::from_slice` and
/// `verify` (the `Verifier` trait) of k256. Claimed without proof: the
/// answer is a function of the three byte strings alone. Bytes that k256
/// does not read as a key or as a signature give `false`.
#[verifier::external_body]
pub(crate) fn k256_verify(pubkey: &[u8], message: &[u8], signature: &[u8]) -> (accepted: bool)
    ensures
        accepted == signature_accepted(pubkey@, message@, signature@),
{
    let key = match k256::ecdsa::VerifyingKey::from_sec1_bytes(pubkey) {
        Ok(key) => key,
        Err(_) => return false,
    };
    let parsed = match k256::ecdsa::Signature::from_slice(signature) {
        Ok(parsed) => parsed,
        Err(_) => return false,
    };
    k256::ecdsa::signature::Verifier::verify(&key, message, &parsed).is_ok()
}

/// A party's signing key: a secret scalar together with the public key
/// that belongs to it.
pub struct SigningKey {
    secret: [u8; 32],
    public: Vec<u8>,
}

impl SigningKey {
    #[verifier::type_invariant]
    spec fn well_formed(self) -> bool {
        &&& is_secret_scalar(self.secret@)
        &&& self.public@ == sec1_public_key(self.secret@)
        &&& self.public@.len() == 33
    }

    /// The secret scalar, 32 big-endian bytes.
    pub closed spec fn secret_bytes(&self) -> Seq<u8> {
        self.secret@
    }

    /// Takes 32 bytes as a signing key where they are a secret scalar.
    pub fn from_bytes(bytes: &[u8; 32]) -> (key: Option<SigningKey>)
        ensures
            key is Some <==> is_secret_scalar(bytes@),
            key matches Some(k) ==> k.secret_bytes() == bytes@,
    {
        match k256_public_key(bytes) {
            Some(public) => Some(SigningKey { secret: *bytes, public }),
            None => None,
        }
    }

    /// The secret scalar.
    pub fn to_bytes(&self) -> (bytes: [u8; 32])
        ensures
            bytes@ == self.secret_bytes(),
            is_secret_scalar(bytes@),
    {
        proof {
            use_type_invariant(self);
        }
        self.secret
    }

    /// The compressed SEC1 encoding of the public key.
    pub fn to_sec1_bytes(&self) -> (bytes: Vec<u8>)
        ensures
            bytes@ == sec1_public_key(self.secret_bytes()),
            bytes@.len() == 33,
    {
        proof {
            use_type_invariant(self);
        }
        self.public.clone()
    }

    /// Signs a message, where k256 makes a signature.
    pub fn sign(&self, message: &[u8]) -> (signature: Option<Vec<u8>>)
        ensures
            match signature {
                Some(s) => ecdsa_signature(self.secret_bytes(), message@) == Some(s@)
                    && s@.len() == 64,
                None => ecdsa_signature(self.secret_bytes(), message@) is None,
            },
    {
        k256_sign(&self.secret, message)
    }
}

/// The secret scalar of the party with the given index: the seed plus the
/// index, wrapping, as eight little-endian bytes, followed by 24 zero bytes.
pub open spec fn derived_secret(offset: u64) -> Seq<u8> {
    u64_le_bytes(SEED.wrapping_add(offset)) + Seq::new(24, |i: int| 0u8)
}

/// Whether the party with the given index has a key: every index has
/// one but the single index that carries the seed to zero.
pub open spec fn has_derived_key(offset: u64) -> bool {
    SEED.wrapping_add(offset) != 0
}

/// Where every byte of `a` before place `k` is at most that of `b`, and
/// the byte at `k` is smaller, `a` is below `b`.
proof fn lemma_be_less_from_bounds(a: Seq<u8>, b: Seq<u8>, k: int)
    requires
        0 <= k < a.len(),
        k < b.len(),
        a[k] < b[k],
        forall|j: int| 0 <= j < k ==> a[j] <= b[j],
    ensures
        be_less(a, b),
    decreases k,
{
    if forall|j: int| 0 <= j < k ==> a[j] == b[j] {
        assert(a.subrange(0, k) =~= b.subrange(0, k));
    } else {
        let j = choose|j: int| 0 <= j < k && a[j] != b[j];
        lemma_be_less_from_bounds(a, b, j);
    }
}

/// Every derived secret but that of the one excluded index is a secret scalar.
pub proof fn lemma_derived_secret_is_scalar(offset: u64)
    requires
        has_derived_key(offset),
    ensures
        is_secret_scalar(derived_secret(offset)),
{
    let x = SEED.wrapping_add(offset);
    let d = derived_secret(offset);
    assert(x != 0 ==> (x & 0xff) != 0 || ((x >> 8) & 0xff) != 0 || ((x >> 16) & 0xff) != 0 || ((x
        >> 24) & 0xff) != 0 || ((x >> 32) & 0xff) != 0 || ((x >> 40) & 0xff) != 0 || ((x >> 48)
        & 0xff) != 0 || ((x >> 56) & 0xff) != 0) by (bit_vector);
    assert((x & 0xff) <= 0xff && ((x >> 8) & 0xff) <= 0xff && ((x >> 16) & 0xff) <= 0xff && ((x
        >> 24) & 0xff) <= 0xff && ((x >> 32) & 0xff) <= 0xff && ((x >> 40) & 0xff) <= 0xff && ((x
        >> 48) & 0xff) <= 0xff && ((x >> 56) & 0xff) <= 0xff) by (bit_vector);
    assert(d[0] != 0 || d[1] != 0 || d[2] != 0 || d[3] != 0 || d[4] != 0 || d[5] != 0 || d[6] != 0
        || d[7] != 0);
    lemma_be_less_from_bounds(d, curve_order_bytes(), 8);
}

/// Parties with different indices have different secret scalars.
pub proof fn lemma_derived_secrets_differ(first: u64, second: u64)
    requires
        derived_secret(first) == derived_secret(second),
    ensures
        first == second,
{
    let a = SEED.wrapping_add(first);
    let b = SEED.wrapping_add(second);
    assert(derived_secret(first).subrange(0, 8) =~= u64_le_bytes(a));
    assert(derived_secret(second).subrange(0, 8) =~= u64_le_bytes(b));
    lemma_u64_le_bytes_injective(a, b);
}

/// The signing key of the party with the given index.
pub fn get_deterministic_signing_key(offset: u64) -> (key: SigningKey)
    requires
        has_derived_key(offset),
    ensures
        key.secret_bytes() == derived_secret(offset),
{
    let x: u64 = SEED.wrapping_add(offset);
    let mut key_bytes: [u8; 32] = [0u8; 32];
    key_bytes[0] = byte_at(x, 0);
    key_bytes[1] = byte_at(x, 8);
    key_bytes[2] = byte_at(x, 16);
    key_bytes[3] = byte_at(x, 24);
    key_bytes[4] = byte_at(x, 32);
    key_bytes[5] = byte_at(x, 40);
    key_bytes[6] = byte_at(x, 48);
    key_bytes[7] = byte_at(x, 56);
    proof {
        assert(x >> 0 == x) by (bit_vector);
        assert(key_bytes@ =~= derived_secret(offset));
        lemma_derived_secret_is_scalar(offset);
    }
    match SigningKey::from_bytes(&key_bytes) {
        Some(key) => key,
        None => vstd::pervasive::unreached(),
    }
}

/// The compressed SEC1 public key of the party with the given index.
pub fn generate_deterministic_pubkey(offset: u64) -> (pubkey: Vec<u8>)
    requires
        has_derived_key(offset),
    ensures
        pubkey@ == sec1_public_key(derived_secret(offset)),
{
    get_deterministic_signing_key(offset).to_sec1_bytes()
}

/// The public keys of the known parties: those with index 0 and 1.
pub open spec fn valid_pubkeys() -> Seq<Seq<u8>> {
    seq![sec1_public_key(derived_secret(0)), sec1_public_key(derived_secret(1))]
}

/// The public keys of the known parties.
pub fn get_valid_pubkeys() -> (keys: [Vec<u8>; 2])
    ensures
        keys.deep_view() == valid_pubkeys(),
{
    let first = generate_deterministic_pubkey(0);
    let second = generate_deterministic_pubkey(1);
    let keys = [first, second];
    assert(keys.deep_view()[0] == first@);
    assert(keys.deep_view()[1] == second@);
    keys
}

} // verus!
