//! The outside Ed25519 provider: names for what it computes, and the trusted
//! calls into it. Everything else in the crate is verified against the
//! contracts stated here.

use vstd::prelude::*;

use crate::SigError;
use crate::PUBLIC_KEY_LENGTH;
use crate::SECRET_KEY_LENGTH;
use crate::SIGNATURE_LENGTH;

verus! {

/// The public key that the Ed25519 provider derives from a private seed.
pub uninterp spec fn public_of(seed: Seq<u8>) -> Seq<u8>;

/// The signature that the Ed25519 provider produces over a message from a
/// private seed. Ed25519 signing uses a deterministic nonce, so the result is
/// a function of the seed and the message alone.
pub uninterp spec fn signature_of(seed: Seq<u8>, msg: Seq<u8>) -> Seq<u8>;

/// Whether Ed25519 verification accepts `sig` over `msg` under the public key
/// bytes `public`.
pub uninterp spec fn verify_ok(public: Seq<u8>, msg: Seq<u8>, sig: Seq<u8>) -> bool;

/// Relies on rand_core::OsRng::try_fill_bytes: it fills the buffer from the
/// operating system's secure random source, or reports that the source
/// failed. Nothing can be promised of the bytes but their number.
#[verifier::external_body]
pub(crate) fn random_seed() -> (r: Result<Vec<u8>, SigError>)
    ensures
        r is Ok ==> r->Ok_0@.len() == SECRET_KEY_LENGTH,
        r is Err ==> r->Err_0 is GenerationFailure,
{
    let mut buf = [0u8; 32];
    match rand_core::RngCore::try_fill_bytes(&mut rand_core::OsRng, &mut buf) {
        Ok(()) => Ok(buf.to_vec()),
        Err(_) => Err(SigError::GenerationFailure),
    }
}

/// Relies on ed25519_dalek::SigningKey::from_bytes and
/// SigningKey::verifying_key: the public key is derived from the seed alone,
/// and is 32 bytes long.
#[verifier::external_body]
pub(crate) fn derive_public(seed: &Vec<u8>) -> (r: Vec<u8>)
    requires
        seed@.len() == SECRET_KEY_LENGTH,
    ensures
        r@ == public_of(seed@),
        r@.len() == PUBLIC_KEY_LENGTH,
{
    let mut a = [0u8; 32];
    a.copy_from_slice(seed.as_slice());
    let sk = ed25519_dalek::SigningKey::from_bytes(&a);
    sk.verifying_key().to_bytes().to_vec()
}

/// Relies on ed25519_dalek::SigningKey::sign: Ed25519 signing is a
/// deterministic function of the seed and the message, the signature is 64
/// bytes long, and it verifies under the public key derived from the same
/// seed.
#[verifier::external_body]
pub(crate) fn sign_bytes(seed: &Vec<u8>, msg: &Vec<u8>) -> (r: Vec<u8>)
    requires
        seed@.len() == SECRET_KEY_LENGTH,
    ensures
        r@ == signature_of(seed@, msg@),
        r@.len() == SIGNATURE_LENGTH,
        verify_ok(public_of(seed@), msg@, r@),
{
    let mut a = [0u8; 32];
    a.copy_from_slice(seed.as_slice());
    let sk = ed25519_dalek::SigningKey::from_bytes(&a);
    let sig = ed25519_dalek::Signer::sign(&sk, msg.as_slice());
    sig.to_bytes().to_vec()
}

/// Relies on ed25519_dalek::VerifyingKey::from_bytes,
/// Signature::from_bytes and Verifier::verify: whether verification accepts
/// is a function of the public-key bytes, the message and the signature bytes
/// alone. Bytes that are no valid public key accept nothing.
#[verifier::external_body]
pub(crate) fn verify_bytes(public: &Vec<u8>, msg: &Vec<u8>, sig: &Vec<u8>) -> (r: bool)
    requires
        public@.len() == PUBLIC_KEY_LENGTH,
        sig@.len() == SIGNATURE_LENGTH,
    ensures
        r == verify_ok(public@, msg@, sig@),
{
    let mut pk = [0u8; 32];
    pk.copy_from_slice(public.as_slice());
    let mut sg = [0u8; 64];
    sg.copy_from_slice(sig.as_slice());
    match ed25519_dalek::VerifyingKey::from_bytes(&pk) {
        Ok(vk) => {
            let s = ed25519_dalek::Signature::from_bytes(&sg);
            ed25519_dalek::Verifier::verify(&vk, msg.as_slice(), &s).is_ok()
        },
        Err(_) => false,
    }
}

} // verus!
