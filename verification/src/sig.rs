//! The sign and verify capabilities: a signer bound to the private half of a
//! key pair and a verifier bound to the public half.

use vstd::prelude::*;

use crate::keys::KeyPair;
use crate::provider::public_of;
use crate::provider::sign_bytes;
use crate::provider::signature_of;
use crate::provider::verify_bytes;
use crate::provider::verify_ok;
use crate::SigError;
use crate::PUBLIC_KEY_LENGTH;
use crate::SECRET_KEY_LENGTH;
use crate::SIGNATURE_LENGTH;

verus! {

/// Anything that can produce a signature over bytes. Signing is
/// deterministic, and what it produces verifies under the holder's public
/// key.
pub trait Signs {
    /// The holder's credential is well formed.
    spec fn signer_wf(&self) -> bool;

    /// The public key under which this signer's signatures verify.
    spec fn signer_public(&self) -> Seq<u8>;

    /// The signature this signer produces over a message.
    spec fn spec_sign(&self, msg: Seq<u8>) -> Seq<u8>;

    /// Signs a message. Any byte sequence, the empty one included, can be
    /// signed.
    fn sign(&self, msg: &Vec<u8>) -> (r: Vec<u8>)
        requires
            self.signer_wf(),
        ensures
            r@ == self.spec_sign(msg@),
            r@.len() == SIGNATURE_LENGTH,
            verify_ok(self.signer_public(), msg@, r@),
    ;
}

/// Anything that can check a signature over bytes. A mismatch is an expected,
/// recoverable outcome, reported as an error value, never as an abort.
pub trait Verifies {
    /// The holder's credential is well formed.
    spec fn verifier_wf(&self) -> bool;

    /// The public key this verifier checks against.
    spec fn verifier_public(&self) -> Seq<u8>;

    /// Checks a signature over a message: accepts exactly when the bytes are
    /// of signature length and Ed25519 verification accepts them under the
    /// held public key.
    fn verify(&self, msg: &Vec<u8>, sig: &Vec<u8>) -> (r: Result<(), SigError>)
        requires
            self.verifier_wf(),
        ensures
            r is Ok <==> sig@.len() == SIGNATURE_LENGTH && verify_ok(
                self.verifier_public(),
                msg@,
                sig@,
            ),
            r is Err ==> r->Err_0 is VerificationMismatch,
    ;
}

/// A signer bound to the private half of an Ed25519 key pair.
pub struct Signer {
    seed: Vec<u8>,
    public: Vec<u8>,
}

/// A verifier bound to an Ed25519 public key.
pub struct Verifier {
    public: Vec<u8>,
}

impl Signer {
    /// The bytes of the private seed the signer holds.
    pub closed spec fn seed_view(&self) -> Seq<u8> {
        self.seed@
    }

    /// The bytes of the public key that belongs to the held seed.
    pub closed spec fn public_view(&self) -> Seq<u8> {
        self.public@
    }

    /// The held seed has its fixed length and the public half belongs to it.
    pub open spec fn wf(&self) -> bool {
        &&& self.seed_view().len() == SECRET_KEY_LENGTH
        &&& self.public_view().len() == PUBLIC_KEY_LENGTH
        &&& self.public_view() == public_of(self.seed_view())
    }

    /// Binds a signer to the private half of the given key pair.
    pub fn for_key_pair(key_pair: &KeyPair) -> (r: Signer)
        requires
            key_pair.wf(),
        ensures
            r.wf(),
            r.seed_view() == key_pair.seed_view(),
            r.public_view() == key_pair.public_view(),
    {
        Signer { seed: key_pair.get_private_key(), public: key_pair.get_public_key() }
    }
}

impl Signs for Signer {
    open spec fn signer_wf(&self) -> bool {
        self.wf()
    }

    open spec fn signer_public(&self) -> Seq<u8> {
        self.public_view()
    }

    open spec fn spec_sign(&self, msg: Seq<u8>) -> Seq<u8> {
        signature_of(self.seed_view(), msg)
    }

    fn sign(&self, msg: &Vec<u8>) -> (r: Vec<u8>) {
        sign_bytes(&self.seed, msg)
    }
}

impl Verifier {
    /// The bytes of the public key the verifier holds.
    pub closed spec fn public_view(&self) -> Seq<u8> {
        self.public@
    }

    /// The held public key has its fixed length.
    pub open spec fn wf(&self) -> bool {
        self.public_view().len() == PUBLIC_KEY_LENGTH
    }

    /// Binds a verifier to the given public-key bytes.
    pub fn for_public_key(public: Vec<u8>) -> (r: Verifier)
        requires
            public@.len() == PUBLIC_KEY_LENGTH,
        ensures
            r.wf(),
            r.public_view() == public@,
    {
        Verifier { public }
    }

    /// Binds a verifier to the public half of the given key pair.
    pub fn for_key_pair(key_pair: &KeyPair) -> (r: Verifier)
        requires
            key_pair.wf(),
        ensures
            r.wf(),
            r.public_view() == key_pair.public_view(),
    {
        Verifier { public: key_pair.get_public_key() }
    }
}

impl Verifies for Verifier {
    open spec fn verifier_wf(&self) -> bool {
        self.wf()
    }

    open spec fn verifier_public(&self) -> Seq<u8> {
        self.public_view()
    }

    fn verify(&self, msg: &Vec<u8>, sig: &Vec<u8>) -> (r: Result<(), SigError>) {
        if sig.len() != SIGNATURE_LENGTH {
            return Err(SigError::VerificationMismatch);
        }
        if verify_bytes(&self.public, msg, sig) {
            Ok(())
        } else {
            Err(SigError::VerificationMismatch)
        }
    }
}

} // verus!
