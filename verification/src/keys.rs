//! Ed25519 key pairs: a 32-byte private seed and the 32-byte public key
//! derived from it.

use vstd::prelude::*;

use crate::provider::derive_public;
use crate::provider::public_of;
use crate::provider::random_seed;
use crate::SigError;
use crate::KEYPAIR_LENGTH;
use crate::PUBLIC_KEY_LENGTH;
use crate::SECRET_KEY_LENGTH;

verus! {

/// An Ed25519 key pair. The public half is always the one the provider
/// derives from the private seed, so the two halves never fall out of step.
pub struct KeyPair {
    seed: Vec<u8>,
    public: Vec<u8>,
}

impl KeyPair {
    /// The bytes of the private seed.
    pub closed spec fn seed_view(&self) -> Seq<u8> {
        self.seed@
    }

    /// The bytes of the public key.
    pub closed spec fn public_view(&self) -> Seq<u8> {
        self.public@
    }

    /// Both halves have their fixed lengths and the public half is derived
    /// from the seed.
    pub open spec fn wf(&self) -> bool {
        &&& self.seed_view().len() == SECRET_KEY_LENGTH
        &&& self.public_view().len() == PUBLIC_KEY_LENGTH
        &&& self.public_view() == public_of(self.seed_view())
    }

    /// Generates a key pair from the operating system's secure random source,
    /// or reports that the source failed.
    pub fn generate() -> (r: Result<KeyPair, SigError>)
        ensures
            r is Ok ==> r->Ok_0.wf(),
            r is Err ==> r->Err_0 is GenerationFailure,
    {
        match random_seed() {
            Ok(seed) => {
                let public = derive_public(&seed);
                Ok(KeyPair { seed, public })
            },
            Err(e) => Err(e),
        }
    }

    /// Builds the key pair whose private half is the given seed. The public
    /// half is a function of the seed alone, so the same seed always gives
    /// the same key pair.
    pub fn from_seed(seed: Vec<u8>) -> (r: KeyPair)
        requires
            seed@.len() == SECRET_KEY_LENGTH,
        ensures
            r.wf(),
            r.seed_view() == seed@,
            r.public_view() == public_of(seed@),
    {
        let public = derive_public(&seed);
        KeyPair { seed, public }
    }

    /// The 64 serialized bytes of the pair: the seed followed by the public
    /// key.
    pub fn to_keypair_bytes(&self) -> (r: Vec<u8>)
        requires
            self.wf(),
        ensures
            r@ == self.seed_view() + self.public_view(),
            r@.len() == KEYPAIR_LENGTH,
    {
        let mut out: Vec<u8> = Vec::new();
        let mut i: usize = 0;
        while i < self.seed.len()
            invariant
                i <= self.seed@.len(),
                out@ =~= self.seed@.subrange(0, i as int),
            decreases self.seed@.len() - i,
        {
            out.push(self.seed[i]);
            i += 1;
        }
        let mut j: usize = 0;
        while j < self.public.len()
            invariant
                j <= self.public@.len(),
                out@ =~= self.seed@ + self.public@.subrange(0, j as int),
            decreases self.public@.len() - j,
        {
            out.push(self.public[j]);
            j += 1;
        }
        proof {
            assert(out@ =~= self.seed_view() + self.public_view());
        }
        out
    }

    /// The private seed, copied out of the serialized key-pair bytes.
    pub fn get_private_key(&self) -> (r: Vec<u8>)
        requires
            self.wf(),
        ensures
            r@ == self.seed_view(),
    {
        let kp = self.to_keypair_bytes();
        let mut out: Vec<u8> = Vec::new();
        let mut i: usize = 0;
        while i < SECRET_KEY_LENGTH
            invariant
                i <= SECRET_KEY_LENGTH,
                kp@ == self.seed_view() + self.public_view(),
                self.wf(),
                out@ =~= kp@.subrange(0, i as int),
            decreases SECRET_KEY_LENGTH - i,
        {
            out.push(kp[i]);
            i += 1;
        }
        proof {
            assert(out@ =~= self.seed_view());
        }
        out
    }

    /// The public key, copied out of the serialized key-pair bytes.
    pub fn get_public_key(&self) -> (r: Vec<u8>)
        requires
            self.wf(),
        ensures
            r@ == self.public_view(),
    {
        let kp = self.to_keypair_bytes();
        let mut out: Vec<u8> = Vec::new();
        let mut i: usize = SECRET_KEY_LENGTH;
        while i < KEYPAIR_LENGTH
            invariant
                SECRET_KEY_LENGTH <= i <= KEYPAIR_LENGTH,
                kp@ == self.seed_view() + self.public_view(),
                self.wf(),
                out@ =~= kp@.subrange(SECRET_KEY_LENGTH as int, i as int),
            decreases KEYPAIR_LENGTH - i,
        {
            out.push(kp[i]);
            i += 1;
        }
        proof {
            assert(out@ =~= self.public_view());
        }
        out
    }
}

/// Deriving the public key from a given private seed is deterministic: two
/// key pairs built over the same seed carry identical public-key bytes.
pub proof fn lemma_derivation_deterministic(seed: Seq<u8>, a: KeyPair, b: KeyPair)
    requires
        a.wf(),
        b.wf(),
        a.seed_view() == seed,
        b.seed_view() == seed,
    ensures
        a.public_view() == b.public_view(),
{
}

} // verus!
