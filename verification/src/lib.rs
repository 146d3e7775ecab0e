use vstd::prelude::*;

pub mod b64;
pub mod keys;
pub mod provider;
pub mod sig;

verus! {

/// Length in bytes of an Ed25519 private seed.
pub const SECRET_KEY_LENGTH: usize = 32;

/// Length in bytes of an Ed25519 public key.
pub const PUBLIC_KEY_LENGTH: usize = 32;

/// Length in bytes of an Ed25519 signature.
pub const SIGNATURE_LENGTH: usize = 64;

/// Length in bytes of a serialized key pair: the seed followed by the public key.
pub const KEYPAIR_LENGTH: usize = 64;

/// The failures the library reports.
#[derive(Clone, Copy, Debug, PartialEq, Eq, Structural)]
pub enum SigError {
    /// The secure random source was unavailable, so no key pair exists.
    GenerationFailure,
    /// A signature did not validate against the given message and public key.
    VerificationMismatch,
    /// Text was not valid base64, or decoded to an unexpected number of bytes.
    EncodingFailure,
}

} // verus!
