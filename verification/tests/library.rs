use sigkit::keys::KeyPair;
use sigkit::sig::Signer;
use sigkit::sig::Signs;
use sigkit::sig::Verifier;
use sigkit::sig::Verifies;
use sigkit::SigError;
use sigkit::PUBLIC_KEY_LENGTH;
use sigkit::SECRET_KEY_LENGTH;
use sigkit::SIGNATURE_LENGTH;

fn fixed_seed(fill: u8) -> Vec<u8> {
    vec![fill; SECRET_KEY_LENGTH]
}

#[test]
fn round_trip_sign_verify() {
    let key_pair = KeyPair::generate().expect("random source");
    let signer = Signer::for_key_pair(&key_pair);
    let verifier = Verifier::for_key_pair(&key_pair);
    let message: Vec<u8> = b"Hello, Joe!".to_vec();
    let signature = signer.sign(&message);
    assert_eq!(signature.len(), SIGNATURE_LENGTH);
    assert!(verifier.verify(&message, &signature).is_ok());
}

#[test]
fn empty_message_signs_and_verifies() {
    let key_pair = KeyPair::generate().expect("random source");
    let signer = Signer::for_key_pair(&key_pair);
    let verifier = Verifier::for_key_pair(&key_pair);
    let message: Vec<u8> = Vec::new();
    let signature = signer.sign(&message);
    assert!(verifier.verify(&message, &signature).is_ok());
}

#[test]
fn tampered_message_fails() {
    let key_pair = KeyPair::generate().expect("random source");
    let signer = Signer::for_key_pair(&key_pair);
    let verifier = Verifier::for_key_pair(&key_pair);
    let message: Vec<u8> = b"Hello, Joe!".to_vec();
    let tampered: Vec<u8> = b"Hello, Joseph!".to_vec();
    let signature = signer.sign(&message);
    let outcome = verifier.verify(&tampered, &signature);
    assert_eq!(outcome, Err(SigError::VerificationMismatch));
}

#[test]
fn key_mismatch_fails() {
    let pair_a = KeyPair::generate().expect("random source");
    let pair_b = KeyPair::generate().expect("random source");
    assert_ne!(pair_a.get_public_key(), pair_b.get_public_key());
    let signer = Signer::for_key_pair(&pair_a);
    let verifier = Verifier::for_key_pair(&pair_b);
    let message: Vec<u8> = b"Hello, Joe!".to_vec();
    let signature = signer.sign(&message);
    let outcome = verifier.verify(&message, &signature);
    assert_eq!(outcome, Err(SigError::VerificationMismatch));
}

#[test]
fn derivation_is_deterministic() {
    let pair_one = KeyPair::from_seed(fixed_seed(7));
    let pair_two = KeyPair::from_seed(fixed_seed(7));
    assert_eq!(pair_one.get_public_key(), pair_two.get_public_key());
    assert_eq!(pair_one.get_public_key().len(), PUBLIC_KEY_LENGTH);
}

#[test]
fn signing_is_deterministic() {
    let message: Vec<u8> = b"Hello, Joe!".to_vec();
    let sig_one = Signer::for_key_pair(&KeyPair::from_seed(fixed_seed(7))).sign(&message);
    let sig_two = Signer::for_key_pair(&KeyPair::from_seed(fixed_seed(7))).sign(&message);
    assert_eq!(sig_one, sig_two);
}

#[test]
fn verifier_from_public_bytes_accepts() {
    let key_pair = KeyPair::from_seed(fixed_seed(3));
    let signer = Signer::for_key_pair(&key_pair);
    let verifier = Verifier::for_public_key(key_pair.get_public_key());
    let message: Vec<u8> = b"Hello, Joe!".to_vec();
    let signature = signer.sign(&message);
    assert!(verifier.verify(&message, &signature).is_ok());
}

#[test]
fn wrong_length_signature_rejected() {
    let key_pair = KeyPair::generate().expect("random source");
    let verifier = Verifier::for_key_pair(&key_pair);
    let message: Vec<u8> = b"Hello, Joe!".to_vec();
    let short: Vec<u8> = vec![0u8; SIGNATURE_LENGTH - 1];
    assert_eq!(verifier.verify(&message, &short), Err(SigError::VerificationMismatch));
}

#[test]
fn generated_pairs_differ() {
    let pair_a = KeyPair::generate().expect("random source");
    let pair_b = KeyPair::generate().expect("random source");
    assert_ne!(pair_a.get_private_key(), pair_b.get_private_key());
}

#[test]
fn keypair_bytes_are_seed_then_public() {
    let key_pair = KeyPair::from_seed(fixed_seed(9));
    let bytes = key_pair.to_keypair_bytes();
    assert_eq!(bytes.len(), SECRET_KEY_LENGTH + PUBLIC_KEY_LENGTH);
    assert_eq!(bytes[..SECRET_KEY_LENGTH].to_vec(), key_pair.get_private_key());
    assert_eq!(bytes[SECRET_KEY_LENGTH..].to_vec(), key_pair.get_public_key());
    assert_eq!(key_pair.get_private_key(), fixed_seed(9));
}
