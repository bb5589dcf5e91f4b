use bls_sig::BlsError;
use bls_sig::BlsKeypair;
use bls_sig::bls_sign;
use bls_sig::bls_verify;
use bls_sig::public_from_secret;

const DST: &[u8] = b"CRAB-V5";

/// Returns entropy number `i`: 32 bytes whose first bytes spell `i`.
fn entropy(i: u64) -> [u8; 32] {
    let mut e = [0u8; 32];
    e[..8].copy_from_slice(&i.to_le_bytes());
    e
}

/// Draws fresh entropy until key generation succeeds, as a host
/// application would.
fn find_keypair(start: u64) -> BlsKeypair {
    for i in start..start + 1000 {
        if let Ok(kp) = BlsKeypair::generate(&entropy(i)) {
            return kp;
        }
    }
    panic!("no valid scalar found in 1000 attempts");
}

#[test]
fn keypair_public_matches_secret() {
    let kp = find_keypair(0);
    let derived = public_from_secret(&kp.secret()).unwrap();
    assert_eq!(derived, kp.public());
    assert_eq!(kp.secret().len(), 32);
    assert_eq!(kp.public().len(), 48);
}

#[test]
fn sign_verify_roundtrip() {
    let kp = find_keypair(100);
    let sig = bls_sign(b"hello", &kp.secret(), DST).unwrap();
    assert_eq!(sig.len(), 96);
    let ok = bls_verify(b"hello", &kp.public(), &sig, DST).unwrap();
    assert!(ok);
}

#[test]
fn verify_rejects_wrong_message() {
    let kp = find_keypair(200);
    let sig = bls_sign(b"hello", &kp.secret(), DST).unwrap();
    let ok = bls_verify(b"hellp", &kp.public(), &sig, DST).unwrap();
    assert!(!ok);
}

#[test]
fn verify_rejects_wrong_key() {
    let kp = find_keypair(300);
    let other = find_keypair(400);
    assert_ne!(kp.public(), other.public());
    let sig = bls_sign(b"hello", &kp.secret(), DST).unwrap();
    let ok = bls_verify(b"hello", &other.public(), &sig, DST).unwrap();
    assert!(!ok);
}

#[test]
fn verify_rejects_wrong_dst() {
    let kp = find_keypair(500);
    let sig = bls_sign(b"hello", &kp.secret(), b"CRAB-V4").unwrap();
    let ok = bls_verify(b"hello", &kp.public(), &sig, DST).unwrap();
    assert!(!ok);
}

#[test]
fn verify_rejects_wrong_lengths() {
    let kp = find_keypair(600);
    let sig = bls_sign(b"hello", &kp.secret(), DST).unwrap();
    let short_pk = [0u8; 47];
    assert_eq!(
        bls_verify(b"hello", &short_pk, &sig, DST),
        Err(BlsError::InvalidLength)
    );
    let short_sig = [0u8; 95];
    assert_eq!(
        bls_verify(b"hello", &kp.public(), &short_sig, DST),
        Err(BlsError::InvalidLength)
    );
}

#[test]
fn verify_is_false_on_garbage_of_the_right_length() {
    let kp = find_keypair(700);
    let sig = bls_sign(b"hello", &kp.secret(), DST).unwrap();
    let bad_pk = [0xffu8; 48];
    assert_eq!(bls_verify(b"hello", &bad_pk, &sig, DST), Ok(false));
    let bad_sig = [0xffu8; 96];
    assert_eq!(bls_verify(b"hello", &kp.public(), &bad_sig, DST), Ok(false));
}

#[test]
fn sign_rejects_wrong_length_key() {
    let short = [0u8; 31];
    assert_eq!(bls_sign(b"hello", &short, DST), Err(BlsError::InvalidLength));
}

#[test]
fn sign_rejects_non_canonical_scalar() {
    let too_big = [0xffu8; 32];
    assert_eq!(bls_sign(b"hello", &too_big, DST), Err(BlsError::InvalidScalar));
}

#[test]
fn sign_is_deterministic() {
    let kp = find_keypair(800);
    let a = bls_sign(b"hello", &kp.secret(), DST).unwrap();
    let b = bls_sign(b"hello", &kp.secret(), DST).unwrap();
    assert_eq!(a, b);
}
