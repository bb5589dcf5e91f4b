use bls_sig::BlsError;
use bls_sig::BlsKeypair;
use bls_sig::PublicKey;
use bls_sig::SecretKey;
use bls_sig::Signature;
use bls_sig::bls_sign;

/// Draws fresh entropy until key generation succeeds.
fn keypair_from(start: u64) -> BlsKeypair {
    for i in start..start + 1000 {
        let mut e = [0u8; 32];
        e[..8].copy_from_slice(&i.to_le_bytes());
        if let Ok(kp) = BlsKeypair::generate(&e) {
            return kp;
        }
    }
    panic!("no valid scalar found in 1000 attempts");
}

#[test]
fn public_key_decode_encode_roundtrip() {
    let kp = keypair_from(0);
    let bytes = kp.public();
    let point = PublicKey::decode(&bytes).unwrap();
    assert_eq!(point.encode(), bytes);
}

#[test]
fn signature_decode_encode_roundtrip() {
    let kp = keypair_from(100);
    let sig_bytes = bls_sign(b"hello", &kp.secret(), b"CRAB-V5").unwrap();
    let sig = Signature::decode(&sig_bytes).unwrap();
    assert_eq!(sig.encode(), sig_bytes);
}

#[test]
fn secret_key_decode_encode_roundtrip() {
    let kp = keypair_from(200);
    let bytes = kp.secret();
    let sk = SecretKey::decode(&bytes).unwrap();
    assert_eq!(sk.encode(), bytes);
}

#[test]
fn public_key_decode_rejects_wrong_length() {
    assert!(matches!(
        PublicKey::decode(&[0u8; 47]),
        Err(BlsError::InvalidLength)
    ));
    assert!(matches!(
        PublicKey::decode(&[0u8; 96]),
        Err(BlsError::InvalidLength)
    ));
}

#[test]
fn public_key_decode_rejects_invalid_point() {
    assert!(matches!(
        PublicKey::decode(&[0xffu8; 48]),
        Err(BlsError::InvalidEncoding)
    ));
}

#[test]
fn signature_decode_rejects_wrong_length() {
    assert!(matches!(
        Signature::decode(&[0u8; 95]),
        Err(BlsError::InvalidLength)
    ));
}

#[test]
fn signature_decode_rejects_invalid_point() {
    assert!(matches!(
        Signature::decode(&[0xffu8; 96]),
        Err(BlsError::InvalidEncoding)
    ));
}

#[test]
fn secret_key_decode_rejects_wrong_length() {
    assert!(matches!(
        SecretKey::decode(&[0u8; 31]),
        Err(BlsError::InvalidLength)
    ));
}

#[test]
fn secret_key_decode_rejects_non_canonical_bytes() {
    assert!(matches!(
        SecretKey::decode(&[0xffu8; 32]),
        Err(BlsError::InvalidScalar)
    ));
}
