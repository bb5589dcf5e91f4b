use bls_sig::BlsError;
use bls_sig::derive_scalar;

/// The 32-byte big-endian encoding of the scalar 1.
fn scalar_one() -> [u8; 32] {
    let mut one = [0u8; 32];
    one[31] = 1;
    one
}

#[test]
fn derived_scalar_is_never_the_constant_one() {
    let one = scalar_one();
    let mut derived = 0u32;
    for i in 0..1000u64 {
        let mut e = [0u8; 32];
        e[..8].copy_from_slice(&i.to_le_bytes());
        if let Ok(s) = derive_scalar(&e) {
            derived += 1;
            assert_eq!(s.len(), 32);
            assert_ne!(s.as_slice(), &one);
        }
    }
    assert!(derived > 0);
}

#[test]
fn derivation_is_deterministic() {
    let e = [7u8; 32];
    assert_eq!(derive_scalar(&e), derive_scalar(&e));
}

#[test]
fn derivation_failure_is_an_explicit_error() {
    let mut saw_failure = false;
    for i in 0..1000u64 {
        let mut e = [0u8; 32];
        e[..8].copy_from_slice(&i.to_le_bytes());
        if let Err(err) = derive_scalar(&e) {
            assert_eq!(err, BlsError::InvalidScalar);
            saw_failure = true;
        }
    }
    assert!(saw_failure);
}
