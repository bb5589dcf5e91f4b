//! Signing and verification.
//!
//! A signature on a message is the hash-to-curve image of the message,
//! scaled by the secret key; verification checks the pairing equation
//! `e(G, Signature) == e(PublicKey, HashToCurve(Message, DST))`.  The domain
//! separation tag is explicit configuration: signer and verifier must use
//! the same tag or verification fails.

use vstd::prelude::*;

use crate::BlsError;
use crate::backend::g1_decode_check;
use crate::backend::g1_generator_mul;
use crate::backend::g1_point_ok;
use crate::backend::g2_decode_check;
use crate::backend::g2_hash_to_curve;
use crate::backend::g2_mul;
use crate::backend::g2_point_ok;
use crate::backend::g2_scalar_mul;
use crate::backend::hash_to_g2;
use crate::backend::pairing_check;
use crate::backend::pairing_eq;
use crate::backend::scalar_is_canonical;
use crate::backend::scalar_ok;

verus! {

/// The signature that the scheme assigns to `msg` under the secret key
/// `sk` (32 canonical big-endian bytes) and domain separation tag `dst`:
/// the compressed encoding of `sk · HashToCurve(msg, dst)`.
pub open spec fn spec_signature(msg: Seq<u8>, sk: Seq<u8>, dst: Seq<u8>) -> Seq<u8> {
    g2_scalar_mul(hash_to_g2(msg, dst), sk)
}

/// Whether verification succeeds on decoded inputs: both buffers decode to
/// group elements and the pairing equation holds between them and the
/// hash-to-curve image of the message.
pub open spec fn spec_verifies(msg: Seq<u8>, pk: Seq<u8>, sig: Seq<u8>, dst: Seq<u8>) -> bool {
    &&& g1_point_ok(pk)
    &&& g2_point_ok(sig)
    &&& pairing_eq(pk, sig, hash_to_g2(msg, dst))
}

/// Signs `message` with the 32-byte secret key under the domain separation
/// tag `dst`, returning the 96-byte compressed signature.
///
/// The signature is a pure function of message, key and tag.  A key of the
/// wrong length is rejected with `InvalidLength` before any cryptographic
/// work; a 32-byte key that is not a canonical scalar encoding is rejected
/// with `InvalidScalar` — it is never replaced by a default value.
pub fn bls_sign(message: &[u8], secret_bytes: &[u8], dst: &[u8]) -> (r: Result<Vec<u8>, BlsError>)
    ensures
        r is Ok <==> secret_bytes@.len() == 32 && scalar_ok(secret_bytes@),
        r is Ok ==> r->Ok_0@ == spec_signature(message@, secret_bytes@, dst@)
            && r->Ok_0@.len() == 96 && g2_point_ok(r->Ok_0@),
        secret_bytes@.len() != 32 ==> r is Err && r->Err_0 == BlsError::InvalidLength,
        secret_bytes@.len() == 32 && !scalar_ok(secret_bytes@) ==> r is Err
            && r->Err_0 == BlsError::InvalidScalar,
{
    if secret_bytes.len() != 32 {
        return Err(BlsError::InvalidLength);
    }
    if !scalar_is_canonical(secret_bytes) {
        return Err(BlsError::InvalidScalar);
    }
    let h = g2_hash_to_curve(message, dst);
    Ok(g2_mul(h.as_slice(), secret_bytes))
}

/// Verifies a signature on `message` against a 48-byte compressed public
/// key under the domain separation tag `dst`.
///
/// Buffers of the wrong length are an input-contract violation and are
/// rejected with `InvalidLength`.  Buffers of the right length that do not
/// decode to group elements make verification return `Ok(false)` — garbage
/// from a peer is a normal outcome, not an error.  Otherwise the result is
/// the pairing equation check.
///
/// The final clause below is the scheme's completeness law: a signature
/// produced by `bls_sign` from a secret key verifies against the public key
/// `sk · G` derived from that key, whenever both sides use the same tag.
pub fn bls_verify(message: &[u8], pubkey_bytes: &[u8], sig_bytes: &[u8], dst: &[u8]) -> (r:
    Result<bool, BlsError>)
    ensures
        r is Ok <==> pubkey_bytes@.len() == 48 && sig_bytes@.len() == 96,
        r is Err ==> r->Err_0 == BlsError::InvalidLength,
        r is Ok ==> r->Ok_0 == spec_verifies(message@, pubkey_bytes@, sig_bytes@, dst@),
        forall|sk: Seq<u8>|
            sk.len() == 32 && scalar_ok(sk) && pubkey_bytes@ == #[trigger] g1_generator_mul(sk)
                && pubkey_bytes@.len() == 48 && sig_bytes@ == spec_signature(message@, sk, dst@)
                && sig_bytes@.len() == 96 ==> r is Ok && r->Ok_0 == true,
{
    if pubkey_bytes.len() != 48 || sig_bytes.len() != 96 {
        return Err(BlsError::InvalidLength);
    }
    let pk_valid = g1_decode_check(pubkey_bytes);
    let sig_valid = g2_decode_check(sig_bytes);
    let h = g2_hash_to_curve(message, dst);
    if !pk_valid || !sig_valid {
        return Ok(false);
    }
    Ok(pairing_check(pubkey_bytes, sig_bytes, h.as_slice()))
}

} // verus!
