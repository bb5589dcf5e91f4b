//! Scalar derivation from entropy and keypair generation.
//!
//! The caller supplies 32 bytes of entropy drawn from a secure source; this
//! module whitens them through SHA-256 and interprets the digest as a
//! big-endian scalar.  When the digest is not a canonical scalar encoding
//! the derivation fails with `InvalidScalar` so that the caller can retry
//! with fresh entropy; no fixed fallback value is ever substituted.

use vstd::prelude::*;

use crate::BlsError;
use crate::backend::g1_generator_mul;
use crate::backend::g1_mul_generator;
use crate::backend::g1_point_ok;
use crate::backend::scalar_is_canonical;
use crate::backend::scalar_ok;
use crate::backend::sha256_digest;
use crate::backend::sha256_of;

verus! {

/// Derives a secret scalar from 32 bytes of entropy: the entropy is hashed
/// with SHA-256 and the digest is accepted exactly when it is the canonical
/// big-endian encoding of a scalar field element.  The result is always the
/// digest itself — never a substituted constant — or an `InvalidScalar`
/// error on which the caller should draw fresh entropy and retry.
pub fn derive_scalar(entropy: &[u8; 32]) -> (r: Result<Vec<u8>, BlsError>)
    ensures
        r is Ok <==> scalar_ok(sha256_of(entropy@)),
        r is Ok ==> r->Ok_0@ == sha256_of(entropy@) && r->Ok_0@.len() == 32,
        r is Err ==> r->Err_0 == BlsError::InvalidScalar,
{
    let digest = sha256_digest(entropy.as_slice());
    if scalar_is_canonical(digest.as_slice()) {
        Ok(digest)
    } else {
        Err(BlsError::InvalidScalar)
    }
}

/// Computes the public key that belongs to a 32-byte secret key: the
/// compressed encoding of `sk · G` for the fixed generator `G` of the first
/// pairing group.
pub fn public_from_secret(secret_bytes: &[u8]) -> (r: Result<Vec<u8>, BlsError>)
    ensures
        r is Ok <==> secret_bytes@.len() == 32 && scalar_ok(secret_bytes@),
        r is Ok ==> r->Ok_0@ == g1_generator_mul(secret_bytes@) && r->Ok_0@.len() == 48
            && g1_point_ok(r->Ok_0@),
        secret_bytes@.len() != 32 ==> r is Err && r->Err_0 == BlsError::InvalidLength,
        secret_bytes@.len() == 32 && !scalar_ok(secret_bytes@) ==> r is Err
            && r->Err_0 == BlsError::InvalidScalar,
{
    if secret_bytes.len() != 32 {
        return Err(BlsError::InvalidLength);
    }
    if !scalar_is_canonical(secret_bytes) {
        return Err(BlsError::InvalidScalar);
    }
    Ok(g1_mul_generator(secret_bytes))
}

/// A freshly generated keypair: a 32-byte big-endian secret scalar and the
/// 48-byte compressed public key derived from it.
pub struct BlsKeypair {
    secret: Vec<u8>,
    public: Vec<u8>,
}

impl BlsKeypair {
    /// The secret key bytes, as a mathematical sequence.
    pub closed spec fn secret_view(&self) -> Seq<u8> {
        self.secret@
    }

    /// The public key bytes, as a mathematical sequence.
    pub closed spec fn public_view(&self) -> Seq<u8> {
        self.public@
    }

    /// Well-formedness: the secret is a canonical 32-byte scalar encoding
    /// and the public key is the 48-byte compressed encoding of
    /// `secret · G`, a valid group element.
    pub open spec fn wf(&self) -> bool {
        &&& self.secret_view().len() == 32
        &&& scalar_ok(self.secret_view())
        &&& self.public_view() == g1_generator_mul(self.secret_view())
        &&& self.public_view().len() == 48
        &&& g1_point_ok(self.public_view())
    }

    /// Generates a keypair from 32 bytes of caller-supplied entropy.  The
    /// secret key is the scalar derived from the entropy and the public key
    /// is `secret · G`; when the derived digest is not a canonical scalar
    /// the generation fails with `InvalidScalar` and the caller should
    /// retry with fresh entropy.
    pub fn generate(entropy: &[u8; 32]) -> (r: Result<BlsKeypair, BlsError>)
        ensures
            r is Ok <==> scalar_ok(sha256_of(entropy@)),
            r is Ok ==> r->Ok_0.wf() && r->Ok_0.secret_view() == sha256_of(entropy@),
            r is Err ==> r->Err_0 == BlsError::InvalidScalar,
    {
        let secret = match derive_scalar(entropy) {
            Ok(s) => s,
            Err(e) => {
                return Err(e);
            },
        };
        let public = g1_mul_generator(secret.as_slice());
        Ok(BlsKeypair { secret, public })
    }

    /// Same as `generate`: the constructor of a keypair is a fresh
    /// generation from the supplied entropy.
    pub fn new(entropy: &[u8; 32]) -> (r: Result<BlsKeypair, BlsError>)
        ensures
            r is Ok <==> scalar_ok(sha256_of(entropy@)),
            r is Ok ==> r->Ok_0.wf() && r->Ok_0.secret_view() == sha256_of(entropy@),
            r is Err ==> r->Err_0 == BlsError::InvalidScalar,
    {
        Self::generate(entropy)
    }

    /// The secret key as 32 big-endian bytes.
    pub fn secret(&self) -> (r: Vec<u8>)
        ensures
            r@ == self.secret_view(),
    {
        self.secret.clone()
    }

    /// The public key as 48 compressed bytes.
    pub fn public(&self) -> (r: Vec<u8>)
        ensures
            r@ == self.public_view(),
    {
        self.public.clone()
    }
}

} // verus!
