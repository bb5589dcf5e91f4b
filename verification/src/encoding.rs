//! Typed, validated encodings of the scheme's values.
//!
//! Each type wraps the canonical byte serialization of one kind of value —
//! a 32-byte big-endian secret scalar, a 48-byte compressed point of the
//! first pairing group, a 96-byte compressed point of the second — and can
//! only be built by a decoder that checked length and validity.  Encoding
//! returns exactly the stored bytes, so decoding and encoding round-trip.

use vstd::prelude::*;

use crate::BlsError;
use crate::backend::g1_decode_check;
use crate::backend::g1_point_ok;
use crate::backend::g2_decode_check;
use crate::backend::g2_point_ok;
use crate::backend::scalar_is_canonical;
use crate::backend::scalar_ok;

verus! {

/// What decoding 48 bytes as a public key yields: the same bytes when they
/// are a valid compressed encoding of a group element, nothing otherwise.
pub open spec fn spec_decode_public_key(b: Seq<u8>) -> Option<Seq<u8>> {
    if b.len() == 48 && g1_point_ok(b) {
        Some(b)
    } else {
        None
    }
}

/// What decoding 96 bytes as a signature yields.
pub open spec fn spec_decode_signature(b: Seq<u8>) -> Option<Seq<u8>> {
    if b.len() == 96 && g2_point_ok(b) {
        Some(b)
    } else {
        None
    }
}

/// What decoding 32 bytes as a secret scalar yields.
pub open spec fn spec_decode_secret_key(b: Seq<u8>) -> Option<Seq<u8>> {
    if b.len() == 32 && scalar_ok(b) {
        Some(b)
    } else {
        None
    }
}

/// A validated public key: 48 bytes that decode to a point of the first
/// pairing group.
pub struct PublicKey {
    bytes: Vec<u8>,
}

/// A validated signature: 96 bytes that decode to a point of the second
/// pairing group.
pub struct Signature {
    bytes: Vec<u8>,
}

/// A validated secret key: 32 bytes that are the canonical big-endian
/// encoding of a scalar field element.
pub struct SecretKey {
    bytes: Vec<u8>,
}

impl View for PublicKey {
    type V = Seq<u8>;

    closed spec fn view(&self) -> Seq<u8> {
        self.bytes@
    }
}

impl View for Signature {
    type V = Seq<u8>;

    closed spec fn view(&self) -> Seq<u8> {
        self.bytes@
    }
}

impl View for SecretKey {
    type V = Seq<u8>;

    closed spec fn view(&self) -> Seq<u8> {
        self.bytes@
    }
}

impl PublicKey {
    /// Well-formedness: the stored bytes are a valid compressed encoding.
    pub open spec fn wf(&self) -> bool {
        self@.len() == 48 && g1_point_ok(self@)
    }

    /// Decodes a compressed public key, rejecting a buffer of the wrong
    /// length with `InvalidLength` and a 48-byte buffer that is not a valid
    /// group element with `InvalidEncoding`.
    pub fn decode(bytes: &[u8]) -> (r: Result<PublicKey, BlsError>)
        ensures
            r is Ok <==> spec_decode_public_key(bytes@) is Some,
            r is Ok ==> r->Ok_0@ == bytes@ && r->Ok_0.wf(),
            bytes@.len() != 48 ==> r is Err && r->Err_0 == BlsError::InvalidLength,
            bytes@.len() == 48 && !g1_point_ok(bytes@) ==> r is Err && r->Err_0
                == BlsError::InvalidEncoding,
    {
        if bytes.len() != 48 {
            return Err(BlsError::InvalidLength);
        }
        if !g1_decode_check(bytes) {
            return Err(BlsError::InvalidEncoding);
        }
        Ok(PublicKey { bytes: vstd::slice::slice_to_vec(bytes) })
    }

    /// Encodes the public key: exactly the bytes it was decoded from.
    pub fn encode(&self) -> (r: Vec<u8>)
        ensures
            r@ == self@,
    {
        self.bytes.clone()
    }
}

impl Signature {
    /// Well-formedness: the stored bytes are a valid compressed encoding.
    pub open spec fn wf(&self) -> bool {
        self@.len() == 96 && g2_point_ok(self@)
    }

    /// Decodes a compressed signature, rejecting a buffer of the wrong
    /// length with `InvalidLength` and a 96-byte buffer that is not a valid
    /// group element with `InvalidEncoding`.
    pub fn decode(bytes: &[u8]) -> (r: Result<Signature, BlsError>)
        ensures
            r is Ok <==> spec_decode_signature(bytes@) is Some,
            r is Ok ==> r->Ok_0@ == bytes@ && r->Ok_0.wf(),
            bytes@.len() != 96 ==> r is Err && r->Err_0 == BlsError::InvalidLength,
            bytes@.len() == 96 && !g2_point_ok(bytes@) ==> r is Err && r->Err_0
                == BlsError::InvalidEncoding,
    {
        if bytes.len() != 96 {
            return Err(BlsError::InvalidLength);
        }
        if !g2_decode_check(bytes) {
            return Err(BlsError::InvalidEncoding);
        }
        Ok(Signature { bytes: vstd::slice::slice_to_vec(bytes) })
    }

    /// Encodes the signature: exactly the bytes it was decoded from.
    pub fn encode(&self) -> (r: Vec<u8>)
        ensures
            r@ == self@,
    {
        self.bytes.clone()
    }
}

impl SecretKey {
    /// Well-formedness: the stored bytes are a canonical scalar encoding.
    pub open spec fn wf(&self) -> bool {
        self@.len() == 32 && scalar_ok(self@)
    }

    /// Decodes a secret scalar, rejecting a buffer of the wrong length with
    /// `InvalidLength` and a 32-byte buffer that is not a canonical field
    /// element with `InvalidScalar`.
    pub fn decode(bytes: &[u8]) -> (r: Result<SecretKey, BlsError>)
        ensures
            r is Ok <==> spec_decode_secret_key(bytes@) is Some,
            r is Ok ==> r->Ok_0@ == bytes@ && r->Ok_0.wf(),
            bytes@.len() != 32 ==> r is Err && r->Err_0 == BlsError::InvalidLength,
            bytes@.len() == 32 && !scalar_ok(bytes@) ==> r is Err && r->Err_0
                == BlsError::InvalidScalar,
    {
        if bytes.len() != 32 {
            return Err(BlsError::InvalidLength);
        }
        if !scalar_is_canonical(bytes) {
            return Err(BlsError::InvalidScalar);
        }
        Ok(SecretKey { bytes: vstd::slice::slice_to_vec(bytes) })
    }

    /// Encodes the secret scalar: exactly the bytes it was decoded from.
    pub fn encode(&self) -> (r: Vec<u8>)
        ensures
            r@ == self@,
    {
        self.bytes.clone()
    }
}

/// Law: decoding the encoding of a valid public key gives back that key.
/// `encode` returns exactly the key's bytes, and on those bytes decoding
/// succeeds and returns the same bytes.
pub proof fn lemma_public_key_roundtrip(p: PublicKey)
    ensures
        p.wf() ==> spec_decode_public_key(p@) == Some(p@),
{
}

/// Law: decoding the encoding of a valid signature gives back that
/// signature.
pub proof fn lemma_signature_roundtrip(s: Signature)
    ensures
        s.wf() ==> spec_decode_signature(s@) == Some(s@),
{
}

/// Law: decoding the encoding of a valid secret scalar gives back that
/// scalar.
pub proof fn lemma_secret_key_roundtrip(k: SecretKey)
    ensures
        k.wf() ==> spec_decode_secret_key(k@) == Some(k@),
{
}

} // verus!
