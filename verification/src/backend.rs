//! Trust boundary around the pairing library (`blstrs`) and the digest
//! library (`sha2`).
//!
//! Every value that crosses this boundary is a plain byte string: scalars as
//! 32 canonical big-endian bytes, points of the first pairing group as 48
//! compressed bytes, points of the second pairing group as 96 compressed
//! bytes.  The uninterpreted spec functions below name the results of the
//! underlying cryptographic operations, which are deterministic functions of
//! their byte arguments alone.

use vstd::prelude::*;

use group::Curve;
use group::Group;
use sha2::Digest;

verus! {

/// The SHA-256 digest of `data` (32 bytes).
pub uninterp spec fn sha256_of(data: Seq<u8>) -> Seq<u8>;

/// Whether 32 big-endian bytes are the canonical encoding of a scalar field
/// element, i.e. whether `blstrs::Scalar::from_bytes_be` accepts them.
pub uninterp spec fn scalar_ok(b: Seq<u8>) -> bool;

/// Whether 48 bytes are a valid compressed encoding of a point of the first
/// pairing group, i.e. whether `blstrs::G1Projective::from_compressed`
/// accepts them (on curve and in the prime-order subgroup).
pub uninterp spec fn g1_point_ok(b: Seq<u8>) -> bool;

/// Whether 96 bytes are a valid compressed encoding of a point of the second
/// pairing group, i.e. whether `blstrs::G2Projective::from_compressed`
/// accepts them (on curve and in the prime-order subgroup).
pub uninterp spec fn g2_point_ok(b: Seq<u8>) -> bool;

/// The compressed encoding (48 bytes) of `sk · G`, where `G` is the fixed
/// generator of the first pairing group and `sk` is the scalar canonically
/// encoded by the 32 argument bytes.
pub uninterp spec fn g1_generator_mul(sk: Seq<u8>) -> Seq<u8>;

/// The compressed encoding (96 bytes) of the point of the second pairing
/// group that the domain-separated hash-to-curve construction assigns to the
/// message `msg` under the domain separation tag `dst`.
pub uninterp spec fn hash_to_g2(msg: Seq<u8>, dst: Seq<u8>) -> Seq<u8>;

/// The compressed encoding (96 bytes) of `sk · P`, where `P` is the point of
/// the second pairing group encoded by the 96 bytes `p` and `sk` is the
/// scalar canonically encoded by the 32 bytes `sk`.
pub uninterp spec fn g2_scalar_mul(p: Seq<u8>, sk: Seq<u8>) -> Seq<u8>;

/// Whether the pairing equation `e(G, S) == e(P, H)` holds, where `G` is the
/// generator of the first pairing group, `P` the point it encodes from `pk`
/// (48 compressed bytes), and `S` and `H` the points of the second pairing
/// group encoded by `sig` and `h` (96 compressed bytes each).
pub uninterp spec fn pairing_eq(pk: Seq<u8>, sig: Seq<u8>, h: Seq<u8>) -> bool;

/// Relies on `sha2::Sha256::digest`: the SHA-256 digest is a pure function
/// of the input bytes and is always 32 bytes long.
#[verifier::external_body]
pub(crate) fn sha256_digest(data: &[u8]) -> (r: Vec<u8>)
    ensures
        r@ == sha256_of(data@),
        r@.len() == 32,
{
    sha2::Sha256::digest(data).to_vec()
}

/// Relies on `blstrs::Scalar::from_bytes_be`: it returns a scalar exactly
/// when the 32 big-endian bytes are the canonical encoding of a field
/// element (an integer below the group order).
#[verifier::external_body]
pub(crate) fn scalar_is_canonical(b: &[u8]) -> (r: bool)
    requires
        b@.len() == 32,
    ensures
        r == scalar_ok(b@),
{
    let arr: [u8; 32] = b.try_into().unwrap();
    blstrs::Scalar::from_bytes_be(&arr).is_some().unwrap_u8() == 1
}

/// Relies on `blstrs::Scalar::from_bytes_be`, scalar multiplication on
/// `blstrs::G1Projective`, and `blstrs::G1Affine::to_compressed`: the result
/// is the compressed encoding of `sk · G`, a group element, which is 48
/// bytes long and is accepted back by `from_compressed` (compression round
/// trips through decompression).
#[verifier::external_body]
pub(crate) fn g1_mul_generator(sk: &[u8]) -> (r: Vec<u8>)
    requires
        sk@.len() == 32,
        scalar_ok(sk@),
    ensures
        r@ == g1_generator_mul(sk@),
        r@.len() == 48,
        g1_point_ok(r@),
{
    let arr: [u8; 32] = sk.try_into().unwrap();
    let s = blstrs::Scalar::from_bytes_be(&arr).unwrap();
    let p = blstrs::G1Projective::generator() * s;
    p.to_affine().to_compressed().to_vec()
}

/// Relies on `blstrs::G2Projective::hash_to_curve` (with empty augmentation
/// string) and `blstrs::G2Affine::to_compressed`: hash-to-curve maps any
/// message and tag deterministically to a group element, whose compressed
/// encoding is 96 bytes and is accepted back by `from_compressed`.
#[verifier::external_body]
pub(crate) fn g2_hash_to_curve(msg: &[u8], dst: &[u8]) -> (r: Vec<u8>)
    ensures
        r@ == hash_to_g2(msg@, dst@),
        r@.len() == 96,
        g2_point_ok(r@),
{
    let p = blstrs::G2Projective::hash_to_curve(msg, dst, &[]);
    p.to_affine().to_compressed().to_vec()
}

/// Relies on `blstrs::G2Projective::from_compressed`, scalar multiplication
/// on `blstrs::G2Projective`, and `blstrs::G2Affine::to_compressed`: the
/// result is the compressed encoding of `sk · P`, a group element, which is
/// 96 bytes long and is accepted back by `from_compressed`.
#[verifier::external_body]
pub(crate) fn g2_mul(p: &[u8], sk: &[u8]) -> (r: Vec<u8>)
    requires
        p@.len() == 96,
        g2_point_ok(p@),
        sk@.len() == 32,
        scalar_ok(sk@),
    ensures
        r@ == g2_scalar_mul(p@, sk@),
        r@.len() == 96,
        g2_point_ok(r@),
{
    let parr: [u8; 96] = p.try_into().unwrap();
    let sarr: [u8; 32] = sk.try_into().unwrap();
    let point = blstrs::G2Projective::from_compressed(&parr).unwrap();
    let s = blstrs::Scalar::from_bytes_be(&sarr).unwrap();
    (point * s).to_affine().to_compressed().to_vec()
}

/// Relies on `blstrs::G1Projective::from_compressed`: it accepts exactly the
/// valid compressed encodings (on curve, in the prime-order subgroup,
/// including the encoding of the identity).  In particular it accepts the
/// compressed encoding of any generator multiple, since `to_compressed` of a
/// group element round-trips through `from_compressed`.
#[verifier::external_body]
pub(crate) fn g1_decode_check(b: &[u8]) -> (r: bool)
    requires
        b@.len() == 48,
    ensures
        r == g1_point_ok(b@),
        forall|sk: Seq<u8>|
            sk.len() == 32 && scalar_ok(sk) && #[trigger] g1_generator_mul(sk) == b@ ==> r,
{
    let arr: [u8; 48] = b.try_into().unwrap();
    blstrs::G1Projective::from_compressed(&arr).is_some().unwrap_u8() == 1
}

/// Relies on `blstrs::G2Projective::from_compressed`: it accepts exactly the
/// valid compressed encodings (on curve, in the prime-order subgroup,
/// including the encoding of the identity).  In particular it accepts the
/// compressed encoding of any scalar multiple of a group element, since
/// scaling stays in the group and `to_compressed` round-trips.
#[verifier::external_body]
pub(crate) fn g2_decode_check(b: &[u8]) -> (r: bool)
    requires
        b@.len() == 96,
    ensures
        r == g2_point_ok(b@),
        forall|p: Seq<u8>, sk: Seq<u8>|
            p.len() == 96 && g2_point_ok(p) && sk.len() == 32 && scalar_ok(sk)
                && #[trigger] g2_scalar_mul(p, sk) == b@ ==> r,
{
    let arr: [u8; 96] = b.try_into().unwrap();
    blstrs::G2Projective::from_compressed(&arr).is_some().unwrap_u8() == 1
}

/// Relies on `blstrs::pairing` and `blstrs::G1Projective::generator`: the
/// pairing is a bilinear map, so `e(G, sk · H) == e(sk · G, H)` for every
/// scalar `sk` and group element `H`; hence the equation holds whenever `pk`
/// encodes `sk · G` and `sig` encodes `sk · H` for the point `H` encoded by
/// `h`.  Also relies on `from_compressed` decoding the three arguments,
/// which the preconditions guarantee.
#[verifier::external_body]
pub(crate) fn pairing_check(pk: &[u8], sig: &[u8], h: &[u8]) -> (r: bool)
    requires
        pk@.len() == 48,
        g1_point_ok(pk@),
        sig@.len() == 96,
        g2_point_ok(sig@),
        h@.len() == 96,
        g2_point_ok(h@),
    ensures
        r == pairing_eq(pk@, sig@, h@),
        forall|sk: Seq<u8>|
            sk.len() == 32 && scalar_ok(sk) && pk@ == #[trigger] g1_generator_mul(sk)
                && sig@ == g2_scalar_mul(h@, sk) ==> r,
{
    let pk_arr: [u8; 48] = pk.try_into().unwrap();
    let sig_arr: [u8; 96] = sig.try_into().unwrap();
    let h_arr: [u8; 96] = h.try_into().unwrap();
    let pk_point = blstrs::G1Projective::from_compressed(&pk_arr).unwrap().to_affine();
    let sig_point = blstrs::G2Projective::from_compressed(&sig_arr).unwrap().to_affine();
    let h_point = blstrs::G2Projective::from_compressed(&h_arr).unwrap().to_affine();
    let g = blstrs::G1Projective::generator().to_affine();
    blstrs::pairing(&g, &sig_point) == blstrs::pairing(&pk_point, &h_point)
}

} // verus!
