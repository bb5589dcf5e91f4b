//! A pairing-based (BLS-style) signature library over a BLS12-381-class
//! curve: keypair generation from caller-supplied entropy, domain-separated
//! hash-to-curve signing, and pairing-equation verification.
//!
//! Secret keys are 32-byte big-endian scalars, public keys 48-byte
//! compressed points of the first pairing group, signatures 96-byte
//! compressed points of the second.  The curve and pairing arithmetic comes
//! from the `blstrs` library behind the trust boundary in [`backend`]; the
//! validation, derivation and protocol logic around it is verified.

pub mod backend;
pub mod encoding;
pub mod keypair;
pub mod protocol;

pub use crate::encoding::PublicKey;
pub use crate::encoding::SecretKey;
pub use crate::encoding::Signature;

pub use crate::protocol::bls_sign;
pub use crate::protocol::bls_verify;

pub use crate::keypair::BlsKeypair;
pub use crate::keypair::derive_scalar;
pub use crate::keypair::public_from_secret;

use vstd::prelude::*;

verus! {

/// The error kinds a caller can receive from this library.
///
/// `InvalidLength` reports a key or signature buffer of the wrong byte
/// length; `InvalidEncoding` reports a buffer of the right length that does
/// not decode to a valid group element; `InvalidScalar` reports bytes that do
/// not parse as a canonical scalar field element.
#[derive(Clone, Copy, Debug, PartialEq, Eq, Structural)]
pub enum BlsError {
    InvalidLength,
    InvalidEncoding,
    InvalidScalar,
}

} // verus!
