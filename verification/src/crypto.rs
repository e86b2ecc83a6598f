//! The digest and signing primitives, taken from outside crates.

use sha2::Digest;
use vstd::prelude::*;

verus! {

/// The sha256 digest of a byte sequence. The outside digest crate computes
/// it; it is a pure function of the input and is 32 bytes long.
pub uninterp spec fn sha256_of(bytes: Seq<u8>) -> Seq<u8>;

/// The detached ed25519 signature over a message, made with a 64-byte
/// keypair (secret half then public half, the layout long-term feed keys are
/// stored in). Ed25519 signing is deterministic, so the signature is a pure
/// function of the message and the keypair bytes.
pub uninterp spec fn ed25519_signature(message: Seq<u8>, keypair: Seq<u8>) -> Seq<u8>;

/// The ed25519 public key derived from a 32-byte secret half. The derivation
/// is deterministic, so well-formed 64-byte key material is exactly a secret
/// half followed by its derived public half.
pub uninterp spec fn ed25519_public_of(seed: Seq<u8>) -> Seq<u8>;

/// Relies on `sha2::Sha256::digest`: the digest is a pure function of the
/// input bytes, 32 bytes long.
#[verifier::external_body]
pub(crate) fn sha256_digest(bytes: &[u8]) -> (r: Vec<u8>)
    ensures
        r@ == sha256_of(bytes@),
        r@.len() == 32,
{
    sha2::Sha256::digest(bytes).to_vec()
}

/// Relies on `ssb_crypto::Keypair::{from_seed, sign}`: a keypair derives
/// from its 32-byte secret half, and `sign` produces the detached,
/// deterministic 64-byte ed25519 signature over exactly the given bytes.
/// Key material whose stored public half is not the one its secret half
/// derives is refused rather than signed: the signing backend does not
/// accept such bytes (it would abort on them), and a signature made with
/// them could never verify against the stored public half.
#[verifier::external_body]
pub(crate) fn sign_detached(message: &[u8], keypair: &[u8]) -> (r: Option<Vec<u8>>)
    requires
        keypair@.len() == 64,
    ensures
        r is Some <==> keypair@.subrange(32, 64) == ed25519_public_of(
            keypair@.subrange(0, 32),
        ),
        r matches Some(s) ==> s@ == ed25519_signature(message@, keypair@),
        r matches Some(s) ==> s@.len() == 64,
{
    let kp = ssb_crypto::Keypair::from_seed(&keypair[..32]).unwrap();
    if kp.public.0[..] != keypair[32..] {
        return None;
    }
    Some(kp.sign(message).0.to_vec())
}

} // verus!
