//! Cryptographic authenticity: the detached signature is verified over the
//! exact serialized payload bytes as received, against the registered
//! Ed25519 public key of the claiming miner. The curve arithmetic is done
//! by `ed25519_dalek`; everything around it — decoding the stored key and
//! the detached signature from hex, telling the failure modes apart — is
//! verified here.

use vstd::prelude::*;
use crate::hex_codec::{bytes_of_hex, hex_decode, is_hex_seq};

verus! {

/// Whether 32 bytes decode as an Ed25519 public key, that is, decompress
/// to a point of the curve. A function of the bytes alone; which byte
/// strings decompress is left to the curve arithmetic.
pub uninterp spec fn pubkey_parseable(b: Seq<u8>) -> bool;

/// Whether bytes parse as a detached Ed25519 signature: exactly 64 bytes
/// whose scalar half passes the cheap reduction check, which the signature
/// crate states as the top three bits of the last byte being unset.
pub open spec fn signature_parseable(b: Seq<u8>) -> bool {
    b.len() == 64 && b[63] & 0xe0 == 0
}

/// Whether an Ed25519 signature is valid for a message under a public key,
/// all three given as their byte encodings. Verification is deterministic:
/// a function of the three byte strings alone.
pub uninterp spec fn ed25519_valid(pk: Seq<u8>, msg: Seq<u8>, sig: Seq<u8>) -> bool;

/// Relies on `ed25519_dalek::PublicKey::from_bytes`: it succeeds on a
/// fixed set of byte strings, all 32 bytes long (any other length is
/// rejected outright).
#[verifier::external_body]
fn pubkey_parses(b: &Vec<u8>) -> (r: bool)
    ensures
        r == pubkey_parseable(b@),
        b@.len() != 32 ==> !r,
{
    ed25519_dalek::PublicKey::from_bytes(b).is_ok()
}

/// Relies on `ed25519_dalek::Signature::from_bytes`: it succeeds iff the
/// input is 64 bytes and the top three bits of the last byte are unset.
#[verifier::external_body]
fn signature_parses(b: &Vec<u8>) -> (r: bool)
    ensures
        r == signature_parseable(b@),
{
    ed25519_dalek::Signature::from_bytes(b).is_ok()
}

/// Relies on `ed25519_dalek::PublicKey::verify`: deterministic Ed25519
/// verification of the signature over the message under the key. The key
/// and the signature are rebuilt here from encodings the caller has
/// already checked, so the rebuilds cannot fail.
#[verifier::external_body]
fn ed25519_verify(pk: &Vec<u8>, msg: &Vec<u8>, sig: &Vec<u8>) -> (r: bool)
    requires
        pubkey_parseable(pk@),
        signature_parseable(sig@),
    ensures
        r == ed25519_valid(pk@, msg@, sig@),
{
    let key = match ed25519_dalek::PublicKey::from_bytes(pk) {
        Ok(k) => k,
        Err(_) => return false,
    };
    let sig = match ed25519_dalek::Signature::from_bytes(sig) {
        Ok(s) => s,
        Err(_) => return false,
    };
    ed25519_dalek::Verifier::verify(&key, msg, &sig).is_ok()
}

/// How a signature check over one submission came out; each failure keeps
/// apart which part was unusable, so the pipeline can report it.
#[derive(Clone, Copy, Debug, PartialEq, Eq, Structural)]
pub enum SigCheck {
    /// The stored public key is not hex.
    PubkeyHexInvalid,
    /// The stored key bytes do not decode as an Ed25519 key.
    PubkeyUnusable,
    /// The detached signature is not hex.
    SignatureHexInvalid,
    /// The signature bytes do not parse as an Ed25519 signature.
    SignatureUnparseable,
    /// The signature parsed but does not verify over the message.
    Invalid,
    /// The signature verifies over the message under the key.
    Valid,
}

/// What the signature check returns, as a function of the hex-encoded
/// stored key, the exact message bytes, and the hex-encoded signature.
pub open spec fn sig_check_outcome(pk_hex: Seq<char>, msg: Seq<u8>, sig_hex: Seq<char>) -> SigCheck {
    if !is_hex_seq(pk_hex) {
        SigCheck::PubkeyHexInvalid
    } else if !pubkey_parseable(bytes_of_hex(pk_hex)) {
        SigCheck::PubkeyUnusable
    } else if !is_hex_seq(sig_hex) {
        SigCheck::SignatureHexInvalid
    } else if !signature_parseable(bytes_of_hex(sig_hex)) {
        SigCheck::SignatureUnparseable
    } else if !ed25519_valid(bytes_of_hex(pk_hex), msg, bytes_of_hex(sig_hex)) {
        SigCheck::Invalid
    } else {
        SigCheck::Valid
    }
}

/// Check the detached signature over the exact payload bytes received,
/// against the miner's registered key as stored (hex text): decode both
/// encodings, parse both values, then verify.
pub fn check_signature(pk_hex: &String, msg: &Vec<u8>, sig_hex: &String) -> (r: SigCheck)
    ensures
        r == sig_check_outcome(pk_hex@, msg@, sig_hex@),
{
    let pk_bytes = match hex_decode(pk_hex.as_str()) {
        Some(b) => b,
        None => return SigCheck::PubkeyHexInvalid,
    };
    if !pubkey_parses(&pk_bytes) {
        return SigCheck::PubkeyUnusable;
    }
    let sig_bytes = match hex_decode(sig_hex.as_str()) {
        Some(b) => b,
        None => return SigCheck::SignatureHexInvalid,
    };
    if !signature_parses(&sig_bytes) {
        return SigCheck::SignatureUnparseable;
    }
    if !ed25519_verify(&pk_bytes, msg, &sig_bytes) {
        return SigCheck::Invalid;
    }
    SigCheck::Valid
}

} // verus!
