//! Artifact integrity: the pipeline recomputes a SHA-256 digest over the exact
//! artifact bytes received and compares its lowercase hex encoding to the
//! digest the payload claims, by exact string equality.

use vstd::prelude::*;
use crate::hex_codec::{hex_encode, hex_of};

verus! {

/// The SHA-256 digest of a byte string. What the digest is on given bytes
/// is not restated here; it is whatever the hash function returns, a
/// function of the input bytes alone.
pub uninterp spec fn digest_of(b: Seq<u8>) -> Seq<u8>;

/// Relies on `sha2::Sha256`: the digest is a function of the input bytes
/// alone, and is 32 bytes long.
#[verifier::external_body]
pub fn sha256(b: &Vec<u8>) -> (r: Vec<u8>)
    ensures
        r@ == digest_of(b@),
        r@.len() == 32,
{
    <sha2::Sha256 as sha2::Digest>::digest(b).to_vec()
}

/// Whether a claimed hex digest matches the digest of the artifact bytes.
pub open spec fn digest_matches(artifact: Seq<u8>, claimed_hex: Seq<char>) -> bool {
    claimed_hex == hex_of(digest_of(artifact))
}

/// Recompute the digest of the artifact bytes and compare it, in lowercase
/// hex, to the claimed digest: it passes iff they are exactly equal.
pub fn verify_integrity(artifact: &Vec<u8>, claimed_hex: &String) -> (r: bool)
    ensures
        r == digest_matches(artifact@, claimed_hex@),
{
    let computed = hex_encode(&sha256(artifact));
    computed == *claimed_hex
}

} // verus!
