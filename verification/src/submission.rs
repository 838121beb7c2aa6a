//! The data a submission arrives as: the three-part envelope off the wire,
//! and the payload fields parsed out of its serialized payload part.

use vstd::prelude::*;

verus! {

/// The client-supplied claim, as parsed from the serialized payload bytes.
/// Untrusted until the pipeline has passed it. The signature is never
/// checked against a re-serialization of this structure: re-serialization
/// is not byte-stable, so the envelope keeps the exact bytes received.
#[derive(Clone)]
pub struct Payload {
    pub task_id: String,
    pub miner_id: i64,
    /// IEEE bit pattern of the reported performance score. The pipeline stores
    /// the score but never interprets it, so it carries the bits through.
    pub performance_bits: u32,
    /// Claimed content digest of the artifact, lowercase hex.
    pub artifact_hash: String,
    /// Opaque structured hyperparameters, carried as their serialized
    /// text; stored, never interpreted.
    pub hyperparameters_json: String,
    /// Claimed submission time, seconds since the epoch.
    pub timestamp: u64,
    /// Advisory only: replay protection is keyed on the signature, and the
    /// verification logic never reads this field.
    pub nonce: u64,
}

/// The three independent parts of one submission as received: the exact
/// serialized payload bytes, the detached signature (hex text), and the
/// raw artifact bytes. None may be inferred from the others.
pub struct Envelope {
    pub payload_json: Vec<u8>,
    pub signature_hex: String,
    pub artifact: Vec<u8>,
}

/// A submission whose envelope was complete and whose payload part parsed:
/// what the pipeline's gates run on.
pub struct Submission {
    pub envelope: Envelope,
    pub payload: Payload,
}

} // verus!
