//! The ledger record an accepted submission is committed as. The durable
//! store itself is external; this module fixes what goes into a record and
//! that each commit attempt carries a freshly generated identifier.

use vstd::prelude::*;
use crate::pipeline::CommitAuthority;
use crate::submission::Submission;

verus! {

/// One row of the append-only ledger, ready to be persisted: immutable
/// once written, one per accepted submission.
pub struct LedgerDraft {
    /// Freshly generated, globally unique identifier of the record.
    pub record_id: String,
    pub task_id: String,
    pub miner_id: i64,
    pub performance_bits: u32,
    pub hyperparameters_json: String,
    pub artifact_hash: String,
    pub timestamp: u64,
}

/// What persisting a draft came to. A store failure is reported, never
/// retried here: a retried commit must be a new draft with a new
/// identifier, so that a duplicate-key conflict cannot pass for success.
#[derive(Clone, Copy, Debug, PartialEq, Eq, Structural)]
pub enum CommitOutcome {
    Committed,
    StoreError,
}

/// Relies on `uuid::Uuid::new_v4` and its hyphenated text form: a fresh
/// random 128-bit identifier, printed as 36 characters. Nothing more is
/// assumed of it; in particular no two calls are related.
#[verifier::external_body]
fn fresh_record_id() -> (r: String)
    ensures
        r@.len() == 36,
{
    uuid::Uuid::new_v4().to_string()
}

/// Draft the ledger record for an accepted submission: its payload fields
/// under a freshly generated identifier. Requires the authority that only
/// the authenticity gate issues, for this very submission, so no draft
/// exists for an unverified submission.
pub fn draft_record(sub: &Submission, authority: CommitAuthority) -> (d: LedgerDraft)
    requires
        authority.subject() == *sub,
    ensures
        d.record_id@.len() == 36,
        d.task_id@ == sub.payload.task_id@,
        d.miner_id == sub.payload.miner_id,
        d.performance_bits == sub.payload.performance_bits,
        d.hyperparameters_json@ == sub.payload.hyperparameters_json@,
        d.artifact_hash@ == sub.payload.artifact_hash@,
        d.timestamp == sub.payload.timestamp,
{
    let _ = authority;
    LedgerDraft {
        record_id: fresh_record_id(),
        task_id: sub.payload.task_id.clone(),
        miner_id: sub.payload.miner_id,
        performance_bits: sub.payload.performance_bits,
        hyperparameters_json: sub.payload.hyperparameters_json.clone(),
        artifact_hash: sub.payload.artifact_hash.clone(),
        timestamp: sub.payload.timestamp,
    }
}

} // verus!
