//! The submission pipeline: replay claim, freshness, artifact integrity,
//! authenticity, then commit, in that fixed order, short-circuiting on the
//! first failure. The order is deliberate: the cheap replay claim runs
//! before any costly verification, and authenticity is the last gate
//! before the durable write, so nothing unverified reaches the ledger.
//!
//! Each gate here is a pure function of the submission and of the outcome
//! the external store handed back; the caller performs the store
//! operations (claiming the token, looking up the key, inserting the row)
//! between the gates, in this order.

use vstd::prelude::*;
use crate::authenticity::{check_signature, sig_check_outcome, SigCheck};
use crate::content_digest::{digest_matches, verify_integrity};
use crate::freshness::{check_freshness, timestamp_fresh, Freshness};
use crate::ledger::CommitOutcome;
use crate::replay::ClaimOutcome;
use crate::submission::{Envelope, Payload, Submission};

verus! {

/// Why a submission was rejected. `code` gives the wire text of each.
#[derive(Clone, Copy, Debug, PartialEq, Eq, Structural)]
pub enum Reason {
    /// A required envelope part was absent.
    MissingFields,
    /// The payload part did not parse.
    InvalidPayloadJson,
    /// The replay cache could not be reached: without it there is no
    /// replay protection, so the submission is not processed.
    CacheUnavailable,
    /// The replay token was already claimed.
    Replay,
    /// The claimed timestamp is outside the freshness window, on either
    /// side: the wire reason does not distinguish stale from future.
    StaleTimestamp,
    /// The artifact digest does not match the claimed digest.
    ArtifactMismatch,
    /// No key is registered for the claiming miner.
    UnknownMiner,
    /// The stored public key is not valid hex.
    InvalidPubkey,
    /// The stored key bytes do not decode as a public key.
    BadPubkey,
    /// The detached signature is not valid hex.
    BadSignatureHex,
    /// The signature bytes do not parse as a signature.
    SignatureParseError,
    /// The signature parsed but does not verify over the payload bytes.
    SignatureRejected,
    /// The durable store failed: the key directory could not be read, or
    /// the ledger insert failed. An infrastructure fault, not a client
    /// fault; the caller is expected to retry the whole submission later.
    DbError,
}

impl Reason {
    /// The machine-readable reason text reported to the caller.
    pub fn code(&self) -> (r: String)
        ensures
            *self is MissingFields ==> r@ == "missing fields"@,
            *self is InvalidPayloadJson ==> r@ == "invalid payload json"@,
            *self is CacheUnavailable ==> r@ == "redis error"@,
            *self is Replay ==> r@ == "replay"@,
            *self is StaleTimestamp ==> r@ == "stale timestamp"@,
            *self is ArtifactMismatch ==> r@ == "artifact hash mismatch"@,
            *self is UnknownMiner ==> r@ == "unknown miner"@,
            *self is InvalidPubkey ==> r@ == "invalid pubkey"@,
            *self is BadPubkey ==> r@ == "bad pubkey"@,
            *self is BadSignatureHex ==> r@ == "bad signature"@,
            *self is SignatureParseError ==> r@ == "signature parse error"@,
            *self is SignatureRejected ==> r@ == "bad_signature"@,
            *self is DbError ==> r@ == "db error"@,
    {
        match self {
            Reason::MissingFields => String::from_str("missing fields"),
            Reason::InvalidPayloadJson => String::from_str("invalid payload json"),
            Reason::CacheUnavailable => String::from_str("redis error"),
            Reason::Replay => String::from_str("replay"),
            Reason::StaleTimestamp => String::from_str("stale timestamp"),
            Reason::ArtifactMismatch => String::from_str("artifact hash mismatch"),
            Reason::UnknownMiner => String::from_str("unknown miner"),
            Reason::InvalidPubkey => String::from_str("invalid pubkey"),
            Reason::BadPubkey => String::from_str("bad pubkey"),
            Reason::BadSignatureHex => String::from_str("bad signature"),
            Reason::SignatureParseError => String::from_str("signature parse error"),
            Reason::SignatureRejected => String::from_str("bad_signature"),
            Reason::DbError => String::from_str("db error"),
        }
    }
}

/// The pipeline's decision on one submission.
pub enum Decision {
    Accepted { record_id: String },
    Rejected { reason: Reason },
}

impl Decision {
    /// The status text reported to the caller: a rejection is a normal
    /// response, not a fault.
    pub fn status(&self) -> (r: String)
        ensures
            *self is Accepted ==> r@ == "accepted"@,
            *self is Rejected ==> r@ == "rejected"@,
    {
        match self {
            Decision::Accepted { .. } => String::from_str("accepted"),
            Decision::Rejected { .. } => String::from_str("rejected"),
        }
    }
}

/// What looking the miner up in the key directory came to: its registered
/// public key as stored (hex text), no registered key, or a store failure.
pub enum KeyLookup {
    Found(String),
    NotFound,
    StoreError,
}

/// Evidence that one particular submission passed the replay, freshness
/// and integrity gates. Only `gate_after_claim` issues one, and the
/// authenticity gate demands one issued for the very submission it is
/// judging.
pub struct PrecommitPass {
    sub: Ghost<Submission>,
}

impl PrecommitPass {
    /// The submission this pass was issued for.
    pub closed spec fn subject(&self) -> Submission {
        self.sub@
    }
}

/// Evidence that one particular submission passed every gate up to and
/// including authenticity. Only `gate_authenticity` issues one, and
/// drafting a ledger record consumes one issued for the submission being
/// drafted: nothing unverified reaches the ledger.
pub struct CommitAuthority {
    sub: Ghost<Submission>,
}

impl CommitAuthority {
    /// The submission this authority was issued for.
    pub closed spec fn subject(&self) -> Submission {
        self.sub@
    }
}

/// Gather the three envelope parts, rejecting before any pipeline work if
/// one is absent.
pub fn assemble(
    payload_json: Option<Vec<u8>>,
    signature_hex: Option<String>,
    artifact: Option<Vec<u8>>,
) -> (r: Result<Envelope, Reason>)
    ensures
        r is Ok <==> payload_json is Some && signature_hex is Some && artifact is Some,
        r matches Err(e) ==> e is MissingFields,
        r matches Ok(env) ==> {
            &&& payload_json matches Some(pj) && env.payload_json == pj
            &&& signature_hex matches Some(sx) && env.signature_hex == sx
            &&& artifact matches Some(a) && env.artifact == a
        },
{
    match (payload_json, signature_hex, artifact) {
        (Some(pj), Some(sx), Some(a)) => Ok(
            Envelope { payload_json: pj, signature_hex: sx, artifact: a },
        ),
        _ => Err(Reason::MissingFields),
    }
}

/// Adopt the parse of the payload part, as the caller's parser returned
/// it: a submission if it parsed, the parse rejection if not. The caller
/// must hand the parse of exactly `env.payload_json`.
pub fn accept_payload(env: Envelope, parsed: Option<Payload>) -> (r: Result<Submission, Reason>)
    ensures
        r is Ok <==> parsed is Some,
        r matches Err(e) ==> e is InvalidPayloadJson,
        r matches Ok(s) ==> parsed matches Some(p) && s.envelope == env && s.payload == p,
{
    match parsed {
        Some(p) => Ok(Submission { envelope: env, payload: p }),
        None => Err(Reason::InvalidPayloadJson),
    }
}

/// The gates between the replay claim and the key lookup: judge the claim
/// outcome, then freshness, then artifact integrity, in the pipeline's
/// order, short-circuiting on the first failure.
pub fn gate_after_claim(sub: &Submission, claim: ClaimOutcome, now: u64) -> (r: Result<
    PrecommitPass,
    Reason,
>)
    ensures
        r is Ok <==> claim is Claimed && timestamp_fresh(
            sub.payload.timestamp as int,
            now as int,
        ) && digest_matches(sub.envelope.artifact@, sub.payload.artifact_hash@),
        claim is StoreUnavailable ==> (r matches Err(e) && e is CacheUnavailable),
        claim is AlreadyClaimed ==> (r matches Err(e) && e is Replay),
        claim is Claimed && !timestamp_fresh(sub.payload.timestamp as int, now as int)
            ==> (r matches Err(e) && e is StaleTimestamp),
        claim is Claimed && timestamp_fresh(sub.payload.timestamp as int, now as int)
            && !digest_matches(sub.envelope.artifact@, sub.payload.artifact_hash@)
            ==> (r matches Err(e) && e is ArtifactMismatch),
        r matches Ok(p) ==> p.subject() == *sub,
{
    match claim {
        ClaimOutcome::StoreUnavailable => Err(Reason::CacheUnavailable),
        ClaimOutcome::AlreadyClaimed => Err(Reason::Replay),
        ClaimOutcome::Claimed => {
            match check_freshness(sub.payload.timestamp, now) {
                Freshness::Fresh => {
                    if verify_integrity(&sub.envelope.artifact, &sub.payload.artifact_hash) {
                        Ok(PrecommitPass { sub: Ghost(*sub) })
                    } else {
                        Err(Reason::ArtifactMismatch)
                    }
                },
                _ => Err(Reason::StaleTimestamp),
            }
        },
    }
}

/// The authenticity gate: judge the key-directory lookup, then check the
/// detached signature over the exact payload bytes received against the
/// registered key. It demands the earlier gates' pass for this very
/// submission; success issues the authority to commit it. A directory
/// that could not be read is an infrastructure fault, kept apart from a
/// miner with no registered key.
pub fn gate_authenticity(sub: &Submission, lookup: &KeyLookup, pass: PrecommitPass) -> (r: Result<
    CommitAuthority,
    Reason,
>)
    requires
        pass.subject() == *sub,
    ensures
        r is Ok <==> (lookup matches KeyLookup::Found(pk) && sig_check_outcome(
            pk@,
            sub.envelope.payload_json@,
            sub.envelope.signature_hex@,
        ) is Valid),
        lookup is NotFound ==> (r matches Err(e) && e is UnknownMiner),
        lookup is StoreError ==> (r matches Err(e) && e is DbError),
        r matches Ok(a) ==> a.subject() == *sub,
        lookup matches KeyLookup::Found(pk) ==> {
            let oc = sig_check_outcome(
                pk@,
                sub.envelope.payload_json@,
                sub.envelope.signature_hex@,
            );
            &&& oc is PubkeyHexInvalid ==> (r matches Err(e) && e is InvalidPubkey)
            &&& oc is PubkeyUnusable ==> (r matches Err(e) && e is BadPubkey)
            &&& oc is SignatureHexInvalid ==> (r matches Err(e) && e is BadSignatureHex)
            &&& oc is SignatureUnparseable ==> (r matches Err(e) && e is SignatureParseError)
            &&& oc is Invalid ==> (r matches Err(e) && e is SignatureRejected)
        },
{
    let _ = pass;
    match lookup {
        KeyLookup::NotFound => Err(Reason::UnknownMiner),
        KeyLookup::StoreError => Err(Reason::DbError),
        KeyLookup::Found(pk_hex) => {
            match check_signature(pk_hex, &sub.envelope.payload_json, &sub.envelope.signature_hex) {
                SigCheck::PubkeyHexInvalid => Err(Reason::InvalidPubkey),
                SigCheck::PubkeyUnusable => Err(Reason::BadPubkey),
                SigCheck::SignatureHexInvalid => Err(Reason::BadSignatureHex),
                SigCheck::SignatureUnparseable => Err(Reason::SignatureParseError),
                SigCheck::Invalid => Err(Reason::SignatureRejected),
                SigCheck::Valid => Ok(CommitAuthority { sub: Ghost(*sub) }),
            }
        },
    }
}

/// Turn the commit outcome into the pipeline's decision: the new record's
/// identifier on success, a reported store failure otherwise.
pub fn finish(record_id: String, outcome: CommitOutcome) -> (d: Decision)
    ensures
        outcome is Committed ==> (d matches Decision::Accepted { record_id: rid } && rid@
            == record_id@),
        outcome is StoreError ==> (d matches Decision::Rejected { reason } && reason is DbError),
{
    match outcome {
        CommitOutcome::Committed => Decision::Accepted { record_id },
        CommitOutcome::StoreError => Decision::Rejected { reason: Reason::DbError },
    }
}

} // verus!
