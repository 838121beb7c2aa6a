use std::collections::HashSet;

use ed25519_dalek::{ExpandedSecretKey, PublicKey, SecretKey};
use sha2::Digest;
use submission_gate::ledger::{draft_record, CommitOutcome, LedgerDraft};
use submission_gate::pipeline::{
    accept_payload, assemble, finish, gate_after_claim, gate_authenticity, Decision, KeyLookup,
    Reason,
};
use submission_gate::replay::{replay_token, ClaimOutcome};
use submission_gate::submission::Payload;

const NOW: u64 = 1_700_000_000;

/// The shared replay cache, modelled by its set-if-absent semantics.
struct FakeCache(HashSet<String>);

impl FakeCache {
    fn new() -> Self {
        FakeCache(HashSet::new())
    }

    fn claim(&mut self, token: &str) -> ClaimOutcome {
        if self.0.insert(token.to_string()) {
            ClaimOutcome::Claimed
        } else {
            ClaimOutcome::AlreadyClaimed
        }
    }
}

struct Miner {
    public: PublicKey,
    expanded: ExpandedSecretKey,
}

fn miner(seed: u8) -> Miner {
    let secret = SecretKey::from_bytes(&[seed; 32]).unwrap();
    let public = PublicKey::from(&secret);
    let expanded = ExpandedSecretKey::from(&secret);
    Miner { public, expanded }
}

fn payload_json(task_id: &str, miner_id: i64, artifact_hash: &str, timestamp: u64) -> String {
    format!(
        "{{\"task_id\":\"{}\",\"miner_id\":{},\"performance\":0.95,\"artifact_hash\":\"{}\",\"hyperparameters\":{{\"lr\":0.01}},\"timestamp\":{},\"nonce\":1}}",
        task_id, miner_id, artifact_hash, timestamp
    )
}

struct Wire {
    payload_json: Vec<u8>,
    signature_hex: String,
    artifact: Vec<u8>,
    payload: Payload,
    pk_hex: String,
}

/// A registered miner signs a claim over an artifact: one complete, honest
/// envelope plus what the stores know about the miner.
fn honest_wire(m: &Miner, task_id: &str, artifact: &[u8], timestamp: u64) -> Wire {
    let artifact_hash = hex::encode(sha2::Sha256::digest(artifact));
    let text = payload_json(task_id, 1, &artifact_hash, timestamp);
    let signature_hex = hex::encode(m.expanded.sign(text.as_bytes(), &m.public).to_bytes());
    let payload = Payload {
        task_id: task_id.to_string(),
        miner_id: 1,
        performance_bits: 0.95f32.to_bits(),
        artifact_hash,
        hyperparameters_json: "{\"lr\":0.01}".to_string(),
        timestamp,
        nonce: 1,
    };
    Wire {
        payload_json: text.into_bytes(),
        signature_hex,
        artifact: artifact.to_vec(),
        payload,
        pk_hex: hex::encode(m.public.to_bytes()),
    }
}

/// Drive the whole pipeline over one wire submission, exactly as the
/// transport would: claim, gate, look up, gate, commit.
fn run_pipeline(wire: &Wire, cache: &mut FakeCache, ledger: &mut Vec<LedgerDraft>) -> Decision {
    let env = match assemble(
        Some(wire.payload_json.clone()),
        Some(wire.signature_hex.clone()),
        Some(wire.artifact.clone()),
    ) {
        Ok(env) => env,
        Err(reason) => return Decision::Rejected { reason },
    };
    let sub = match accept_payload(env, Some(wire.payload.clone())) {
        Ok(sub) => sub,
        Err(reason) => return Decision::Rejected { reason },
    };
    let token = replay_token(&sub.envelope.signature_hex);
    let claim = cache.claim(&token);
    let pass = match gate_after_claim(&sub, claim, NOW) {
        Ok(pass) => pass,
        Err(reason) => return Decision::Rejected { reason },
    };
    let lookup = KeyLookup::Found(wire.pk_hex.clone());
    let authority = match gate_authenticity(&sub, &lookup, pass) {
        Ok(authority) => authority,
        Err(reason) => return Decision::Rejected { reason },
    };
    let draft = draft_record(&sub, authority);
    let record_id = draft.record_id.clone();
    ledger.push(draft);
    finish(record_id, CommitOutcome::Committed)
}

#[test]
fn end_to_end_accept_then_replay() {
    let m = miner(42);
    let wire = honest_wire(&m, "t1", b"artifact bytes A", NOW - 5);
    let mut cache = FakeCache::new();
    let mut ledger = Vec::new();

    match run_pipeline(&wire, &mut cache, &mut ledger) {
        Decision::Accepted { record_id } => assert_eq!(record_id.len(), 36),
        Decision::Rejected { reason } => panic!("rejected: {}", reason.code()),
    }
    assert_eq!(ledger.len(), 1);
    assert_eq!(ledger[0].task_id, "t1");
    assert_eq!(ledger[0].miner_id, 1);
    assert_eq!(ledger[0].performance_bits, 0.95f32.to_bits());
    assert_eq!(ledger[0].timestamp, NOW - 5);

    // The identical triple a second time: the signature-derived token is
    // already claimed, so the decision is a replay rejection and the
    // ledger does not grow.
    match run_pipeline(&wire, &mut cache, &mut ledger) {
        Decision::Accepted { .. } => panic!("replay was admitted"),
        Decision::Rejected { reason } => {
            assert_eq!(reason, Reason::Replay);
            assert_eq!(reason.code(), "replay");
        }
    }
    assert_eq!(ledger.len(), 1);
}

#[test]
fn replay_exclusivity_many_claimants() {
    let m = miner(1);
    let wire = honest_wire(&m, "t1", b"A", NOW);
    let mut cache = FakeCache::new();
    let token = replay_token(&wire.signature_hex);
    let outcomes: Vec<ClaimOutcome> = (0..4).map(|_| cache.claim(&token)).collect();
    let granted = outcomes.iter().filter(|o| **o == ClaimOutcome::Claimed).count();
    assert_eq!(granted, 1);
    assert_eq!(outcomes[0], ClaimOutcome::Claimed);
}

#[test]
fn replay_token_is_namespaced_by_signature() {
    assert_eq!(replay_token("00ff"), "nonce:00ff");
}

#[test]
fn rejection_writes_no_record_and_is_reevaluated_independently() {
    let honest = miner(5);
    let imposter = miner(6);
    let mut cache = FakeCache::new();
    let mut ledger = Vec::new();

    // An imposter signs a claim under its own key but the directory holds
    // the honest miner's key: rejected at the authenticity gate, and no
    // ledger record is created.
    let mut wire = honest_wire(&imposter, "t1", b"A", NOW);
    wire.pk_hex = hex::encode(honest.public.to_bytes());
    match run_pipeline(&wire, &mut cache, &mut ledger) {
        Decision::Rejected { reason } => assert_eq!(reason, Reason::SignatureRejected),
        Decision::Accepted { .. } => panic!("forgery was admitted"),
    }
    assert_eq!(ledger.len(), 0);

    // The identical envelope again: blocked, but only because its token
    // was claimed by the first attempt.
    match run_pipeline(&wire, &mut cache, &mut ledger) {
        Decision::Rejected { reason } => assert_eq!(reason, Reason::Replay),
        Decision::Accepted { .. } => panic!("forgery was admitted"),
    }

    // A fresh envelope from the honest miner carries a new signature, so
    // the earlier rejection does not block it.
    let fresh = honest_wire(&honest, "t1", b"A", NOW - 1);
    match run_pipeline(&fresh, &mut cache, &mut ledger) {
        Decision::Accepted { .. } => {}
        Decision::Rejected { reason } => panic!("rejected: {}", reason.code()),
    }
    assert_eq!(ledger.len(), 1);
}

#[test]
fn stale_submission_rejected_before_any_record() {
    let m = miner(9);
    let wire = honest_wire(&m, "t1", b"A", NOW - 301);
    let mut cache = FakeCache::new();
    let mut ledger = Vec::new();
    match run_pipeline(&wire, &mut cache, &mut ledger) {
        Decision::Rejected { reason } => {
            assert_eq!(reason, Reason::StaleTimestamp);
            assert_eq!(reason.code(), "stale timestamp");
        }
        Decision::Accepted { .. } => panic!("stale submission was admitted"),
    }
    assert_eq!(ledger.len(), 0);
}

#[test]
fn tampered_artifact_rejected_with_mismatch() {
    let m = miner(9);
    let mut wire = honest_wire(&m, "t1", b"A", NOW);
    wire.artifact = b"B".to_vec();
    let mut cache = FakeCache::new();
    let mut ledger = Vec::new();
    match run_pipeline(&wire, &mut cache, &mut ledger) {
        Decision::Rejected { reason } => assert_eq!(reason, Reason::ArtifactMismatch),
        Decision::Accepted { .. } => panic!("tampered artifact was admitted"),
    }
    assert_eq!(ledger.len(), 0);
}

#[test]
fn missing_part_rejected_before_the_pipeline() {
    match assemble(Some(b"{}".to_vec()), None, Some(b"A".to_vec())) {
        Err(reason) => {
            assert_eq!(reason, Reason::MissingFields);
            assert_eq!(reason.code(), "missing fields");
        }
        Ok(_) => panic!("incomplete envelope was assembled"),
    }
}

#[test]
fn unknown_miner_is_a_client_fault_but_a_directory_failure_is_not() {
    let m = miner(2);
    let wire = honest_wire(&m, "t1", b"A", NOW);
    let env = assemble(
        Some(wire.payload_json.clone()),
        Some(wire.signature_hex.clone()),
        Some(wire.artifact.clone()),
    )
    .unwrap();
    let sub = accept_payload(env, Some(wire.payload.clone())).unwrap();

    // A miner with no registered key is rejected as unknown.
    let pass = gate_after_claim(&sub, ClaimOutcome::Claimed, NOW).unwrap();
    match gate_authenticity(&sub, &KeyLookup::NotFound, pass) {
        Err(reason) => {
            assert_eq!(reason, Reason::UnknownMiner);
            assert_eq!(reason.code(), "unknown miner");
        }
        Ok(_) => panic!("unknown miner was admitted"),
    }

    // A directory that could not be read is an infrastructure failure,
    // reported so the caller retries the whole submission later.
    let pass = gate_after_claim(&sub, ClaimOutcome::Claimed, NOW).unwrap();
    match gate_authenticity(&sub, &KeyLookup::StoreError, pass) {
        Err(reason) => {
            assert_eq!(reason, Reason::DbError);
            assert_eq!(reason.code(), "db error");
        }
        Ok(_) => panic!("store failure was admitted"),
    }
}

#[test]
fn cache_unavailable_is_a_hard_rejection() {
    let m = miner(2);
    let wire = honest_wire(&m, "t1", b"A", NOW);
    let env = assemble(
        Some(wire.payload_json.clone()),
        Some(wire.signature_hex.clone()),
        Some(wire.artifact.clone()),
    )
    .unwrap();
    let sub = accept_payload(env, Some(wire.payload.clone())).unwrap();
    match gate_after_claim(&sub, ClaimOutcome::StoreUnavailable, NOW) {
        Err(reason) => {
            assert_eq!(reason, Reason::CacheUnavailable);
            assert_eq!(reason.code(), "redis error");
        }
        Ok(_) => panic!("proceeded without replay protection"),
    }
}

#[test]
fn store_failure_at_commit_is_reported_not_retried() {
    match finish("some-id".to_string(), CommitOutcome::StoreError) {
        Decision::Rejected { reason } => {
            assert_eq!(reason, Reason::DbError);
            assert_eq!(reason.code(), "db error");
        }
        Decision::Accepted { .. } => panic!("failed commit reported as accepted"),
    }
}

#[test]
fn decision_status_texts() {
    let accepted = finish("id".to_string(), CommitOutcome::Committed);
    assert_eq!(accepted.status(), "accepted");
    let rejected = finish("id".to_string(), CommitOutcome::StoreError);
    assert_eq!(rejected.status(), "rejected");
}

#[test]
fn retried_commit_drafts_get_distinct_identifiers() {
    let m = miner(2);
    let wire = honest_wire(&m, "t1", b"A", NOW);
    let env = assemble(
        Some(wire.payload_json.clone()),
        Some(wire.signature_hex.clone()),
        Some(wire.artifact.clone()),
    )
    .unwrap();
    let sub = accept_payload(env, Some(wire.payload.clone())).unwrap();
    let lookup = KeyLookup::Found(wire.pk_hex.clone());

    let pass = gate_after_claim(&sub, ClaimOutcome::Claimed, NOW).unwrap();
    let authority = gate_authenticity(&sub, &lookup, pass).unwrap();
    let first = draft_record(&sub, authority);

    let pass = gate_after_claim(&sub, ClaimOutcome::Claimed, NOW).unwrap();
    let authority = gate_authenticity(&sub, &lookup, pass).unwrap();
    let second = draft_record(&sub, authority);

    assert_ne!(first.record_id, second.record_id);
    assert_eq!(first.record_id.len(), 36);
}
