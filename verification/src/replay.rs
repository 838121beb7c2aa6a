//! Replay suppression: each submission carries a single-use token derived
//! from its signature, and a shared cache grants the token to at most one
//! claimant. The cache itself is external; this module fixes the token
//! derivation, the outcome type the cache hands back, and the model of
//! claiming against which the exclusivity laws are proved.

use vstd::prelude::*;

verus! {

/// Lifetime of a claimed token in the shared cache, in seconds.
pub const REPLAY_TTL_SECS: u64 = 300;

/// What a claim of a replay token against the shared cache came to.
/// `StoreUnavailable` covers every failure to reach the cache: without the
/// cache there is no replay protection, so the pipeline must not proceed.
#[derive(Clone, Copy, Debug, PartialEq, Eq, Structural)]
pub enum ClaimOutcome {
    Claimed,
    AlreadyClaimed,
    StoreUnavailable,
}

/// The replay token of a submission: the cache key under which its
/// signature is claimed. Keying on the signature is deliberate: a valid
/// signature is unique per signed payload, so an identical signature means
/// an identical submission.
pub fn replay_token(signature_hex: &str) -> (t: String)
    ensures
        t@ == "nonce:"@ + signature_hex@,
{
    let t = String::from_str("nonce:");
    t.concat(signature_hex)
}

/// Model of the reachable cache: the set of tokens already claimed. An
/// atomic set-if-absent grants a token iff it is not yet in the set.
pub open spec fn claim_grants(claimed: Set<Seq<char>>, token: Seq<char>) -> bool {
    !claimed.contains(token)
}

/// The cache contents after one claim of `token`: the token is in the set,
/// whether the claim was granted or not.
pub open spec fn after_claim(claimed: Set<Seq<char>>, token: Seq<char>) -> Set<Seq<char>> {
    claimed.insert(token)
}

/// How many of `n` successive claims of one token are granted.
pub open spec fn grants_among(claimed: Set<Seq<char>>, token: Seq<char>, n: nat) -> nat
    decreases n,
{
    if n == 0 {
        0
    } else {
        (if claim_grants(claimed, token) {
            1nat
        } else {
            0nat
        }) + grants_among(after_claim(claimed, token), token, (n - 1) as nat)
    }
}

/// Once a token is in the cache, no claim of it is ever granted again.
pub proof fn lemma_claimed_token_stays_denied(claimed: Set<Seq<char>>, token: Seq<char>, n: nat)
    requires
        claimed.contains(token),
    ensures
        grants_among(claimed, token, n) == 0,
    decreases n,
{
    if n > 0 {
        lemma_claimed_token_stays_denied(after_claim(claimed, token), token, (n - 1) as nat);
    }
}

/// Replay exclusivity: among any number of successive claims of one token,
/// at most one is granted; and where the token was unclaimed at the start
/// and at least one claim is made, exactly one is granted.
pub proof fn lemma_replay_exclusivity(claimed: Set<Seq<char>>, token: Seq<char>, n: nat)
    ensures
        grants_among(claimed, token, n) <= 1,
        !claimed.contains(token) && n >= 1 ==> grants_among(claimed, token, n) == 1,
{
    if n >= 1 {
        lemma_claimed_token_stays_denied(after_claim(claimed, token), token, (n - 1) as nat);
    }
}

/// Independent evaluation: claiming one token neither blocks nor unblocks
/// a claim of any other token.
pub proof fn lemma_claim_independent(claimed: Set<Seq<char>>, t1: Seq<char>, t2: Seq<char>)
    requires
        t1 != t2,
    ensures
        claim_grants(after_claim(claimed, t1), t2) == claim_grants(claimed, t2),
{
}

} // verus!
