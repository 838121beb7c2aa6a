//! Submission intake gate for a distributed computation network.
//!
//! Miners submit a performance claim (a signed payload) together with a
//! binary artifact. The pipeline admits only claims that are unreplayed, fresh,
//! bound to the artifact by a content digest, and authentically signed by
//! the registered key of the claiming miner; an admitted claim is recorded
//! once in an append-only ledger. Every stage of that pipeline is a pure
//! gate with an exact contract; the surrounding I/O (the replay cache, the
//! key directory, the ledger store) hands plain values in and out.

pub mod freshness;
pub mod hex_codec;
pub mod content_digest;
pub mod replay;
pub mod submission;
pub mod authenticity;
pub mod ledger;
pub mod pipeline;
