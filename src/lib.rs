//! Decision logic of a bridge orchestrator that links a Cosmos chain and an
//! Ethereum chain: loop cadences, the readiness gate that precedes the loops,
//! the selection rules of the oracle, signer and relayer loops, and the
//! planning of the key-store and delegate-key commands.

pub mod cadence;

pub mod oracle;
pub mod signer;
pub mod relayer;
pub mod readiness;
pub mod keys;
pub mod start;
pub mod delegate;
