use vstd::prelude::*;
use crate::cadence::LoopCadences;
use crate::keys::{is_valid_key_name, key_name_ok};

verus! {

/// Whether a text reads as an Ethereum address.
pub uninterp spec fn eth_address_parses(s: Seq<char>) -> bool;

/// Relies on clarity's `FromStr` for `Address`: whether the text reads as an
/// Ethereum address; the empty text reads as the zero address.
#[verifier::external_body]
fn parses_as_eth_address(s: &str) -> (r: bool)
    ensures
        r == eth_address_parses(s@),
        s@.len() == 0 ==> r,
{
    s.parse::<clarity::Address>().is_ok()
}

/// Start the orchestrator with the named Cosmos and Ethereum keys.
#[derive(Debug)]
pub struct StartCommand {
    pub cosmos_key: String,
    pub ethereum_key: String,
    /// Run only the signer and the relayer, for a node whose oracle duty
    /// another process already performs.
    pub orchestrator_only: bool,
}

/// Which of the three loops run.
#[derive(Clone, Copy, Debug, PartialEq, Eq, Structural)]
pub struct LoopSet {
    pub oracle: bool,
    pub signer: bool,
    pub relayer: bool,
}

/// What the coordinator starts with once its inputs are checked.
#[derive(Clone, Copy, Debug, PartialEq, Eq, Structural)]
pub struct StartPlan {
    pub loops: LoopSet,
    pub connection_timeout_ms: u64,
}

/// A fatal startup error: the process stops before any loop runs.
#[derive(Clone, Copy, Debug, PartialEq, Eq, Structural)]
pub enum StartError {
    InvalidCosmosKeyName,
    InvalidEthereumKeyName,
    InvalidContractAddress,
}

pub open spec fn loops_for(orchestrator_only: bool) -> LoopSet {
    LoopSet { oracle: !orchestrator_only, signer: true, relayer: true }
}

impl StartCommand {
    /// The loops this command runs: the signer and the relayer always, the
    /// oracle unless `orchestrator_only` is set.
    pub fn loops(&self) -> (r: LoopSet)
        ensures
            r == loops_for(self.orchestrator_only),
    {
        LoopSet { oracle: !self.orchestrator_only, signer: true, relayer: true }
    }

    /// Checks the key names and the bridge contract address, in that order,
    /// and gives the loops to run with the connection timeout, which is the
    /// cadence of the fastest loop.
    pub fn plan(&self, contract_address: &str, cadences: &LoopCadences) -> (r: Result<
        StartPlan,
        StartError,
    >)
        ensures
            !key_name_ok(self.cosmos_key@) ==> r == Err::<StartPlan, _>(
                StartError::InvalidCosmosKeyName,
            ),
            key_name_ok(self.cosmos_key@) && !key_name_ok(self.ethereum_key@) ==> r == Err::<
                StartPlan,
                _,
            >(StartError::InvalidEthereumKeyName),
            key_name_ok(self.cosmos_key@) && key_name_ok(self.ethereum_key@) && !eth_address_parses(
                contract_address@,
            ) ==> r == Err::<StartPlan, _>(StartError::InvalidContractAddress),
            key_name_ok(self.cosmos_key@) && key_name_ok(self.ethereum_key@) && eth_address_parses(
                contract_address@,
            ) ==> r == Ok::<_, StartError>(
                (StartPlan {
                    loops: loops_for(self.orchestrator_only),
                    connection_timeout_ms: cadences.fastest() as u64,
                }),
            ),
    {
        if !is_valid_key_name(self.cosmos_key.as_str()) {
            return Err(StartError::InvalidCosmosKeyName);
        }
        if !is_valid_key_name(self.ethereum_key.as_str()) {
            return Err(StartError::InvalidEthereumKeyName);
        }
        if !parses_as_eth_address(contract_address) {
            return Err(StartError::InvalidContractAddress);
        }
        Ok(StartPlan { loops: self.loops(), connection_timeout_ms: cadences.connection_timeout_ms() })
    }
}

} // verus!
