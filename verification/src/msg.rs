//! The messages that the contract takes.

use crate::state::Config;
use vstd::prelude::*;

verus! {

#[derive(Debug, Clone, PartialEq, Eq)]
pub struct InstantiateMsg {}

#[derive(Debug, Clone, PartialEq, Eq)]
pub enum QueryMsg {
    /// Get the config state
    Config {  },
}

#[derive(Debug, Clone, PartialEq, Eq)]
pub enum ExecuteMsg {
    /// Verify one round of the beacon: `signature` and `msg_g2` are compressed
    /// points of the second group, `worker` names who sent the round in.
    Verify { signature: Vec<u8>, msg_g2: Vec<u8>, worker: String, round: u64 },
}

/// The answer to `QueryMsg::Config`.
pub type ConfigResponse = Config;

/// We currently take no arguments for migrations
#[derive(Debug, Clone, PartialEq, Eq)]
pub struct MigrateMsg {}

} // verus!
