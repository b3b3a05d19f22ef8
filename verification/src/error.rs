//! The errors that a request to the contract can end in.

use cosmwasm_std::StdError;
use vstd::prelude::*;

verus! {

/// `cosmwasm_std::StdError`, the error of the host's standard library.
/// Nothing inside it is visible here.
#[verifier::external_type_specification]
#[verifier::external_body]
pub struct ExStdError(StdError);

/// Why the contract turned a request down.
#[derive(Debug, PartialEq)]
pub enum ContractError {
    /// An error of the host's standard library, carried through as it came.
    Std(StdError),
    /// The signature is not the beacon's signature of the message.
    Unauthorized {  },
    /// No beacon is known for the round.
    NoBeacon {  },
    /// An input of the request is not a point of its group.
    InvalidSignature {  },
    /// Funds came with a message that takes none; the text names the message.
    DoNotSendFunds(String),
    /// The round, named by the text, was added before.
    DrandRoundAlreadyAdded(String),
}

} // verus!
