//! The contract's entry points, as functions of the stored configuration and
//! the message. Loading and saving the configuration is the host's part.

use crate::error::ContractError;
use crate::msg::{ConfigResponse, ExecuteMsg, InstantiateMsg, MigrateMsg, QueryMsg};
use crate::response::{base64_text, binary_to_string, Response};
use crate::state::Config;
use crate::text::{decimal, u64_to_decimal};
use crate::verification::{
    beacon_verdict, verdict_of, verify_beacon, Verdict, VerificationError, VerificationOutcome,
};
use vstd::prelude::*;

verus! {

/// The public key of the drand beacon that the contract is set up for: 48
/// bytes, a compressed point of the first group.
pub open spec fn drand_public_key() -> Seq<u8> {
    seq![
        134u8, 143, 0, 94, 184, 230, 228, 202, 10, 71, 200, 167, 124, 234, 165, 48,
        154, 71, 151, 138, 124, 113, 188, 92, 206, 150, 54, 107, 93, 122, 86, 153,
        55, 197, 41, 238, 218, 102, 199, 41, 55, 132, 169, 64, 40, 1, 175, 49,
    ]
}

/// The attributes of the response to a round that was verified: the round as a
/// decimal numeral, the randomness in base64, and the worker as it was given.
pub open spec fn verified_attributes(round: u64, randomness: Seq<u8>, worker: Seq<char>) -> Seq<
    (Seq<char>, Seq<char>),
> {
    seq![
        ("round"@, decimal(round as nat)),
        ("randomness"@, base64_text(randomness)),
        ("worker"@, worker),
    ]
}

/// Sets the contract up: the configuration to store holds the public key of
/// the drand beacon, and the response is empty.
pub fn instantiate(_msg: InstantiateMsg) -> (res: (Config, Response))
    ensures
        res.0.drand_public_key@ == drand_public_key(),
        res.1@ == Seq::<(Seq<char>, Seq<char>)>::empty(),
{
    let config = Config {
        drand_public_key: vec![
            134, 143, 0, 94, 184, 230, 228, 202, 10, 71, 200, 167, 124, 234, 165, 48, 154, 71, 151,
            138, 124, 113, 188, 92, 206, 150, 54, 107, 93, 122, 86, 153, 55, 197, 41, 238, 218,
            102, 199, 41, 55, 132, 169, 64, 40, 1, 175, 49,
        ],
    };
    (config, Response::default())
}

/// Carries out a message: the one kind there is asks for a verification.
pub fn execute(config: &Config, msg: ExecuteMsg) -> (res: Result<Response, ContractError>)
    ensures
        msg matches ExecuteMsg::Verify { signature, msg_g2, worker, round } && match beacon_verdict(
            config.drand_public_key@,
            signature@,
            msg_g2@,
            round,
        ) {
            Verdict::Valid { randomness } => res matches Ok(response) && response@
                == verified_attributes(round, randomness, worker@),
            Verdict::Invalid => res matches Err(ContractError::Unauthorized {  }),
            Verdict::InvalidPoint { .. } => res matches Err(ContractError::InvalidSignature {  }),
        },
{
    match msg {
        ExecuteMsg::Verify { signature, msg_g2, worker, round } => verify(
            config,
            signature,
            msg_g2,
            worker,
            round,
        ),
    }
}

/// The response to a round that was verified, from the round, the text of
/// its randomness and the worker that sent it in.
pub fn verified_response(round: u64, randomness: String, worker: String) -> (response: Response)
    ensures
        response@ == seq![
            ("round"@, decimal(round as nat)),
            ("randomness"@, randomness@),
            ("worker"@, worker@),
        ],
{
    Response::new().add_attribute("round", u64_to_decimal(round)).add_attribute(
        "randomness",
        randomness,
    ).add_attribute("worker", worker)
}

/// What the contract answers to what the verification found.
///
/// A valid round is answered with its three attributes. A signature that does
/// not sign the message is turned down as unauthorized, and an input that is
/// not a point as an invalid signature.
pub fn respond(outcome: Result<VerificationOutcome, VerificationError>, worker: String, round: u64) -> (res:
    Result<Response, ContractError>)
    ensures
        match verdict_of(outcome) {
            Verdict::Valid { randomness } => res matches Ok(response) && response@
                == verified_attributes(round, randomness, worker@),
            Verdict::Invalid => res matches Err(ContractError::Unauthorized {  }),
            Verdict::InvalidPoint { .. } => res matches Err(ContractError::InvalidSignature {  }),
        },
{
    match outcome {
        Ok(VerificationOutcome::Valid(randomness)) => Ok(
            verified_response(round, binary_to_string(randomness.as_slice()), worker),
        ),
        Ok(VerificationOutcome::Invalid) => Err(ContractError::Unauthorized {  }),
        Err(_) => Err(ContractError::InvalidSignature {  }),
    }
}

/// Verifies one round of the beacon under the configured public key.
///
/// A signature that signs the message point is answered with three
/// attributes: `round`, `randomness` and `worker`. One that does not is
/// turned down as unauthorized, and a request with an input that is not a
/// point as an invalid signature.
pub fn verify(config: &Config, signature: Vec<u8>, msg_g2: Vec<u8>, worker: String, round: u64) -> (res:
    Result<Response, ContractError>)
    ensures
        match beacon_verdict(config.drand_public_key@, signature@, msg_g2@, round) {
            Verdict::Valid { randomness } => res matches Ok(response) && response@
                == verified_attributes(round, randomness, worker@),
            Verdict::Invalid => res matches Err(ContractError::Unauthorized {  }),
            Verdict::InvalidPoint { .. } => res matches Err(ContractError::InvalidSignature {  }),
        },
{
    let outcome = verify_beacon(
        config.drand_public_key.as_slice(),
        signature.as_slice(),
        msg_g2.as_slice(),
        round,
    );
    respond(outcome, worker, round)
}

/// Answers a query: the one kind there is asks for the configuration.
pub fn query(config: &Config, msg: QueryMsg) -> (res: ConfigResponse)
    ensures
        res.drand_public_key@ == config.drand_public_key@,
{
    match msg {
        QueryMsg::Config {  } => query_config(config),
    }
}

/// The stored configuration.
pub fn query_config(config: &Config) -> (res: ConfigResponse)
    ensures
        res.drand_public_key@ == config.drand_public_key@,
{
    Config { drand_public_key: config.drand_public_key.clone() }
}

/// Moves the contract to a new version of its code: nothing stored changes,
/// and the response is empty.
pub fn migrate(_msg: MigrateMsg) -> (res: Response)
    ensures
        res@ == Seq::<(Seq<char>, Seq<char>)>::empty(),
{
    Response::default()
}

} // verus!
