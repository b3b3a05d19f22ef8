//! Verification of one beacon round: decode the three points, check the
//! pairing equation, derive the randomness.

use crate::codec::{
    decode_g1, decode_g2, failure_text, g1_refusal, g2_refusal, is_g1_point, is_g2_point,
    DecodeError,
};
use crate::curve::{g1_generator_bytes, G1Point, G2Point};
use crate::pairing::{fast_pairing_equality, pairings_agree};
use crate::randomness::{derive_randomness, sha256};
use vstd::prelude::*;

verus! {

/// Why a request could not be judged at all.
#[derive(Debug, Clone, PartialEq, Eq)]
pub enum VerificationError {
    /// The input named by `field` is not a point; `reason` says why.
    InvalidPoint { field: String, reason: String },
}

/// The judgement on a request whose three inputs are points.
#[derive(Debug, Clone, Copy, PartialEq, Eq)]
pub enum VerificationOutcome {
    /// The signature is the beacon's, and this is the randomness of the round.
    Valid([u8; 32]),
    /// The signature is not the beacon's signature of the message.
    Invalid,
}

/// Everything a verification can answer, as plain data.
pub enum Verdict {
    Valid { randomness: Seq<u8> },
    Invalid,
    InvalidPoint { field: Seq<char>, reason: Seq<char> },
}

/// The answer of a verification as plain data.
pub open spec fn verdict_of(res: Result<VerificationOutcome, VerificationError>) -> Verdict {
    match res {
        Ok(VerificationOutcome::Valid(randomness)) => Verdict::Valid { randomness: randomness@ },
        Ok(VerificationOutcome::Invalid) => Verdict::Invalid,
        Err(VerificationError::InvalidPoint { field, reason }) => Verdict::InvalidPoint {
            field: field@,
            reason: reason@,
        },
    }
}

/// Whether `signature` signs `message` under `public_key`, all three given as
/// compressed encodings of points: `e(g1, signature) == e(public_key, message)`
/// for the fixed generator `g1` of the first group.
pub open spec fn signature_holds(public_key: Seq<u8>, signature: Seq<u8>, message: Seq<u8>) -> bool {
    pairings_agree(g1_generator_bytes(), signature, public_key, message)
}

/// The verdict on a signature once the equation has been checked: the
/// randomness is the digest of the signature as it was sent.
pub open spec fn conclusion(holds: bool, signature: Seq<u8>) -> Verdict {
    if holds {
        Verdict::Valid { randomness: sha256(signature) }
    } else {
        Verdict::Invalid
    }
}

/// The answer that is owed to a request. The public key is judged first, then
/// the signature, then the message. The round labels the request and decides
/// nothing.
pub open spec fn beacon_verdict(
    public_key: Seq<u8>,
    signature: Seq<u8>,
    message: Seq<u8>,
    round: u64,
) -> Verdict {
    if !is_g1_point(public_key) {
        Verdict::InvalidPoint {
            field: "public_key"@,
            reason: failure_text(g1_refusal(public_key)),
        }
    } else if !is_g2_point(signature) {
        Verdict::InvalidPoint { field: "signature"@, reason: failure_text(g2_refusal(signature)) }
    } else if !is_g2_point(message) {
        Verdict::InvalidPoint { field: "message"@, reason: failure_text(g2_refusal(message)) }
    } else {
        conclusion(signature_holds(public_key, signature, message), signature)
    }
}

/// Two requests that differ in the round alone are owed the same answer.
pub proof fn lemma_round_independence(
    public_key: Seq<u8>,
    signature: Seq<u8>,
    message: Seq<u8>,
    round_a: u64,
    round_b: u64,
)
    ensures
        beacon_verdict(public_key, signature, message, round_a) == beacon_verdict(
            public_key,
            signature,
            message,
            round_b,
        ),
{
}

/// A request is answered `Valid` only if all three inputs have their fixed
/// lengths and are points of which the pairing equation holds.
pub proof fn lemma_valid_only_for_points(
    public_key: Seq<u8>,
    signature: Seq<u8>,
    message: Seq<u8>,
    round: u64,
)
    requires
        beacon_verdict(public_key, signature, message, round) is Valid,
    ensures
        public_key.len() == 48,
        signature.len() == 96,
        message.len() == 96,
        is_g1_point(public_key),
        is_g2_point(signature),
        is_g2_point(message),
        signature_holds(public_key, signature, message),
{
}

/// An input that is not a point, for whatever reason the codec has, is answered
/// as an invalid point: the pairing equation is asked of points only, and an
/// answer of `Valid` or `Invalid` says that all three inputs were points.
pub proof fn lemma_only_points_are_judged(
    public_key: Seq<u8>,
    signature: Seq<u8>,
    message: Seq<u8>,
    round: u64,
)
    ensures
        beacon_verdict(public_key, signature, message, round) is InvalidPoint <==> !(is_g1_point(
            public_key,
        ) && is_g2_point(signature) && is_g2_point(message)),
        !is_g1_point(public_key) ==> beacon_verdict(public_key, signature, message, round) == (
        Verdict::InvalidPoint {
            field: "public_key"@,
            reason: failure_text(g1_refusal(public_key)),
        }),
{
}

/// The randomness of a valid round is the digest of its signature and of
/// nothing else: two valid requests with the same signature bytes carry the
/// same randomness, whatever their keys, messages and rounds.
pub proof fn lemma_randomness_of_signature_alone(
    signature: Seq<u8>,
    public_key_a: Seq<u8>,
    message_a: Seq<u8>,
    round_a: u64,
    public_key_b: Seq<u8>,
    message_b: Seq<u8>,
    round_b: u64,
)
    requires
        beacon_verdict(public_key_a, signature, message_a, round_a) is Valid,
        beacon_verdict(public_key_b, signature, message_b, round_b) is Valid,
    ensures
        beacon_verdict(public_key_a, signature, message_a, round_a) == beacon_verdict(
            public_key_b,
            signature,
            message_b,
            round_b,
        ),
        beacon_verdict(public_key_a, signature, message_a, round_a) == (Verdict::Valid {
            randomness: sha256(signature),
        }),
{
}

/// Passes a decoded point on, or turns the refusal into the error that names
/// the field it was read from.
pub fn named_point<P>(field: &str, decoded: Result<P, DecodeError>) -> (res: Result<
    P,
    VerificationError,
>)
    ensures
        match decoded {
            Ok(point) => res == Ok::<P, VerificationError>(point),
            Err(error) => res matches Err(VerificationError::InvalidPoint { field: name, reason })
                && name@ == field@ && reason@ == failure_text(error@),
        },
{
    match decoded {
        Ok(point) => Ok(point),
        Err(error) => Err(
            VerificationError::InvalidPoint {
                field: String::from_str(field),
                reason: error.message(),
            },
        ),
    }
}

/// The outcome for a signature that is a point, given whether the pairing
/// equation holds of it: the randomness is derived only where it does.
pub fn conclude(holds: bool, signature: &[u8]) -> (outcome: VerificationOutcome)
    ensures
        verdict_of(Ok(outcome)) == conclusion(holds, signature@),
{
    if holds {
        VerificationOutcome::Valid(derive_randomness(signature))
    } else {
        VerificationOutcome::Invalid
    }
}

/// The second half of a verification: the public key and the message are
/// points already, the signature is still bytes.
///
/// Refuses a signature that is not a point of the second group, under the
/// field name `signature`; otherwise says whether the signature signs the
/// message under the key.
pub fn verify_step2(pk: &G1Point, signature: &[u8], msg_on_g2: &G2Point) -> (res: Result<
    bool,
    VerificationError,
>)
    ensures
        if is_g2_point(signature@) {
            res == Ok::<bool, VerificationError>(signature_holds(pk@, signature@, msg_on_g2@))
        } else {
            res matches Err(VerificationError::InvalidPoint { field, reason }) && field@
                == "signature"@ && reason@ == failure_text(g2_refusal(signature@))
        },
{
    let g1 = G1Point::generator();
    let sigma = match named_point("signature", decode_g2(signature)) {
        Ok(sigma) => sigma,
        Err(rejection) => {
            return Err(rejection);
        },
    };
    Ok(fast_pairing_equality(&g1, &sigma, pk, msg_on_g2))
}

/// Judges one beacon round.
///
/// `public_key` is the beacon's key, 48 bytes of a compressed point of the
/// first group; `signature` and `message_point` are 96 bytes each, compressed
/// points of the second group. An input that is not a point is refused under
/// its field name, the public key before the signature, the signature before
/// the message. Of three points the pairing equation decides, and a valid
/// signature yields the SHA-256 digest of its bytes as the randomness.
pub fn verify_beacon(public_key: &[u8], signature: &[u8], message_point: &[u8], round: u64) -> (res:
    Result<VerificationOutcome, VerificationError>)
    ensures
        verdict_of(res) == beacon_verdict(public_key@, signature@, message_point@, round),
{
    let pk = match named_point("public_key", decode_g1(public_key)) {
        Ok(pk) => pk,
        Err(rejection) => {
            return Err(rejection);
        },
    };
    let sigma = match named_point("signature", decode_g2(signature)) {
        Ok(sigma) => sigma,
        Err(rejection) => {
            return Err(rejection);
        },
    };
    let msg_on_g2 = match named_point("message", decode_g2(message_point)) {
        Ok(point) => point,
        Err(rejection) => {
            return Err(rejection);
        },
    };
    let g1 = G1Point::generator();
    let holds = fast_pairing_equality(&g1, &sigma, &pk, &msg_on_g2);
    Ok(conclude(holds, signature))
}

} // verus!
