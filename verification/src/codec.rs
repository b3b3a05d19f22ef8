//! Decoding of compressed points: fixed lengths, canonical encodings, typed
//! refusals.

use crate::curve::{g1_decoding, g1_from_bytes, g2_decoding, g2_from_bytes, G1Point, G2Point};
use crate::curve::{G1_COMPRESSED_LEN, G2_COMPRESSED_LEN};
use crate::text::{decimal, u64_to_decimal};
use vstd::prelude::*;

verus! {

/// Why a byte string is not a point.
#[derive(Debug, Clone, PartialEq, Eq)]
pub enum DecodeError {
    /// The input does not have the length of a compressed point of its group.
    InvalidLength { expected: usize, actual: usize },
    /// The input has the right length and is not the canonical encoding of a
    /// point of the prime-order subgroup; `reason` says why, where the curve
    /// library refused it in the library's own words.
    InvalidPoint { reason: String },
}

/// A `DecodeError` as plain data.
pub enum DecodeFailure {
    InvalidLength { expected: nat, actual: nat },
    InvalidPoint { reason: Seq<char> },
}

impl View for DecodeError {
    type V = DecodeFailure;

    open spec fn view(&self) -> DecodeFailure {
        match *self {
            DecodeError::InvalidLength { expected, actual } => DecodeFailure::InvalidLength {
                expected: expected as nat,
                actual: actual as nat,
            },
            DecodeError::InvalidPoint { reason } => DecodeFailure::InvalidPoint { reason: reason@ },
        }
    }
}

/// The text of a refusal.
pub open spec fn failure_text(failure: DecodeFailure) -> Seq<char> {
    match failure {
        DecodeFailure::InvalidLength { expected, actual } => {
            "Invalid input length for point (must be in compressed format): Expected "@
                + decimal(expected) + ", actual: "@ + decimal(actual)
        },
        DecodeFailure::InvalidPoint { reason } => reason,
    }
}

/// The reason given for bytes that decode to a point with another encoding.
pub open spec fn not_canonical() -> Seq<char> {
    "Invalid point: encoding is not canonical"@
}

/// Whether `bytes` is a point of the first group: 48 bytes that the curve
/// library decodes to a point which it encodes as these same bytes.
pub open spec fn is_g1_point(bytes: Seq<u8>) -> bool {
    bytes.len() == 48 && g1_decoding(bytes) == Ok::<Seq<u8>, Seq<char>>(bytes)
}

/// Whether `bytes` is a point of the second group: 96 bytes that the curve
/// library decodes to a point which it encodes as these same bytes.
pub open spec fn is_g2_point(bytes: Seq<u8>) -> bool {
    bytes.len() == 96 && g2_decoding(bytes) == Ok::<Seq<u8>, Seq<char>>(bytes)
}

/// Why bytes of the expected length are no point, given what the curve
/// library made of them: its own refusal, or a point with another encoding.
pub open spec fn point_refusal(decoding: Result<Seq<u8>, Seq<char>>) -> DecodeFailure {
    match decoding {
        Ok(_) => DecodeFailure::InvalidPoint { reason: not_canonical() },
        Err(reason) => DecodeFailure::InvalidPoint { reason },
    }
}

/// Why `bytes` is not a point of the first group.
pub open spec fn g1_refusal(bytes: Seq<u8>) -> DecodeFailure {
    if bytes.len() != 48 {
        DecodeFailure::InvalidLength { expected: 48, actual: bytes.len() }
    } else {
        point_refusal(g1_decoding(bytes))
    }
}

/// Why `bytes` is not a point of the second group.
pub open spec fn g2_refusal(bytes: Seq<u8>) -> DecodeFailure {
    if bytes.len() != 96 {
        DecodeFailure::InvalidLength { expected: 96, actual: bytes.len() }
    } else {
        point_refusal(g2_decoding(bytes))
    }
}

impl DecodeError {
    /// The refusal in words.
    pub fn message(&self) -> (text: String)
        ensures
            text@ == failure_text(self@),
    {
        match self {
            DecodeError::InvalidLength { expected, actual } => {
                let mut text = String::from_str(
                    "Invalid input length for point (must be in compressed format): Expected ",
                );
                let expected_digits = u64_to_decimal(*expected as u64);
                text.append(expected_digits.as_str());
                text.append(", actual: ");
                let actual_digits = u64_to_decimal(*actual as u64);
                text.append(actual_digits.as_str());
                text
            },
            DecodeError::InvalidPoint { reason } => reason.clone(),
        }
    }
}

/// Accepts what the curve library decoded from `bytes` as a point of the
/// first group only if the point's encoding is `bytes` again; a refusal of
/// the curve library is passed on with its reason.
pub fn accept_g1(bytes: &[u8], decoded: Result<G1Point, String>) -> (res: Result<
    G1Point,
    DecodeError,
>)
    ensures
        match decoded {
            Ok(point) => if point@ == bytes@ {
                res == Ok::<G1Point, DecodeError>(point)
            } else {
                res matches Err(DecodeError::InvalidPoint { reason }) && reason@ == not_canonical()
            },
            Err(text) => res == Err::<G1Point, DecodeError>(
                DecodeError::InvalidPoint { reason: text },
            ),
        },
{
    match decoded {
        Ok(point) => {
            if point.is_encoded_by(bytes) {
                Ok(point)
            } else {
                Err(
                    DecodeError::InvalidPoint {
                        reason: String::from_str("Invalid point: encoding is not canonical"),
                    },
                )
            }
        },
        Err(reason) => Err(DecodeError::InvalidPoint { reason }),
    }
}

/// Accepts what the curve library decoded from `bytes` as a point of the
/// second group only if the point's encoding is `bytes` again; a refusal of
/// the curve library is passed on with its reason.
pub fn accept_g2(bytes: &[u8], decoded: Result<G2Point, String>) -> (res: Result<
    G2Point,
    DecodeError,
>)
    ensures
        match decoded {
            Ok(point) => if point@ == bytes@ {
                res == Ok::<G2Point, DecodeError>(point)
            } else {
                res matches Err(DecodeError::InvalidPoint { reason }) && reason@ == not_canonical()
            },
            Err(text) => res == Err::<G2Point, DecodeError>(
                DecodeError::InvalidPoint { reason: text },
            ),
        },
{
    match decoded {
        Ok(point) => {
            if point.is_encoded_by(bytes) {
                Ok(point)
            } else {
                Err(
                    DecodeError::InvalidPoint {
                        reason: String::from_str("Invalid point: encoding is not canonical"),
                    },
                )
            }
        },
        Err(reason) => Err(DecodeError::InvalidPoint { reason }),
    }
}

/// Decodes a compressed point of the first group.
///
/// Anything but 48 bytes is refused for its length. Of 48 bytes the curve
/// library decides whether they stand for a point of the prime-order
/// subgroup, and the point is accepted only if these 48 bytes are its
/// encoding: the point that comes back is viewed as the input itself.
pub fn decode_g1(bytes: &[u8]) -> (res: Result<G1Point, DecodeError>)
    ensures
        match res {
            Ok(point) => is_g1_point(bytes@) && point@ == bytes@,
            Err(error) => !is_g1_point(bytes@) && error@ == g1_refusal(bytes@),
        },
        bytes@.len() != 48 ==> res == Err::<G1Point, DecodeError>(
            DecodeError::InvalidLength { expected: 48, actual: bytes.len() },
        ),
{
    if bytes.len() != G1_COMPRESSED_LEN {
        return Err(DecodeError::InvalidLength { expected: G1_COMPRESSED_LEN, actual: bytes.len() });
    }
    accept_g1(bytes, g1_from_bytes(bytes))
}

/// Decodes a compressed point of the second group.
///
/// Anything but 96 bytes is refused for its length. Of 96 bytes the curve
/// library decides whether they stand for a point of the prime-order
/// subgroup, and the point is accepted only if these 96 bytes are its
/// encoding: the point that comes back is viewed as the input itself.
pub fn decode_g2(bytes: &[u8]) -> (res: Result<G2Point, DecodeError>)
    ensures
        match res {
            Ok(point) => is_g2_point(bytes@) && point@ == bytes@,
            Err(error) => !is_g2_point(bytes@) && error@ == g2_refusal(bytes@),
        },
        bytes@.len() != 96 ==> res == Err::<G2Point, DecodeError>(
            DecodeError::InvalidLength { expected: 96, actual: bytes.len() },
        ),
{
    if bytes.len() != G2_COMPRESSED_LEN {
        return Err(DecodeError::InvalidLength { expected: G2_COMPRESSED_LEN, actual: bytes.len() });
    }
    accept_g2(bytes, g2_from_bytes(bytes))
}

} // verus!
