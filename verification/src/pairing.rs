//! The pairing check: whether two pairs of points pair to the same value.

use crate::curve::{
    final_exponentiation, final_exponentiation_value, fq12_product, g1_negate, g1_negation,
    miller_loop, miller_loop_value, target_mul, target_one_limbs, G1Point, G2Point,
    TargetElement,
};
use vstd::prelude::*;

verus! {

/// The product of the Miller loops of `(-p, q)` and `(r, s)`, before the final
/// exponentiation.
pub open spec fn miller_product(p: Seq<u8>, q: Seq<u8>, r: Seq<u8>, s: Seq<u8>) -> Seq<u64> {
    fq12_product(miller_loop_value(g1_negation(p), q), miller_loop_value(r, s))
}

/// Whether `e(p, q) == e(r, s)`, decided as `e(-p, q) * e(r, s) == 1`: the two
/// Miller loops are multiplied and raised once. Where the product cannot be
/// raised, the pairings do not agree.
pub open spec fn pairings_agree(p: Seq<u8>, q: Seq<u8>, r: Seq<u8>, s: Seq<u8>) -> bool {
    final_exponentiation_value(miller_product(p, q, r, s)) == Some(target_one_limbs())
}

/// Whether what a final exponentiation gave is the identity of the target
/// field. A product that could not be raised is not.
pub fn raised_to_one(raised: &Option<TargetElement>) -> (one: bool)
    ensures
        one == (raised matches Some(value) && value@ == target_one_limbs()),
{
    match raised {
        Some(value) => {
            let identity = TargetElement::one();
            value.same_as(&identity)
        },
        None => false,
    }
}

/// Checks `e(p, q) == e(r, s)` with one final exponentiation.
pub fn fast_pairing_equality(p: &G1Point, q: &G2Point, r: &G1Point, s: &G2Point) -> (equal: bool)
    ensures
        equal == pairings_agree(p@, q@, r@, s@),
{
    let minus_p = g1_negate(p);
    let left = miller_loop(&minus_p, q);
    let right = miller_loop(r, s);
    let product = target_mul(&left, &right);
    let raised = final_exponentiation(&product);
    raised_to_one(&raised)
}

} // verus!
