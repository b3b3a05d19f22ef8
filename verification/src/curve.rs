//! The elliptic-curve values of BLS12-381 and the calls into the curve
//! library that produce them.
//!
//! Every value here keeps the curve library's own object beside its canonical
//! encoding as plain data. Contracts speak of the encoding only; the two
//! fields of a value are written together, and only by the functions of this
//! file that call into the curve library.

use fff::{Field, PrimeField};
use groupy::CurveAffine;
use paired::bls12_381::{Bls12, Fq12, G1Affine, G2Affine};
use paired::{Engine, PairingCurveAffine};
use vstd::prelude::*;

verus! {

/// `paired::bls12_381::G1Affine`, a point of the first group in affine
/// coordinates. Nothing inside it is visible here.
#[verifier::external_type_specification]
#[verifier::external_body]
pub struct ExG1Affine(G1Affine);

/// `paired::bls12_381::G2Affine`, a point of the second group in affine
/// coordinates. Nothing inside it is visible here.
#[verifier::external_type_specification]
#[verifier::external_body]
pub struct ExG2Affine(G2Affine);

/// `paired::bls12_381::Fq12`, an element of the target field. Nothing inside
/// it is visible here.
#[verifier::external_type_specification]
#[verifier::external_body]
pub struct ExFq12(Fq12);

/// Length of a compressed point of the first group.
pub const G1_COMPRESSED_LEN: usize = 48;

/// Length of a compressed point of the second group.
pub const G2_COMPRESSED_LEN: usize = 96;

/// A point of the prime-order subgroup of the first group, viewed as its
/// compressed encoding: `affine` is the point as the curve library holds it,
/// `bytes` the encoding that the curve library writes for it.
#[derive(Debug, PartialEq, Eq)]
pub struct G1Point {
    bytes: Vec<u8>,
    affine: G1Affine,
}

/// A point of the prime-order subgroup of the second group, viewed as its
/// compressed encoding: `affine` is the point as the curve library holds it,
/// `bytes` the encoding that the curve library writes for it.
#[derive(Debug, PartialEq, Eq)]
pub struct G2Point {
    bytes: Vec<u8>,
    affine: G2Affine,
}

/// An element of the pairing's target field, viewed as the limbs of its twelve
/// base-field coefficients: coefficient by coefficient in the order of the
/// tower, each as six limbs of its canonical residue, least significant first.
/// `value` is the element as the curve library holds it, `limbs` what the
/// curve library gives for its coefficients.
#[derive(Debug, PartialEq, Eq)]
pub struct TargetElement {
    limbs: Vec<u64>,
    value: Fq12,
}

impl View for G1Point {
    type V = Seq<u8>;

    closed spec fn view(&self) -> Seq<u8> {
        self.bytes@
    }
}

impl View for G2Point {
    type V = Seq<u8>;

    closed spec fn view(&self) -> Seq<u8> {
        self.bytes@
    }
}

impl View for TargetElement {
    type V = Seq<u64>;

    closed spec fn view(&self) -> Seq<u64> {
        self.limbs@
    }
}

/// What decoding `data` as a compressed point of the first group gives: the
/// compressed encoding of the decoded point, or the text of the refusal.
pub uninterp spec fn g1_decoding(data: Seq<u8>) -> Result<Seq<u8>, Seq<char>>;

/// What decoding `data` as a compressed point of the second group gives: the
/// compressed encoding of the decoded point, or the text of the refusal.
pub uninterp spec fn g2_decoding(data: Seq<u8>) -> Result<Seq<u8>, Seq<char>>;

/// The compressed encoding of the inverse of the point that `point` encodes.
pub uninterp spec fn g1_negation(point: Seq<u8>) -> Seq<u8>;

/// The limbs of the Miller loop over the one pair of points that `p` and `q`
/// encode.
pub uninterp spec fn miller_loop_value(p: Seq<u8>, q: Seq<u8>) -> Seq<u64>;

/// The limbs of the product of the two target-field elements that `a` and `b`
/// write.
pub uninterp spec fn fq12_product(a: Seq<u64>, b: Seq<u64>) -> Seq<u64>;

/// The limbs of the final exponentiation of the element that `f` writes, where
/// the curve library can compute it.
pub uninterp spec fn final_exponentiation_value(f: Seq<u64>) -> Option<Seq<u64>>;

/// The compressed encoding of the fixed generator of the first group.
pub open spec fn g1_generator_bytes() -> Seq<u8> {
    seq![
        0x97u8, 0xf1, 0xd3, 0xa7, 0x31, 0x97, 0xd7, 0x94, 0x26, 0x95, 0x63, 0x8c,
        0x4f, 0xa9, 0xac, 0x0f, 0xc3, 0x68, 0x8c, 0x4f, 0x97, 0x74, 0xb9, 0x05,
        0xa1, 0x4e, 0x3a, 0x3f, 0x17, 0x1b, 0xac, 0x58, 0x6c, 0x55, 0xe8, 0x3f,
        0xf9, 0x7a, 0x1a, 0xef, 0xfb, 0x3a, 0xf0, 0x0a, 0xdb, 0x22, 0xc6, 0xbb,
    ]
}

/// The limbs of the multiplicative identity of the target field: the first
/// coefficient is one, the other eleven are zero.
pub open spec fn target_one_limbs() -> Seq<u64> {
    Seq::new(72, |i: int| if i == 0 { 1u64 } else { 0u64 })
}

/// Calls `drand_verify::g1_from_variable`, which refuses any length but 48 and
/// then decompresses with the curve, subgroup and flag checks of
/// `G1Compressed::into_affine`. A decoded point comes back with the bytes of
/// `into_compressed`, a refusal as the text that its `Display` writes.
#[verifier::external_body]
pub(crate) fn g1_from_bytes(data: &[u8]) -> (res: Result<G1Point, String>)
    ensures
        match res {
            Ok(point) => g1_decoding(data@) == Ok::<Seq<u8>, Seq<char>>(point@),
            Err(text) => g1_decoding(data@) == Err::<Seq<u8>, Seq<char>>(text@),
        },
{
    match drand_verify::g1_from_variable(data) {
        Ok(affine) => Ok(G1Point { bytes: affine.into_compressed().as_ref().to_vec(), affine }),
        Err(refusal) => Err(refusal.to_string()),
    }
}

/// Calls `drand_verify::g2_from_variable`, which refuses any length but 96 and
/// then decompresses with the curve, subgroup and flag checks of
/// `G2Compressed::into_affine`. A decoded point comes back with the bytes of
/// `into_compressed`, a refusal as the text that its `Display` writes.
#[verifier::external_body]
pub(crate) fn g2_from_bytes(data: &[u8]) -> (res: Result<G2Point, String>)
    ensures
        match res {
            Ok(point) => g2_decoding(data@) == Ok::<Seq<u8>, Seq<char>>(point@),
            Err(text) => g2_decoding(data@) == Err::<Seq<u8>, Seq<char>>(text@),
        },
{
    match drand_verify::g2_from_variable(data) {
        Ok(affine) => Ok(G2Point { bytes: affine.into_compressed().as_ref().to_vec(), affine }),
        Err(refusal) => Err(refusal.to_string()),
    }
}

/// Calls `G1Affine::one`, the fixed generator of the first group, and takes its
/// compressed encoding.
#[verifier::external_body]
pub(crate) fn g1_one() -> (generator: G1Point)
    ensures
        generator@ == g1_generator_bytes(),
{
    let affine = G1Affine::one();
    G1Point { bytes: affine.into_compressed().as_ref().to_vec(), affine }
}

/// Calls `CurveAffine::negate` on a copy of the point: the inverse in the
/// group, again with its compressed encoding.
#[verifier::external_body]
pub(crate) fn g1_negate(point: &G1Point) -> (negated: G1Point)
    ensures
        negated@ == g1_negation(point@),
{
    let mut affine = point.affine;
    affine.negate();
    G1Point { bytes: affine.into_compressed().as_ref().to_vec(), affine }
}

/// Calls `Bls12::miller_loop` on the one pair made of the two points, each
/// prepared by `PairingCurveAffine::prepare`.
#[verifier::external_body]
pub(crate) fn miller_loop(p: &G1Point, q: &G2Point) -> (f: TargetElement)
    ensures
        f@ == miller_loop_value(p@, q@),
{
    let value = Bls12::miller_loop([(&p.affine.prepare(), &q.affine.prepare())].iter());
    let limbs = [value.c0, value.c1].iter().flat_map(|six| [six.c0, six.c1, six.c2])
        .flat_map(|two| [two.c0, two.c1]).flat_map(|base| base.into_repr().0).collect();
    TargetElement { limbs, value }
}

/// Calls `Field::mul_assign` of the target field on a copy of `a`, with `b`.
#[verifier::external_body]
pub(crate) fn target_mul(a: &TargetElement, b: &TargetElement) -> (product: TargetElement)
    ensures
        product@ == fq12_product(a@, b@),
{
    let mut value = a.value;
    value.mul_assign(&b.value);
    let limbs = [value.c0, value.c1].iter().flat_map(|six| [six.c0, six.c1, six.c2])
        .flat_map(|two| [two.c0, two.c1]).flat_map(|base| base.into_repr().0).collect();
    TargetElement { limbs, value }
}

/// Calls `Bls12::final_exponentiation`, which gives nothing where the element
/// has no inverse.
#[verifier::external_body]
pub(crate) fn final_exponentiation(f: &TargetElement) -> (res: Option<TargetElement>)
    ensures
        match res {
            Some(raised) => final_exponentiation_value(f@) == Some(raised@),
            None => final_exponentiation_value(f@) is None,
        },
{
    let value = Bls12::final_exponentiation(&f.value)?;
    let limbs = [value.c0, value.c1].iter().flat_map(|six| [six.c0, six.c1, six.c2])
        .flat_map(|two| [two.c0, two.c1]).flat_map(|base| base.into_repr().0).collect();
    Some(TargetElement { limbs, value })
}

/// Calls `Fq12::one`, the multiplicative identity of the target field.
#[verifier::external_body]
pub(crate) fn target_one() -> (one: TargetElement)
    ensures
        one@ == target_one_limbs(),
{
    let value = Fq12::one();
    let limbs = [value.c0, value.c1].iter().flat_map(|six| [six.c0, six.c1, six.c2])
        .flat_map(|two| [two.c0, two.c1]).flat_map(|base| base.into_repr().0).collect();
    TargetElement { limbs, value }
}

/// Whether two byte strings are the same, byte by byte.
pub fn same_bytes(a: &[u8], b: &[u8]) -> (same: bool)
    ensures
        same == (a@ == b@),
{
    if a.len() != b.len() {
        return false;
    }
    let mut i: usize = 0;
    while i < a.len()
        invariant
            i <= a.len(),
            a.len() == b.len(),
            forall|j: int| 0 <= j < i ==> a@[j] == b@[j],
        decreases a.len() - i,
    {
        if a[i] != b[i] {
            return false;
        }
        i += 1;
    }
    assert(a@ =~= b@);
    true
}

impl G1Point {
    /// The fixed generator of the first group.
    pub fn generator() -> (generator: G1Point)
        ensures
            generator@ == g1_generator_bytes(),
    {
        g1_one()
    }

    /// The compressed encoding of the point.
    pub fn to_bytes(&self) -> (bytes: Vec<u8>)
        ensures
            bytes@ == self@,
    {
        self.bytes.clone()
    }

    /// Whether `bytes` is the compressed encoding of the point.
    pub fn is_encoded_by(&self, bytes: &[u8]) -> (same: bool)
        ensures
            same == (self@ == bytes@),
    {
        same_bytes(self.bytes.as_slice(), bytes)
    }
}

impl G2Point {
    /// The compressed encoding of the point.
    pub fn to_bytes(&self) -> (bytes: Vec<u8>)
        ensures
            bytes@ == self@,
    {
        self.bytes.clone()
    }

    /// Whether `bytes` is the compressed encoding of the point.
    pub fn is_encoded_by(&self, bytes: &[u8]) -> (same: bool)
        ensures
            same == (self@ == bytes@),
    {
        same_bytes(self.bytes.as_slice(), bytes)
    }
}

impl TargetElement {
    /// The multiplicative identity of the target field.
    pub fn one() -> (one: TargetElement)
        ensures
            one@ == target_one_limbs(),
    {
        target_one()
    }

    /// The limbs of the element.
    pub fn to_limbs(&self) -> (limbs: Vec<u64>)
        ensures
            limbs@ == self@,
    {
        self.limbs.clone()
    }

    /// Whether two elements of the target field are the same element: their
    /// limbs agree one by one.
    pub fn same_as(&self, other: &TargetElement) -> (same: bool)
        ensures
            same == (self@ == other@),
    {
        if self.limbs.len() != other.limbs.len() {
            return false;
        }
        let mut i: usize = 0;
        while i < self.limbs.len()
            invariant
                i <= self.limbs.len(),
                self.limbs.len() == other.limbs.len(),
                forall|j: int| 0 <= j < i ==> self.limbs@[j] == other.limbs@[j],
            decreases self.limbs.len() - i,
        {
            if self.limbs[i] != other.limbs[i] {
                return false;
            }
            i += 1;
        }
        assert(self.limbs@ =~= other.limbs@);
        true
    }
}

} // verus!
