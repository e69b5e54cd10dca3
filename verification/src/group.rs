//! Elements of the two source groups of the pairing.
//!
//! Signatures live in the first group, verification keys in the second. An
//! element is held as its uncompressed encoding, which `amcl_wrapper` reads
//! back to the same point. The group operations are done by `amcl_wrapper`;
//! each one below names its result.

use vstd::prelude::*;
use amcl_wrapper::group_elem::GroupElement;
use crate::field::FieldElement;

verus! {

/// Length in bytes of an uncompressed element of the signature group.
pub const SIGNATURE_GROUP_SIZE: usize = 97;

/// Length in bytes of an uncompressed element of the verification-key group.
pub const VERKEY_GROUP_SIZE: usize = 193;

/// Length in bytes of an element of the target group.
pub const TARGET_GROUP_SIZE: usize = 576;

/// The element of the signature group that hashing `msg` yields.
pub uninterp spec fn sig_group_hash(msg: Seq<u8>) -> Seq<u8>;

/// The element `p` of the signature group multiplied by the scalar `s`.
pub uninterp spec fn sig_group_mul(p: Seq<u8>, s: Seq<u8>) -> Seq<u8>;

/// The sum of two elements of the signature group.
pub uninterp spec fn sig_group_add(p: Seq<u8>, q: Seq<u8>) -> Seq<u8>;

/// The inverse of an element of the signature group.
pub uninterp spec fn sig_group_neg(p: Seq<u8>) -> Seq<u8>;

/// Whether `p` encodes the identity of the signature group.
pub uninterp spec fn sig_group_is_identity(p: Seq<u8>) -> bool;

/// The compressed encoding of an element of the signature group.
pub uninterp spec fn sig_group_compressed(p: Seq<u8>) -> Seq<u8>;

/// The element of the verification-key group that hashing `msg` yields.
pub uninterp spec fn verkey_group_hash(msg: Seq<u8>) -> Seq<u8>;

/// The element `p` of the verification-key group multiplied by the scalar `s`.
pub uninterp spec fn verkey_group_mul(p: Seq<u8>, s: Seq<u8>) -> Seq<u8>;

/// The sum of two elements of the verification-key group.
pub uninterp spec fn verkey_group_add(p: Seq<u8>, q: Seq<u8>) -> Seq<u8>;

/// The difference `p - q` of two elements of the verification-key group.
pub uninterp spec fn verkey_group_sub(p: Seq<u8>, q: Seq<u8>) -> Seq<u8>;

/// Whether `p` encodes the identity of the verification-key group.
pub uninterp spec fn verkey_group_is_identity(p: Seq<u8>) -> bool;

/// The compressed encoding of an element of the verification-key group.
pub uninterp spec fn verkey_group_compressed(p: Seq<u8>) -> Seq<u8>;

/// The sum of `bases[i]` multiplied by `scalars[i]`, as the constant-time
/// routine computes it.
pub uninterp spec fn verkey_group_msm_const_time(bases: Seq<Seq<u8>>, scalars: Seq<Seq<u8>>) -> Seq<u8>;

/// The sum of `bases[i]` multiplied by `scalars[i]`, as the variable-time
/// routine computes it.
pub uninterp spec fn verkey_group_msm_var_time(bases: Seq<Seq<u8>>, scalars: Seq<Seq<u8>>) -> Seq<u8>;

/// The element `e(g1, g2) * e(h1, h2)` of the target group.
pub uninterp spec fn pairing_product(g1: Seq<u8>, g2: Seq<u8>, h1: Seq<u8>, h2: Seq<u8>) -> Seq<u8>;

/// Whether `t` encodes the unit of the target group.
pub uninterp spec fn target_group_is_one(t: Seq<u8>) -> bool;

/// Whether `e(g1, g2) * e(h1, h2)` is the unit of the target group.
pub open spec fn pairing_product_is_one(g1: Seq<u8>, g2: Seq<u8>, h1: Seq<u8>, h2: Seq<u8>) -> bool {
    target_group_is_one(pairing_product(g1, g2, h1, h2))
}

/// An element of the signature group, held as its uncompressed encoding.
#[derive(Debug, PartialEq, Eq)]
pub struct SignatureGroup {
    bytes: Vec<u8>,
}

/// An element of the verification-key group, held as its uncompressed encoding.
#[derive(Debug, PartialEq, Eq)]
pub struct VerkeyGroup {
    bytes: Vec<u8>,
}

impl View for SignatureGroup {
    type V = Seq<u8>;

    closed spec fn view(&self) -> Seq<u8> {
        self.bytes@
    }
}

impl View for VerkeyGroup {
    type V = Seq<u8>;

    closed spec fn view(&self) -> Seq<u8> {
        self.bytes@
    }
}

/// The encodings of a sequence of field elements.
pub open spec fn field_views(s: Seq<FieldElement>) -> Seq<Seq<u8>> {
    Seq::new(s.len(), |i: int| s[i]@)
}

/// The encodings of a sequence of verification-key group elements.
pub open spec fn verkey_views(s: Seq<VerkeyGroup>) -> Seq<Seq<u8>> {
    Seq::new(s.len(), |i: int| s[i]@)
}

impl Clone for SignatureGroup {
    fn clone(&self) -> (r: SignatureGroup)
        ensures
            r@ == self@,
    {
        proof {
            use_type_invariant(self);
        }
        SignatureGroup { bytes: self.bytes.clone() }
    }
}

impl SignatureGroup {
    #[verifier::type_invariant]
    spec fn well_formed(self) -> bool {
        self.bytes@.len() == SIGNATURE_GROUP_SIZE
    }

    /// Takes an uncompressed encoding; `None` for any other length.
    pub fn from_bytes(bytes: Vec<u8>) -> (r: Option<SignatureGroup>)
        ensures
            r is Some <==> bytes@.len() == SIGNATURE_GROUP_SIZE,
            r is Some ==> r->0@ == bytes@,
    {
        if bytes.len() == SIGNATURE_GROUP_SIZE {
            Some(SignatureGroup { bytes })
        } else {
            None
        }
    }

    /// The uncompressed encoding.
    pub fn to_bytes(&self) -> (r: Vec<u8>)
        ensures
            r@ == self@,
            r@.len() == SIGNATURE_GROUP_SIZE,
    {
        proof {
            use_type_invariant(self);
        }
        self.bytes.clone()
    }

    /// Calls `G1::from_msg_hash` of `amcl_wrapper`, which hashes the message
    /// and maps the digest to a point. The result depends on the message
    /// alone and is named `sig_group_hash`.
    #[verifier::external_body]
    pub(crate) fn from_msg_hash(msg: &[u8]) -> (r: SignatureGroup)
        ensures
            r@ == sig_group_hash(msg@),
    {
        SignatureGroup { bytes: amcl_wrapper::group_elem_g1::G1::from_msg_hash(msg).to_bytes(false) }
    }

    /// Calls `G1::scalar_mul_const_time` of `amcl_wrapper`: this element
    /// multiplied by a scalar. The result is named `sig_group_mul`.
    #[verifier::external_body]
    pub(crate) fn scalar_mul(&self, s: &FieldElement) -> (r: SignatureGroup)
        ensures
            r@ == sig_group_mul(self@, s@),
    {
        let p = amcl_wrapper::group_elem_g1::G1::from(<&[u8; 97]>::try_from(&self.bytes[..]).unwrap());
        let k = amcl_wrapper::field_elem::FieldElement::from_bytes(&s.to_bytes()).unwrap();
        SignatureGroup { bytes: p.scalar_mul_const_time(&k).to_bytes(false) }
    }

    /// Calls `G1::plus` of `amcl_wrapper`: the sum of two elements. The
    /// result is named `sig_group_add`.
    #[verifier::external_body]
    pub(crate) fn plus(&self, other: &SignatureGroup) -> (r: SignatureGroup)
        ensures
            r@ == sig_group_add(self@, other@),
    {
        let p = amcl_wrapper::group_elem_g1::G1::from(<&[u8; 97]>::try_from(&self.bytes[..]).unwrap());
        let q = amcl_wrapper::group_elem_g1::G1::from(<&[u8; 97]>::try_from(&other.bytes[..]).unwrap());
        SignatureGroup { bytes: p.plus(&q).to_bytes(false) }
    }

    /// Calls `G1::negation` of `amcl_wrapper`: the inverse of this element.
    /// The result is named `sig_group_neg`.
    #[verifier::external_body]
    pub(crate) fn negation(&self) -> (r: SignatureGroup)
        ensures
            r@ == sig_group_neg(self@),
    {
        let p = amcl_wrapper::group_elem_g1::G1::from(<&[u8; 97]>::try_from(&self.bytes[..]).unwrap());
        SignatureGroup { bytes: p.negation().to_bytes(false) }
    }

    /// Calls `G1::is_identity` of `amcl_wrapper`: whether this is the point
    /// at infinity. The answer is named `sig_group_is_identity`.
    #[verifier::external_body]
    pub(crate) fn is_identity(&self) -> (r: bool)
        ensures
            r == sig_group_is_identity(self@),
    {
        amcl_wrapper::group_elem_g1::G1::from(<&[u8; 97]>::try_from(&self.bytes[..]).unwrap()).is_identity()
    }

    /// Calls `G1::to_bytes` of `amcl_wrapper` with compression: the sign of
    /// `y`, then `x`. The result is named `sig_group_compressed`.
    #[verifier::external_body]
    pub(crate) fn to_compressed(&self) -> (r: Vec<u8>)
        ensures
            r@ == sig_group_compressed(self@),
    {
        amcl_wrapper::group_elem_g1::G1::from(<&[u8; 97]>::try_from(&self.bytes[..]).unwrap()).to_bytes(true)
    }
}

impl Clone for VerkeyGroup {
    fn clone(&self) -> (r: VerkeyGroup)
        ensures
            r@ == self@,
    {
        proof {
            use_type_invariant(self);
        }
        VerkeyGroup { bytes: self.bytes.clone() }
    }
}

impl VerkeyGroup {
    #[verifier::type_invariant]
    spec fn well_formed(self) -> bool {
        self.bytes@.len() == VERKEY_GROUP_SIZE
    }

    /// Takes an uncompressed encoding; `None` for any other length.
    pub fn from_bytes(bytes: Vec<u8>) -> (r: Option<VerkeyGroup>)
        ensures
            r is Some <==> bytes@.len() == VERKEY_GROUP_SIZE,
            r is Some ==> r->0@ == bytes@,
    {
        if bytes.len() == VERKEY_GROUP_SIZE {
            Some(VerkeyGroup { bytes })
        } else {
            None
        }
    }

    /// The uncompressed encoding.
    pub fn to_bytes(&self) -> (r: Vec<u8>)
        ensures
            r@ == self@,
            r@.len() == VERKEY_GROUP_SIZE,
    {
        proof {
            use_type_invariant(self);
        }
        self.bytes.clone()
    }

    /// Calls `G2::from_msg_hash` of `amcl_wrapper`, which hashes the message
    /// and maps the digest to a point. The result depends on the message
    /// alone and is named `verkey_group_hash`.
    #[verifier::external_body]
    pub(crate) fn from_msg_hash(msg: &[u8]) -> (r: VerkeyGroup)
        ensures
            r@ == verkey_group_hash(msg@),
    {
        VerkeyGroup { bytes: amcl_wrapper::group_elem_g2::G2::from_msg_hash(msg).to_bytes(false) }
    }

    /// Calls `G2::scalar_mul_const_time` of `amcl_wrapper`: this element
    /// multiplied by a scalar. The result is named `verkey_group_mul`.
    #[verifier::external_body]
    pub(crate) fn scalar_mul(&self, s: &FieldElement) -> (r: VerkeyGroup)
        ensures
            r@ == verkey_group_mul(self@, s@),
    {
        let p = amcl_wrapper::group_elem_g2::G2::from(<&[u8; 193]>::try_from(&self.bytes[..]).unwrap());
        let k = amcl_wrapper::field_elem::FieldElement::from_bytes(&s.to_bytes()).unwrap();
        VerkeyGroup { bytes: p.scalar_mul_const_time(&k).to_bytes(false) }
    }

    /// Calls `G2::plus` of `amcl_wrapper`: the sum of two elements. The
    /// result is named `verkey_group_add`.
    #[verifier::external_body]
    pub(crate) fn plus(&self, other: &VerkeyGroup) -> (r: VerkeyGroup)
        ensures
            r@ == verkey_group_add(self@, other@),
    {
        let p = amcl_wrapper::group_elem_g2::G2::from(<&[u8; 193]>::try_from(&self.bytes[..]).unwrap());
        let q = amcl_wrapper::group_elem_g2::G2::from(<&[u8; 193]>::try_from(&other.bytes[..]).unwrap());
        VerkeyGroup { bytes: p.plus(&q).to_bytes(false) }
    }

    /// Calls `G2::minus` of `amcl_wrapper`: this element less the other. The
    /// result is named `verkey_group_sub`.
    #[verifier::external_body]
    pub(crate) fn minus(&self, other: &VerkeyGroup) -> (r: VerkeyGroup)
        ensures
            r@ == verkey_group_sub(self@, other@),
    {
        let p = amcl_wrapper::group_elem_g2::G2::from(<&[u8; 193]>::try_from(&self.bytes[..]).unwrap());
        let q = amcl_wrapper::group_elem_g2::G2::from(<&[u8; 193]>::try_from(&other.bytes[..]).unwrap());
        VerkeyGroup { bytes: p.minus(&q).to_bytes(false) }
    }

    /// Calls `G2::is_identity` of `amcl_wrapper`: whether this is the point
    /// at infinity. The answer is named `verkey_group_is_identity`.
    #[verifier::external_body]
    pub(crate) fn is_identity(&self) -> (r: bool)
        ensures
            r == verkey_group_is_identity(self@),
    {
        amcl_wrapper::group_elem_g2::G2::from(<&[u8; 193]>::try_from(&self.bytes[..]).unwrap()).is_identity()
    }

    /// Calls `G2::to_bytes` of `amcl_wrapper` with compression: the sign of
    /// `y`, then `x`. The result is named `verkey_group_compressed`.
    #[verifier::external_body]
    pub(crate) fn to_compressed(&self) -> (r: Vec<u8>)
        ensures
            r@ == verkey_group_compressed(self@),
    {
        amcl_wrapper::group_elem_g2::G2::from(<&[u8; 193]>::try_from(&self.bytes[..]).unwrap()).to_bytes(true)
    }
}

/// Calls `G2Vector::multi_scalar_mul_const_time` of `amcl_wrapper` on as many
/// scalars as bases: the sum of each base multiplied by its scalar, in
/// constant time. The result is named `verkey_group_msm_const_time`.
#[verifier::external_body]
pub(crate) fn multi_scalar_mul_const_time(bases: &[VerkeyGroup], scalars: &[FieldElement]) -> (r: VerkeyGroup)
    requires
        bases@.len() == scalars@.len(),
    ensures
        r@ == verkey_group_msm_const_time(verkey_views(bases@), field_views(scalars@)),
{
    let b: Vec<amcl_wrapper::group_elem_g2::G2> = bases.iter().map(|p| amcl_wrapper::group_elem_g2::G2::from(<&[u8; 193]>::try_from(&p.bytes[..]).unwrap())).collect();
    let s: Vec<amcl_wrapper::field_elem::FieldElement> = scalars.iter().map(|k| amcl_wrapper::field_elem::FieldElement::from_bytes(&k.to_bytes()).unwrap()).collect();
    let sum = amcl_wrapper::group_elem_g2::G2Vector::from(b).multi_scalar_mul_const_time(&s).unwrap();
    VerkeyGroup { bytes: sum.to_bytes(false) }
}

/// Calls `G2Vector::multi_scalar_mul_var_time` of `amcl_wrapper` on as many
/// scalars as bases: the sum of each base multiplied by its scalar, in
/// variable time. The result is named `verkey_group_msm_var_time`.
#[verifier::external_body]
pub(crate) fn multi_scalar_mul_var_time(bases: &[VerkeyGroup], scalars: &[FieldElement]) -> (r: VerkeyGroup)
    requires
        bases@.len() == scalars@.len(),
    ensures
        r@ == verkey_group_msm_var_time(verkey_views(bases@), field_views(scalars@)),
{
    let b: Vec<amcl_wrapper::group_elem_g2::G2> = bases.iter().map(|p| amcl_wrapper::group_elem_g2::G2::from(<&[u8; 193]>::try_from(&p.bytes[..]).unwrap())).collect();
    let s: Vec<amcl_wrapper::field_elem::FieldElement> = scalars.iter().map(|k| amcl_wrapper::field_elem::FieldElement::from_bytes(&k.to_bytes()).unwrap()).collect();
    let sum = amcl_wrapper::group_elem_g2::G2Vector::from(b).multi_scalar_mul_var_time(&s).unwrap();
    VerkeyGroup { bytes: sum.to_bytes(false) }
}

/// An element of the target group of the pairing, held as its encoding.
pub struct TargetGroup {
    bytes: Vec<u8>,
}

impl View for TargetGroup {
    type V = Seq<u8>;

    closed spec fn view(&self) -> Seq<u8> {
        self.bytes@
    }
}

impl TargetGroup {
    #[verifier::type_invariant]
    spec fn well_formed(self) -> bool {
        self.bytes@.len() == TARGET_GROUP_SIZE
    }

    /// Calls `GT::ate_2_pairing` of `amcl_wrapper`: the product of two
    /// pairings, `e(g1, g2) * e(h1, h2)`. The result is named
    /// `pairing_product`.
    #[verifier::external_body]
    pub(crate) fn ate_2_pairing(g1: &SignatureGroup, g2: &VerkeyGroup, h1: &SignatureGroup, h2: &VerkeyGroup) -> (r: TargetGroup)
        ensures
            r@ == pairing_product(g1@, g2@, h1@, h2@),
    {
        let a = amcl_wrapper::group_elem_g1::G1::from(<&[u8; 97]>::try_from(&g1.bytes[..]).unwrap());
        let b = amcl_wrapper::group_elem_g2::G2::from(<&[u8; 193]>::try_from(&g2.bytes[..]).unwrap());
        let c = amcl_wrapper::group_elem_g1::G1::from(<&[u8; 97]>::try_from(&h1.bytes[..]).unwrap());
        let d = amcl_wrapper::group_elem_g2::G2::from(<&[u8; 193]>::try_from(&h2.bytes[..]).unwrap());
        TargetGroup { bytes: amcl_wrapper::extension_field_gt::GT::ate_2_pairing(&a, &b, &c, &d).to_bytes() }
    }

    /// Calls `GT::is_one` of `amcl_wrapper`: whether this is the unit of the
    /// target group. The answer is named `target_group_is_one`.
    #[verifier::external_body]
    pub(crate) fn is_one(&self) -> (r: bool)
        ensures
            r == target_group_is_one(self@),
    {
        amcl_wrapper::extension_field_gt::GT::from_bytes(&self.bytes).unwrap().is_one()
    }
}

/// Whether `e(g1, g2) * e(h1, h2)` is the unit of the target group.
pub(crate) fn ate_2_pairing_is_one(g1: &SignatureGroup, g2: &VerkeyGroup, h1: &SignatureGroup, h2: &VerkeyGroup) -> (r: bool)
    ensures
        r == pairing_product_is_one(g1@, g2@, h1@, h2@),
{
    TargetGroup::ate_2_pairing(g1, g2, h1, h2).is_one()
}

} // verus!
