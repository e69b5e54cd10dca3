//! Proof of knowledge of the exponents of a product of powers.
//!
//! The prover knows `e_0, e_1, ..` with `C = B_0 * e_0 + B_1 * e_1 + ..` in
//! the verification-key group. It commits to `T = B_0 * b_0 + B_1 * b_1 + ..`
//! for blinding factors `b_k`, receives a challenge `c`, and answers with
//! `z_k = b_k + c * e_k`. The verifier accepts when
//! `B_0 * z_0 + B_1 * z_1 + .. = T + C * c`.

use vstd::prelude::*;
use crate::errors::CredentialError;
use crate::field::{FieldElement, field_add, field_hash, field_mul, is_nonzero_element};
use crate::group::{
    VerkeyGroup, verkey_views, field_views, verkey_group_compressed, verkey_group_msm_const_time,
    verkey_group_msm_var_time, verkey_group_add, verkey_group_sub, verkey_group_mul,
    verkey_group_is_identity, multi_scalar_mul_const_time, multi_scalar_mul_var_time,
};

verus! {

/// The compressed encodings of `points`, one after the other.
pub open spec fn compressed_all(points: Seq<Seq<u8>>) -> Seq<u8>
    decreases points.len(),
{
    if points.len() == 0 {
        Seq::empty()
    } else {
        compressed_all(points.drop_last()) + verkey_group_compressed(points.last())
    }
}

/// The responses to `challenge`: `blindings[k] + challenge * secrets[k]` for
/// each `k`.
pub open spec fn responses_to(blindings: Seq<Seq<u8>>, challenge: Seq<u8>, secrets: Seq<Seq<u8>>) -> Seq<Seq<u8>> {
    Seq::new(blindings.len(), |k: int| field_add(blindings[k], field_mul(challenge, secrets[k])))
}

/// The verifier's equation: the bases raised to the responses give the
/// prover's commitment `t` combined with the statement `c` raised to the
/// challenge.
pub open spec fn responses_open(bases: Seq<Seq<u8>>, responses: Seq<Seq<u8>>, statement: Seq<u8>, t: Seq<u8>, challenge: Seq<u8>) -> bool {
    verkey_group_is_identity(
        verkey_group_sub(
            verkey_group_msm_var_time(bases, responses),
            verkey_group_add(t, verkey_group_mul(statement, challenge)),
        ),
    )
}

/// A prover that is still collecting bases, each with its blinding factor.
#[derive(Debug)]
pub struct ProverCommittingOtherGroup {
    pairs: Vec<(VerkeyGroup, FieldElement)>,
}

/// A prover that has fixed its bases and published its commitment.
#[derive(Debug)]
pub struct ProverCommittedOtherGroup {
    gens: Vec<VerkeyGroup>,
    blindings: Vec<FieldElement>,
    commitment: VerkeyGroup,
}

/// The proof: the prover's commitment and one response per base.
#[derive(Debug, PartialEq, Eq)]
pub struct ProofOtherGroup {
    pub commitment: VerkeyGroup,
    pub responses: Vec<FieldElement>,
}

impl ProverCommittingOtherGroup {
    /// The bases collected so far.
    pub closed spec fn gens(self) -> Seq<Seq<u8>> {
        Seq::new(self.pairs@.len(), |i: int| self.pairs@[i].0@)
    }

    /// The blinding factors collected so far, one per base.
    pub closed spec fn blindings(self) -> Seq<Seq<u8>> {
        Seq::new(self.pairs@.len(), |i: int| self.pairs@[i].1@)
    }

    /// A prover with no base yet.
    pub fn new() -> (r: Self)
        ensures
            r.gens() == Seq::<Seq<u8>>::empty(),
            r.blindings() == Seq::<Seq<u8>>::empty(),
    {
        let r = ProverCommittingOtherGroup { pairs: Vec::new() };
        assert(r.gens() =~= Seq::<Seq<u8>>::empty());
        assert(r.blindings() =~= Seq::<Seq<u8>>::empty());
        r
    }

    /// Adds a base. Its blinding factor is the one supplied, or a fresh
    /// random one, which is not zero, where none is. Returns the position of
    /// the base.
    pub fn commit(&mut self, gen: &VerkeyGroup, blinding: Option<&FieldElement>) -> (idx: usize)
        ensures
            idx == old(self).gens().len(),
            final(self).gens() == old(self).gens().push(gen@),
            final(self).blindings().len() == old(self).blindings().len() + 1,
            final(self).blindings().drop_last() == old(self).blindings(),
            blinding matches Some(b) ==> final(self).blindings().last() == b@,
            blinding is None ==> is_nonzero_element(final(self).blindings().last()),
    {
        let b = match blinding {
            Some(b) => b.clone(),
            None => FieldElement::random(),
        };
        let idx = self.pairs.len();
        let ghost before = *self;
        self.pairs.push((gen.clone(), b));
        assert(self.gens() =~= before.gens().push(gen@));
        assert(self.blindings().drop_last() =~= before.blindings());
        idx
    }

    /// Fixes the bases and computes the commitment: each base multiplied by
    /// its blinding factor, summed.
    pub fn finish(self) -> (r: ProverCommittedOtherGroup)
        ensures
            r.gens() == self.gens(),
            r.blindings() == self.blindings(),
            r.commitment() == verkey_group_msm_const_time(self.gens(), self.blindings()),
            r.gens().len() == r.blindings().len(),
    {
        let ghost gens_before = self.gens();
        let ghost blindings_before = self.blindings();
        let mut gens: Vec<VerkeyGroup> = Vec::new();
        let mut blindings: Vec<FieldElement> = Vec::new();
        let mut i: usize = 0;
        while i < self.pairs.len()
            invariant
                i <= self.pairs@.len(),
                gens@.len() == i,
                blindings@.len() == i,
                forall|k: int| 0 <= k < i ==> (#[trigger] gens@[k])@ == self.pairs@[k].0@,
                forall|k: int| 0 <= k < i ==> (#[trigger] blindings@[k])@ == self.pairs@[k].1@,
            decreases self.pairs@.len() - i,
        {
            gens.push(self.pairs[i].0.clone());
            blindings.push(self.pairs[i].1.clone());
            i += 1;
        }
        assert(verkey_views(gens@) =~= gens_before);
        assert(field_views(blindings@) =~= blindings_before);
        let commitment = multi_scalar_mul_const_time(gens.as_slice(), blindings.as_slice());
        ProverCommittedOtherGroup { gens, blindings, commitment }
    }
}

/// The compressed encodings of `points`, one after the other.
pub fn compress_all(points: &[VerkeyGroup]) -> (r: Vec<u8>)
    ensures
        r@ == compressed_all(verkey_views(points@)),
{
    let mut bytes: Vec<u8> = Vec::new();
    let mut i: usize = 0;
    while i < points.len()
        invariant
            i <= points@.len(),
            bytes@ == compressed_all(verkey_views(points@.take(i as int))),
        decreases points@.len() - i,
    {
        let mut b = points[i].to_compressed();
        bytes.append(&mut b);
        proof {
            let next = verkey_views(points@.take(i + 1));
            assert(next.drop_last() =~= verkey_views(points@.take(i as int)));
            assert(next.last() == points@[i as int]@);
        }
        i += 1;
    }
    assert(points@.take(points@.len() as int) =~= points@);
    bytes
}

impl ProverCommittedOtherGroup {
    #[verifier::type_invariant]
    spec fn well_formed(self) -> bool {
        self.gens@.len() == self.blindings@.len()
    }

    /// The bases of the proof.
    pub closed spec fn gens(self) -> Seq<Seq<u8>> {
        verkey_views(self.gens@)
    }

    /// The blinding factors, one per base.
    pub closed spec fn blindings(self) -> Seq<Seq<u8>> {
        field_views(self.blindings@)
    }

    /// The commitment that the prover published.
    pub closed spec fn commitment(self) -> Seq<u8> {
        self.commitment@
    }

    /// The bytes that stand for the prover in a transcript: the bases, then
    /// the commitment, each compressed.
    pub open spec fn spec_bytes(self) -> Seq<u8> {
        compressed_all(self.gens()) + verkey_group_compressed(self.commitment())
    }

    /// The transcript bytes of the prover.
    pub fn to_bytes(&self) -> (r: Vec<u8>)
        ensures
            r@ == self.spec_bytes(),
    {
        let mut bytes = compress_all(self.gens.as_slice());
        let mut c = self.commitment.to_compressed();
        bytes.append(&mut c);
        bytes
    }

    /// The challenge for a proof that stands alone or inside a larger one:
    /// the hash of the prover's transcript bytes followed by `extra`.
    pub fn gen_challenge(&self, extra: Vec<u8>) -> (r: FieldElement)
        ensures
            r@ == field_hash(self.spec_bytes() + extra@),
    {
        let mut bytes = self.to_bytes();
        let mut extra = extra;
        bytes.append(&mut extra);
        FieldElement::from_msg_hash(bytes.as_slice())
    }

    /// Answers the challenge. Fails where the secrets are not one per base.
    pub fn gen_proof(self, challenge: &FieldElement, secrets: &[FieldElement]) -> (r: Result<ProofOtherGroup, CredentialError>)
        ensures
            secrets@.len() != self.gens().len() ==> r == Err::<ProofOtherGroup, CredentialError>(
                CredentialError::UnequalNoOfBasesExponents {
                    bases: self.gens().len() as usize,
                    exponents: secrets@.len() as usize,
                },
            ),
            secrets@.len() == self.gens().len() ==> r is Ok && r->Ok_0.commitment@ == self.commitment()
                && field_views(r->Ok_0.responses@) == responses_to(
                self.blindings(),
                challenge@,
                field_views(secrets@),
            ),
    {
        proof {
            use_type_invariant(&self);
        }
        if secrets.len() != self.gens.len() {
            return Err(CredentialError::UnequalNoOfBasesExponents {
                bases: self.gens.len(),
                exponents: secrets.len(),
            });
        }
        let mut responses: Vec<FieldElement> = Vec::new();
        let mut i: usize = 0;
        while i < self.gens.len()
            invariant
                i <= self.gens@.len(),
                self.gens@.len() == self.blindings@.len(),
                self.gens@.len() == secrets@.len(),
                responses@.len() == i,
                forall|k: int| 0 <= k < i ==> (#[trigger] responses@[k])@ == field_add(
                    self.blindings@[k]@,
                    field_mul(challenge@, secrets@[k]@),
                ),
            decreases self.gens@.len() - i,
        {
            let product = challenge.multiply(&secrets[i]);
            responses.push(self.blindings[i].plus(&product));
            i += 1;
        }
        assert(field_views(responses@) =~= responses_to(self.blindings(), challenge@, field_views(secrets@)));
        Ok(ProofOtherGroup { commitment: self.commitment, responses })
    }
}

impl ProofOtherGroup {
    /// The responses of the proof.
    pub open spec fn response_views(self) -> Seq<Seq<u8>> {
        field_views(self.responses@)
    }

    /// Checks the responses against the statement `commitment`, which is
    /// claimed to be the bases raised to the prover's secrets. Fails where
    /// the bases are not one per response.
    pub fn verify(&self, bases: &[VerkeyGroup], commitment: &VerkeyGroup, challenge: &FieldElement) -> (r: Result<bool, CredentialError>)
        ensures
            bases@.len() != self.responses@.len() ==> r == Err::<bool, CredentialError>(
                CredentialError::UnequalNoOfBasesExponents {
                    bases: bases@.len() as usize,
                    exponents: self.responses@.len() as usize,
                },
            ),
            bases@.len() == self.responses@.len() ==> r == Ok::<bool, CredentialError>(
                responses_open(
                    verkey_views(bases@),
                    self.response_views(),
                    commitment@,
                    self.commitment@,
                    challenge@,
                ),
            ),
    {
        if bases.len() != self.responses.len() {
            return Err(CredentialError::UnequalNoOfBasesExponents {
                bases: bases.len(),
                exponents: self.responses.len(),
            });
        }
        let lhs = multi_scalar_mul_var_time(bases, self.responses.as_slice());
        let rhs = self.commitment.plus(&commitment.scalar_mul(challenge));
        Ok(lhs.minus(&rhs).is_identity())
    }
}

impl Clone for ProofOtherGroup {
    fn clone(&self) -> (r: ProofOtherGroup)
        ensures
            r.commitment@ == self.commitment@,
            r.response_views() == self.response_views(),
    {
        let mut responses: Vec<FieldElement> = Vec::new();
        let mut i: usize = 0;
        while i < self.responses.len()
            invariant
                i <= self.responses@.len(),
                responses@.len() == i,
                forall|k: int| 0 <= k < i ==> (#[trigger] responses@[k])@ == self.responses@[k]@,
            decreases self.responses@.len() - i,
        {
            responses.push(self.responses[i].clone());
            i += 1;
        }
        assert(field_views(responses@) =~= field_views(self.responses@));
        ProofOtherGroup { commitment: self.commitment.clone(), responses }
    }
}

} // verus!
