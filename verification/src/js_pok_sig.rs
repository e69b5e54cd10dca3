//! Proof of knowledge of a credential, with selective disclosure and a
//! pseudonym bound to the verifier's domain.
//!
//! The holder randomizes its signature `(sigma_1, sigma_2)` with fresh `r`
//! and `t` into `(sigma_1 * r, (sigma_2 + sigma_1 * t) * r)`, publishes
//! `J = g_tilde * t + sum of Y_tilde[k] * m_k` over the hidden attributes and
//! proves knowledge of `t` and of those `m_k`. The verifier adds the
//! revealed attributes to `J` and checks one pairing equation.

use vstd::prelude::*;
use vstd::utf8::encode_utf8;
use std::collections::{HashMap, HashSet};
use crate::disclosure::{
    hidden_of, revealed_of, revealed_values, all_in_range, lemma_hidden_count, find_bad_index,
    find_bad_key, count_hidden, hidden_bases, hidden_exponents, hidden_bases_of_map,
    revealed_pairs,
};
use crate::errors::CredentialError;
use crate::field::{FieldElement, field_hash, field_mul, is_nonzero_element};
use crate::group::{
    SignatureGroup, VerkeyGroup, sig_group_mul, sig_group_add, sig_group_neg,
    sig_group_compressed, sig_group_is_identity, verkey_group_add, verkey_group_compressed,
    verkey_group_msm_const_time, verkey_group_msm_var_time, pairing_product_is_one, field_views,
    verkey_views, multi_scalar_mul_const_time, multi_scalar_mul_var_time, ate_2_pairing_is_one,
};
use crate::keys::{Params, Signature, Verkey};
use crate::pok_vc::{
    ProofOtherGroup, ProverCommittedOtherGroup, ProverCommittingOtherGroup, compressed_all,
    responses_to, responses_open,
};

verus! {

/// The position, among the attributes of a credential, of the holder's
/// long-term secret.
pub const USER_SECRET_INDEX: usize = 0;

/// How many values of shared randomness a proof carries.
pub const SHARED_RANDOMNESS_SIZE: usize = 4;

/// The pseudonym of the holder of `secret` towards `domain`: the hash of the
/// domain multiplied by the secret.
pub open spec fn pseudonym(domain: Seq<char>, secret: Seq<u8>) -> Seq<u8> {
    field_mul(field_hash(encode_utf8(domain)), secret)
}

/// The first companion ciphertext: `g * r3`.
pub open spec fn verification_ciphertext_1(g: Seq<u8>, r3: Seq<u8>) -> Seq<u8> {
    sig_group_mul(g, r3)
}

/// The second companion ciphertext: `g * r3 + h * r1_gamma`.
pub open spec fn verification_ciphertext_2(g: Seq<u8>, h: Seq<u8>, r3: Seq<u8>, r1_gamma: Seq<u8>) -> Seq<u8> {
    sig_group_add(sig_group_mul(g, r3), sig_group_mul(h, r1_gamma))
}

/// Attributes as the holder writes them, before they are hashed into the
/// field.
#[derive(Clone, Debug)]
pub struct PlaintextMessages {
    pub messages: Vec<String>,
}

impl PlaintextMessages {
    /// Holds the messages as given.
    pub fn new(messages: Vec<String>) -> (r: Self)
        ensures
            r.messages == messages,
    {
        PlaintextMessages { messages }
    }

    /// Each message hashed into the field, in the same order.
    pub fn to_field_element_vector(&self) -> (r: Vec<FieldElement>)
        ensures
            r@.len() == self.messages@.len(),
            forall|i: int| 0 <= i < r@.len() ==> (#[trigger] r@[i])@ == field_hash(encode_utf8(self.messages@[i]@)),
    {
        let mut out: Vec<FieldElement> = Vec::new();
        let mut i: usize = 0;
        while i < self.messages.len()
            invariant
                i <= self.messages@.len(),
                out@.len() == i,
                forall|k: int| 0 <= k < i ==> (#[trigger] out@[k])@ == field_hash(encode_utf8(self.messages@[k]@)),
            decreases self.messages@.len() - i,
        {
            out.push(FieldElement::from_msg_hash(self.messages[i].as_str().as_bytes()));
            i += 1;
        }
        out
    }
}

/// The randomness of the companion proofs that bind the pseudonym. Its
/// slots are, in this order: `r1_s`, `r1_gamma`, `r2`, `r3`.
#[derive(Debug, PartialEq, Eq)]
pub struct SharedRandomness {
    pub shared_randomness: Vec<FieldElement>,
}

impl SharedRandomness {
    /// The encodings of the values held.
    pub open spec fn views(self) -> Seq<Seq<u8>> {
        field_views(self.shared_randomness@)
    }

    /// `size` values, each zero.
    pub fn new(size: usize) -> (r: Self)
        ensures
            r.views() == Seq::new(size as nat, |i: int| FieldElement::zero_bytes()),
    {
        let mut v: Vec<FieldElement> = Vec::new();
        let mut i: usize = 0;
        while i < size
            invariant
                i <= size,
                v@.len() == i,
                forall|k: int| 0 <= k < i ==> (#[trigger] v@[k])@ == FieldElement::zero_bytes(),
            decreases size - i,
        {
            v.push(FieldElement::zero());
            i += 1;
        }
        let r = SharedRandomness { shared_randomness: v };
        assert(r.views() =~= Seq::new(size as nat, |i: int| FieldElement::zero_bytes()));
        r
    }

    /// `size` values, each drawn at random from the field without zero.
    pub fn random(size: usize) -> (r: Self)
        ensures
            r.shared_randomness@.len() == size,
            forall|i: int| 0 <= i < size ==> is_nonzero_element(#[trigger] r.views()[i]),
    {
        let mut v: Vec<FieldElement> = Vec::new();
        let mut i: usize = 0;
        while i < size
            invariant
                i <= size,
                v@.len() == i,
                forall|k: int| 0 <= k < i ==> is_nonzero_element((#[trigger] v@[k])@),
            decreases size - i,
        {
            v.push(FieldElement::random());
            i += 1;
        }
        SharedRandomness { shared_randomness: v }
    }

    /// The first value: the blinding factor of the secret in the companion
    /// proof for the pseudonym.
    pub fn r1_s(&self) -> (r: FieldElement)
        requires
            self.shared_randomness@.len() > 0,
        ensures
            r@ == self.views()[0],
    {
        self.shared_randomness[0].clone()
    }

    /// The second value.
    pub fn r1_gamma(&self) -> (r: FieldElement)
        requires
            self.shared_randomness@.len() > 1,
        ensures
            r@ == self.views()[1],
    {
        self.shared_randomness[1].clone()
    }

    /// The third value.
    pub fn r2(&self) -> (r: FieldElement)
        requires
            self.shared_randomness@.len() > 2,
        ensures
            r@ == self.views()[2],
    {
        self.shared_randomness[2].clone()
    }

    /// The fourth value: the randomness of the companion ciphertexts.
    pub fn r3(&self) -> (r: FieldElement)
        requires
            self.shared_randomness@.len() > 3,
        ensures
            r@ == self.views()[3],
    {
        self.shared_randomness[3].clone()
    }

    /// The pseudonym towards `domain` of the holder whose secret is the hash
    /// of `user_secret`. It depends on the two strings alone.
    pub fn calculate_phi(domain: String, user_secret: String) -> (r: FieldElement)
        ensures
            r@ == pseudonym(domain@, field_hash(encode_utf8(user_secret@))),
    {
        let d = FieldElement::from_msg_hash(domain.as_str().as_bytes());
        let s = FieldElement::from_msg_hash(user_secret.as_str().as_bytes());
        d.multiply(&s)
    }

    /// The commitment of the companion proof for the pseudonym: formed as
    /// the pseudonym is, with `r1_s` in place of the secret.
    pub fn calculate_verification_phi(&self, domain: &String) -> (r: FieldElement)
        requires
            self.shared_randomness@.len() > 0,
        ensures
            r@ == pseudonym(domain@, self.views()[0]),
    {
        let d = FieldElement::from_msg_hash(domain.as_str().as_bytes());
        d.multiply(&self.r1_s())
    }

    /// The first companion ciphertext, `g * r3`.
    pub fn calculate_verification_elgamal_ciphertext_1(&self, params: &Params) -> (r: SignatureGroup)
        requires
            self.shared_randomness@.len() > 3,
        ensures
            r@ == verification_ciphertext_1(params.g@, self.views()[3]),
    {
        params.g.scalar_mul(&self.r3())
    }

    /// The second companion ciphertext, `g * r3 + h * r1_gamma`.
    pub fn calculate_verification_elgamal_ciphertext_2(&self, params: &Params) -> (r: SignatureGroup)
        requires
            self.shared_randomness@.len() > 3,
        ensures
            r@ == verification_ciphertext_2(params.g@, params.h@, self.views()[3], self.views()[1]),
    {
        let left = params.g.scalar_mul(&self.r3());
        let right = params.h.scalar_mul(&self.r1_gamma());
        left.plus(&right)
    }

    /// The bytes that the companion proofs add to a transcript: the
    /// commitment for the pseudonym, then the two ciphertexts.
    pub open spec fn spec_verification_bytes(self, domain: Seq<char>, params: Params) -> Seq<u8> {
        pseudonym(domain, self.views()[0]) + sig_group_compressed(
            verification_ciphertext_1(params.g@, self.views()[3]),
        ) + sig_group_compressed(
            verification_ciphertext_2(params.g@, params.h@, self.views()[3], self.views()[1]),
        )
    }

    /// The transcript bytes of the companion proofs.
    pub fn verification_bytes(&self, domain: &String, params: &Params) -> (r: Vec<u8>)
        requires
            self.shared_randomness@.len() > 3,
        ensures
            r@ == self.spec_verification_bytes(domain@, *params),
    {
        let mut bytes = self.calculate_verification_phi(domain).to_bytes();
        let mut e1 = self.calculate_verification_elgamal_ciphertext_1(params).to_compressed();
        let mut e2 = self.calculate_verification_elgamal_ciphertext_2(params).to_compressed();
        bytes.append(&mut e1);
        bytes.append(&mut e2);
        bytes
    }
}

impl Clone for SharedRandomness {
    fn clone(&self) -> (r: SharedRandomness)
        ensures
            r.views() == self.views(),
    {
        let mut v: Vec<FieldElement> = Vec::new();
        let mut i: usize = 0;
        while i < self.shared_randomness.len()
            invariant
                i <= self.shared_randomness@.len(),
                v@.len() == i,
                forall|k: int| 0 <= k < i ==> (#[trigger] v@[k])@ == self.shared_randomness@[k]@,
            decreases self.shared_randomness@.len() - i,
        {
            v.push(self.shared_randomness[i].clone());
            i += 1;
        }
        let r = SharedRandomness { shared_randomness: v };
        assert(r.views() =~= self.views());
        r
    }
}

/// The bytes from which the challenge of a proof is derived: the randomized
/// signature, `J`, the bases of the hidden exponents, the prover's
/// commitment, the pseudonym, and the bytes of the companion proofs.
pub open spec fn challenge_transcript(
    sig: Signature,
    j: Seq<u8>,
    bases: Seq<Seq<u8>>,
    commitment: Seq<u8>,
    phi: Seq<u8>,
    shared: SharedRandomness,
    domain: Seq<char>,
    params: Params,
) -> Seq<u8> {
    sig.spec_bytes() + verkey_group_compressed(j) + compressed_all(bases) + verkey_group_compressed(
        commitment,
    ) + phi + shared.spec_verification_bytes(domain, params)
}

/// The bases of a proof that reveals `revealed`: `g_tilde`, then the
/// `Y_tilde` of each hidden attribute in ascending position.
pub open spec fn proof_bases(vk: Verkey, params: Params, revealed: Set<usize>) -> Seq<Seq<u8>> {
    seq![params.g_tilde@] + hidden_of(vk.y_views(), revealed)
}

/// Whether `out` is `sig` randomized with `r` and `t`:
/// `(sigma_1 * r, (sigma_2 + sigma_1 * t) * r)`.
pub open spec fn is_randomization(out: Signature, sig: Signature, r: Seq<u8>, t: Seq<u8>) -> bool {
    &&& out.sigma_1@ == sig_group_mul(sig.sigma_1@, r)
    &&& out.sigma_2@ == sig_group_mul(sig_group_add(sig.sigma_2@, sig_group_mul(sig.sigma_1@, t)), r)
}

/// The state of a prover between its commitment and the challenge.
#[derive(Debug)]
pub struct JSPoKOfSignature {
    pub secrets: Vec<FieldElement>,
    pub shared_randomness: SharedRandomness,
    pub sig: Signature,
    pub J: VerkeyGroup,
    pub pok_vc: ProverCommittedOtherGroup,
    pub phi: FieldElement,
    pub target_domain: String,
    pub params: Params,
}

/// A proof of knowledge of a credential, as it is sent to a verifier.
#[derive(Debug, PartialEq, Eq)]
pub struct JSPoKOfSignatureProof {
    pub sig: Signature,
    pub J: VerkeyGroup,
    pub proof_vc: ProofOtherGroup,
    pub phi: FieldElement,
    pub shared_randomness: SharedRandomness,
    pub target_domain: String,
}

impl JSPoKOfSignature {
    /// What `init` leaves in a prover made from these inputs, whatever
    /// randomness it drew.
    pub open spec fn initialised_from(
        self,
        sig: Signature,
        vk: Verkey,
        params: Params,
        messages: Seq<Seq<u8>>,
        blindings: Option<Seq<Seq<u8>>>,
        revealed: Set<usize>,
        domain: Seq<char>,
    ) -> bool {
        let bases = proof_bases(vk, params, revealed);
        let secrets = field_views(self.secrets@);
        &&& secrets.len() == bases.len()
        &&& secrets.drop_first() == hidden_of(messages, revealed)
        &&& is_nonzero_element(secrets[0])
        &&& exists|r: Seq<u8>| is_nonzero_element(r) && is_randomization(self.sig, sig, r, secrets[0])
        &&& self.J@ == verkey_group_msm_const_time(bases, secrets)
        &&& self.pok_vc.gens() == bases
        &&& self.pok_vc.blindings().len() == bases.len()
        &&& (blindings matches Some(b) ==> self.pok_vc.blindings().drop_first() == b)
        &&& self.pok_vc.commitment() == verkey_group_msm_const_time(bases, self.pok_vc.blindings())
        &&& self.phi@ == pseudonym(domain, messages[USER_SECRET_INDEX as int])
        &&& self.shared_randomness.shared_randomness@.len() == SHARED_RANDOMNESS_SIZE
        &&& self.target_domain@ == domain
        &&& self.params.g@ == params.g@
        &&& self.params.h@ == params.h@
        &&& self.params.g_tilde@ == params.g_tilde@
    }

    /// The error that `init` reports for inputs of the wrong shape: for a
    /// key made for `attributes_of_key` attributes, `messages` attributes,
    /// `blindings` blinding factors where any are supplied, and the positions
    /// `revealed`. The checks are made in this order, before any group
    /// operation.
    pub open spec fn shape_error(
        attributes_of_key: nat,
        messages: nat,
        blindings: Option<nat>,
        revealed: Set<usize>,
        e: CredentialError,
    ) -> bool {
        if messages != attributes_of_key {
            e == (CredentialError::UnsupportedNoOfMessages {
                expected: attributes_of_key as usize,
                given: messages as usize,
            })
        } else if messages == 0 {
            e == CredentialError::MissingUserSecret
        } else if !all_in_range(revealed, messages) {
            e matches CredentialError::BadIndex { index, bound } && revealed.contains(index)
                && index >= messages && bound == messages
        } else {
            blindings matches Some(n) && n != messages - revealed.len() && e == (
            CredentialError::WrongBlindingCount {
                blindings: n as usize,
                hidden: (messages - revealed.len()) as usize,
            })
        }
    }

    /// Whether inputs of this shape are accepted by `init`: the key was made
    /// for as many attributes as there are, there is at least one, every
    /// revealed position names one, and the blinding factors, where any are
    /// supplied, are one per hidden attribute.
    pub open spec fn shape_ok(
        attributes_of_key: nat,
        messages: nat,
        blindings: Option<nat>,
        revealed: Set<usize>,
    ) -> bool {
        &&& messages == attributes_of_key
        &&& messages > 0
        &&& all_in_range(revealed, messages)
        &&& (blindings matches Some(n) ==> n == messages - revealed.len())
    }

    /// Fails with a bad index where `revealed_msg_indices` names an
    /// attribute that `messages` does not have.
    pub fn validate_revealed_indices(messages: &[FieldElement], revealed_msg_indices: &HashSet<usize>) -> (r: Result<(), CredentialError>)
        ensures
            r is Ok <==> all_in_range(revealed_msg_indices@, messages@.len()),
            r matches Err(e) ==> (e matches CredentialError::BadIndex { index, bound }
                && revealed_msg_indices@.contains(index) && index >= messages@.len() && bound
                == messages@.len()),
    {
        match find_bad_index(revealed_msg_indices, messages.len()) {
            Some(idx) => Err(CredentialError::BadIndex { index: idx, bound: messages.len() }),
            None => Ok(()),
        }
    }

    /// One slot per base of the proof: none for `g_tilde`, whose blinding
    /// factor is always drawn afresh, then the caller's blinding factor for
    /// each hidden attribute, or none where the caller supplied none. Fails
    /// where the caller's blinding factors are not one per hidden attribute.
    pub fn get_blindings<'a>(
        blindings: Option<&'a [FieldElement]>,
        messages: &[FieldElement],
        revealed_msg_indices: &HashSet<usize>,
    ) -> (r: Result<Vec<Option<&'a FieldElement>>, CredentialError>)
        ensures
            all_in_range(revealed_msg_indices@, messages@.len()) ==> hidden_of(
                field_views(messages@),
                revealed_msg_indices@,
            ).len() == messages@.len() - revealed_msg_indices@.len(),
            ({
                let hidden = hidden_of(field_views(messages@), revealed_msg_indices@).len();
                match blindings {
                    Some(b) => if b@.len() == hidden {
                        &&& r is Ok
                        &&& r->Ok_0@.len() == hidden + 1
                        &&& r->Ok_0@[0] is None
                        &&& forall|k: int| 0 <= k < hidden ==> #[trigger] r->Ok_0@[k + 1] == Some(&b@[k])
                    } else {
                        r == Err::<Vec<Option<&'a FieldElement>>, CredentialError>(
                            CredentialError::WrongBlindingCount {
                                blindings: b@.len() as usize,
                                hidden: hidden as usize,
                            },
                        )
                    },
                    None => {
                        &&& r is Ok
                        &&& r->Ok_0@.len() == hidden + 1
                        &&& forall|k: int| 0 <= k <= hidden ==> #[trigger] r->Ok_0@[k] is None
                    },
                }
            }),
    {
        let hidden = count_hidden(messages.len(), revealed_msg_indices);
        proof {
            lemma_hidden_count(
                Seq::new(messages@.len(), |i: int| i),
                field_views(messages@),
                revealed_msg_indices@,
            );
        }
        let mut out: Vec<Option<&'a FieldElement>> = Vec::new();
        out.push(None);
        match blindings {
            Some(b) => {
                if b.len() != hidden {
                    return Err(
                        CredentialError::WrongBlindingCount { blindings: b.len(), hidden },
                    );
                }
                let mut k: usize = 0;
                while k < hidden
                    invariant
                        k <= hidden,
                        b@.len() == hidden,
                        out@.len() == k + 1,
                        out@[0] is None,
                        forall|j: int| 0 <= j < k ==> #[trigger] out@[j + 1] == Some(&b@[j]),
                    decreases hidden - k,
                {
                    out.push(Some(&b[k]));
                    k += 1;
                }
            },
            None => {
                let mut k: usize = 0;
                while k < hidden
                    invariant
                        k <= hidden,
                        out@.len() == k + 1,
                        forall|j: int| 0 <= j <= k ==> #[trigger] out@[j] is None,
                    decreases hidden - k,
                {
                    out.push(None);
                    k += 1;
                }
            },
        }
        Ok(out)
    }

    /// The signature randomized with `r` and extended to the extra message
    /// `t`: `(sigma_1 * r, (sigma_2 + sigma_1 * t) * r)`.
    pub fn transform_sig_with(sig: &Signature, r: &FieldElement, t: &FieldElement) -> (out: Signature)
        ensures
            is_randomization(out, *sig, r@, t@),
    {
        let sigma_prime_1 = sig.sigma_1.scalar_mul(r);
        let sigma_prime_2 = sig.sigma_2.plus(&sig.sigma_1.scalar_mul(t)).scalar_mul(r);
        Signature { sigma_1: sigma_prime_1, sigma_2: sigma_prime_2 }
    }

    /// Draws `r` and `t`, neither of them zero, and randomizes the signature
    /// with them. Returns `t`, which the proof needs, and the new signature.
    pub fn transform_sig(sig: &Signature) -> (out: (FieldElement, Signature))
        ensures
            is_nonzero_element(out.0@),
            exists|r: Seq<u8>| is_nonzero_element(r) && is_randomization(out.1, *sig, r, out.0@),
    {
        let r = FieldElement::random();
        let t = FieldElement::random();
        let sigma_prime = Self::transform_sig_with(sig, &r, &t);
        let out = (t, sigma_prime);
        assert(is_nonzero_element(r@) && is_randomization(out.1, *sig, r@, out.0@));
        out
    }

    /// Collects the exponents and bases of the hidden part, computes `J`
    /// and commits to the blinding factors. A slot of `blindings` that is
    /// empty has its blinding factor drawn afresh.
    pub fn commit_for_pok(
        messages: Vec<FieldElement>,
        blindings: Vec<Option<&FieldElement>>,
        revealed_msg_indices: &HashSet<usize>,
        t: FieldElement,
        vk: &Verkey,
        params: &Params,
    ) -> (r: (Vec<FieldElement>, VerkeyGroup, ProverCommittedOtherGroup))
        requires
            messages@.len() == vk.Y_tilde@.len(),
            blindings@.len() == 1 + hidden_of(vk.y_views(), revealed_msg_indices@).len(),
        ensures
            ({
                let bases = proof_bases(*vk, *params, revealed_msg_indices@);
                &&& field_views(r.0@) == seq![t@] + hidden_of(field_views(messages@), revealed_msg_indices@)
                &&& field_views(r.0@).len() == bases.len()
                &&& r.1@ == verkey_group_msm_const_time(bases, field_views(r.0@))
                &&& r.2.gens() == bases
                &&& r.2.blindings().len() == bases.len()
                &&& forall|k: int|
                    0 <= k < bases.len() ==> (#[trigger] blindings@[k] matches Some(b)
                        ==> r.2.blindings()[k] == b@)
                &&& r.2.commitment() == verkey_group_msm_const_time(bases, r.2.blindings())
            }),
    {
        let ghost t_view = t@;
        let bases = hidden_bases(&params.g_tilde, vk.Y_tilde.as_slice(), revealed_msg_indices);
        let exponents = hidden_exponents(t, messages.as_slice(), revealed_msg_indices);
        proof {
            lemma_hidden_count(vk.y_views(), field_views(messages@), revealed_msg_indices@);
            assert(verkey_views(bases@).len() == bases@.len());
            assert(field_views(exponents@).len() == exponents@.len());
        }
        let j = multi_scalar_mul_const_time(bases.as_slice(), exponents.as_slice());

        let mut committing = ProverCommittingOtherGroup::new();
        let mut k: usize = 0;
        while k < bases.len()
            invariant
                k <= bases@.len(),
                bases@.len() == blindings@.len(),
                committing.gens() == verkey_views(bases@).take(k as int),
                committing.blindings().len() == k,
                forall|i: int|
                    0 <= i < k ==> (#[trigger] blindings@[i] matches Some(b)
                        ==> committing.blindings()[i] == b@),
            decreases bases@.len() - k,
        {
            let ghost before = committing.blindings();
            committing.commit(&bases[k], blindings[k]);
            proof {
                assert(committing.gens() =~= verkey_views(bases@).take(k + 1));
                assert forall|i: int| 0 <= i < k + 1 implies (#[trigger] blindings@[i] matches Some(b)
                    ==> committing.blindings()[i] == b@) by {
                    if i < k {
                        assert(committing.blindings().drop_last()[i] == before[i]);
                    }
                }
            }
            k += 1;
        }
        assert(verkey_views(bases@).take(bases@.len() as int) =~= verkey_views(bases@));
        let committed = committing.finish();
        (exponents, j, committed)
    }
}

impl JSPoKOfSignature {
    /// The bytes from which the prover derives the challenge.
    pub open spec fn spec_bytes(self) -> Seq<u8> {
        challenge_transcript(
            self.sig,
            self.J@,
            self.pok_vc.gens(),
            self.pok_vc.commitment(),
            self.phi@,
            self.shared_randomness,
            self.target_domain@,
            self.params,
        )
    }

    /// Starts a proof of knowledge of `sig` on `messages` under `vk`, which
    /// reveals the attributes at `revealed_msg_indices` and carries the
    /// holder's pseudonym towards `target_domain`. The holder's secret is the
    /// attribute at `USER_SECRET_INDEX`.
    ///
    /// The shape of the input is checked first, in the order that
    /// `shape_error` gives. Where `blindings` is supplied, it holds one
    /// blinding factor per hidden attribute, in ascending position.
    pub fn init(
        sig: &Signature,
        vk: &Verkey,
        params: &Params,
        messages: Vec<FieldElement>,
        blindings: Option<&[FieldElement]>,
        revealed_msg_indices: HashSet<usize>,
        target_domain: &str,
    ) -> (r: Result<Self, CredentialError>)
        ensures
            ({
                let given = match blindings {
                    Some(b) => Some(b@.len()),
                    None => None,
                };
                let given_views = match blindings {
                    Some(b) => Some(field_views(b@)),
                    None => None,
                };
                match r {
                    Ok(pok) => Self::shape_ok(
                        vk.Y_tilde@.len(),
                        messages@.len(),
                        given,
                        revealed_msg_indices@,
                    ) && pok.initialised_from(
                        *sig,
                        *vk,
                        *params,
                        field_views(messages@),
                        given_views,
                        revealed_msg_indices@,
                        target_domain@,
                    ),
                    Err(e) => Self::shape_error(
                        vk.Y_tilde@.len(),
                        messages@.len(),
                        given,
                        revealed_msg_indices@,
                        e,
                    ),
                }
            }),
    {
        match Signature::check_verkey_and_messages_compat(messages.as_slice(), vk) {
            Err(e) => {
                return Err(e);
            },
            Ok(_) => {},
        }
        if messages.len() == 0 {
            return Err(CredentialError::MissingUserSecret);
        }
        match Self::validate_revealed_indices(messages.as_slice(), &revealed_msg_indices) {
            Err(e) => {
                return Err(e);
            },
            Ok(_) => {},
        }
        let slots = match Self::get_blindings(blindings, messages.as_slice(), &revealed_msg_indices) {
            Err(e) => {
                return Err(e);
            },
            Ok(slots) => slots,
        };
        let ghost hidden = hidden_of(field_views(messages@), revealed_msg_indices@).len();
        let ghost message_views = field_views(messages@);

        let (t, sigma_prime) = Self::transform_sig(sig);
        let ghost r_view = choose|r: Seq<u8>|
            is_nonzero_element(r) && is_randomization(sigma_prime, *sig, r, t@);
        let shared_randomness = SharedRandomness::random(SHARED_RANDOMNESS_SIZE);
        let domain_hash = FieldElement::from_msg_hash(target_domain.as_bytes());
        let phi = domain_hash.multiply(&messages[USER_SECRET_INDEX]);
        proof {
            lemma_hidden_count(vk.y_views(), message_views, revealed_msg_indices@);
        }
        let ghost t_view = t@;
        let (exponents, j, committed) = Self::commit_for_pok(
            messages,
            slots,
            &revealed_msg_indices,
            t,
            vk,
            params,
        );
        let pok = JSPoKOfSignature {
            secrets: exponents,
            sig: sigma_prime,
            J: j,
            pok_vc: committed,
            phi,
            shared_randomness,
            target_domain: target_domain.to_owned(),
            params: params.clone(),
        };
        proof {
            let secrets = field_views(pok.secrets@);
            assert(secrets[0] == t_view);
            assert(is_nonzero_element(r_view) && is_randomization(pok.sig, *sig, r_view, secrets[0]));
            assert(secrets.drop_first() =~= hidden_of(message_views, revealed_msg_indices@));
            match blindings {
                Some(b) => {
                    assert forall|k: int| 0 <= k < hidden implies pok.pok_vc.blindings().drop_first()[k]
                        == field_views(b@)[k] by {
                        assert(slots@[k + 1] == Some(&b@[k]));
                    }
                    assert(pok.pok_vc.blindings().drop_first() =~= field_views(b@));
                },
                None => {},
            }
        }
        Ok(pok)
    }

    /// Byte representation of the public elements, from which the challenge
    /// is derived.
    pub fn to_bytes(&self) -> (r: Vec<u8>)
        requires
            self.shared_randomness.shared_randomness@.len() >= SHARED_RANDOMNESS_SIZE,
        ensures
            r@ == self.spec_bytes(),
    {
        let mut bytes = self.sig.to_bytes();
        let mut j = self.J.to_compressed();
        let mut vc = self.pok_vc.to_bytes();
        let mut phi = self.phi.to_bytes();
        let mut rest = self.shared_randomness.verification_bytes(&self.target_domain, &self.params);
        bytes.append(&mut j);
        bytes.append(&mut vc);
        bytes.append(&mut phi);
        bytes.append(&mut rest);
        assert(bytes@ =~= self.spec_bytes());
        bytes
    }

    /// Answers the challenge and gives the proof to send. Fails where the
    /// secrets are not one per base, which `init` never leaves so.
    pub fn gen_proof(self, challenge: &FieldElement) -> (r: Result<JSPoKOfSignatureProof, CredentialError>)
        ensures
            self.secrets@.len() != self.pok_vc.gens().len() ==> r == Err::<
                JSPoKOfSignatureProof,
                CredentialError,
            >(
                CredentialError::UnequalNoOfBasesExponents {
                    bases: self.pok_vc.gens().len() as usize,
                    exponents: self.secrets@.len() as usize,
                },
            ),
            self.secrets@.len() == self.pok_vc.gens().len() ==> r is Ok && r->Ok_0.answers(
                self,
                challenge@,
            ),
    {
        let proof_vc = match self.pok_vc.gen_proof(challenge, self.secrets.as_slice()) {
            Err(e) => {
                return Err(e);
            },
            Ok(p) => p,
        };
        Ok(
            JSPoKOfSignatureProof {
                sig: self.sig,
                J: self.J,
                proof_vc,
                phi: self.phi,
                shared_randomness: self.shared_randomness,
                target_domain: self.target_domain,
            },
        )
    }
}

impl JSPoKOfSignatureProof {
    /// Whether this proof is what `pok` answers to `challenge`.
    pub open spec fn answers(self, pok: JSPoKOfSignature, challenge: Seq<u8>) -> bool {
        &&& self.sig.sigma_1@ == pok.sig.sigma_1@
        &&& self.sig.sigma_2@ == pok.sig.sigma_2@
        &&& self.J@ == pok.J@
        &&& self.proof_vc.commitment@ == pok.pok_vc.commitment()
        &&& self.proof_vc.response_views() == responses_to(
            pok.pok_vc.blindings(),
            challenge,
            field_views(pok.secrets@),
        )
        &&& self.phi@ == pok.phi@
        &&& self.shared_randomness.views() == pok.shared_randomness.views()
        &&& self.shared_randomness.shared_randomness@.len() == pok.shared_randomness.shared_randomness@.len()
        &&& self.target_domain@ == pok.target_domain@
    }

    /// The bytes from which a verifier that is shown `revealed` derives the
    /// challenge.
    pub open spec fn spec_bytes_for_challenge(self, revealed: Set<usize>, vk: Verkey, params: Params) -> Seq<u8> {
        challenge_transcript(
            self.sig,
            self.J@,
            proof_bases(vk, params, revealed),
            self.proof_vc.commitment@,
            self.phi@,
            self.shared_randomness,
            self.target_domain@,
            params,
        )
    }

    /// `J` with the revealed attributes added: what the signature is checked
    /// against.
    pub open spec fn full_j(self, vk: Verkey, revealed: Map<usize, FieldElement>) -> Seq<u8> {
        let bases = revealed_of(vk.y_views(), revealed.dom());
        if bases.len() == 0 {
            self.J@
        } else {
            verkey_group_add(
                self.J@,
                verkey_group_msm_var_time(bases, revealed_values(revealed, vk.Y_tilde@.len())),
            )
        }
    }

    /// Whether the proof is accepted: `sigma_1` is not the identity, the
    /// responses open `J`, and the pairing equation
    /// `e(sigma_1, J' + X_tilde) * e(-sigma_2, g_tilde) = 1` holds.
    pub open spec fn accepted(
        self,
        vk: Verkey,
        params: Params,
        revealed: Map<usize, FieldElement>,
        challenge: Seq<u8>,
    ) -> bool {
        &&& !sig_group_is_identity(self.sig.sigma_1@)
        &&& responses_open(
            proof_bases(vk, params, revealed.dom()),
            self.proof_vc.response_views(),
            self.J@,
            self.proof_vc.commitment@,
            challenge,
        )
        &&& pairing_product_is_one(
            self.sig.sigma_1@,
            verkey_group_add(self.full_j(vk, revealed), vk.X_tilde@),
            sig_group_neg(self.sig.sigma_2@),
            params.g_tilde@,
        )
    }

    /// Whether the proof and what is revealed have the shape that `vk`
    /// asks for: every revealed position names an attribute, and there is
    /// one response for `g_tilde` and one per hidden attribute.
    pub open spec fn shape_ok(self, vk: Verkey, params: Params, revealed: Set<usize>) -> bool {
        &&& all_in_range(revealed, vk.Y_tilde@.len())
        &&& proof_bases(vk, params, revealed).len() == self.proof_vc.responses@.len()
    }

    /// The error that `verify` reports for a proof of the wrong shape.
    pub open spec fn shape_error(self, vk: Verkey, params: Params, revealed: Set<usize>, e: CredentialError) -> bool {
        if !all_in_range(revealed, vk.Y_tilde@.len()) {
            e matches CredentialError::BadIndex { index, bound } && revealed.contains(index)
                && index >= vk.Y_tilde@.len() && bound == vk.Y_tilde@.len()
        } else {
            proof_bases(vk, params, revealed).len() != self.proof_vc.responses@.len() && e == (
            CredentialError::UnequalNoOfBasesExponents {
                bases: proof_bases(vk, params, revealed).len() as usize,
                exponents: self.proof_vc.responses@.len() as usize,
            })
        }
    }

    /// The bytes that are hashed into the challenge: the randomized
    /// signature, `J`, `g_tilde` and the `Y_tilde` of the hidden attributes,
    /// the commitment of the proof of knowledge, the pseudonym, and the
    /// bytes of the companion proofs.
    pub fn get_bytes_for_challenge(&self, revealed_msg_indices: HashSet<usize>, vk: &Verkey, params: &Params) -> (r: Vec<u8>)
        requires
            self.shared_randomness.shared_randomness@.len() >= SHARED_RANDOMNESS_SIZE,
        ensures
            r@ == self.spec_bytes_for_challenge(revealed_msg_indices@, *vk, *params),
    {
        let bases = hidden_bases(&params.g_tilde, vk.Y_tilde.as_slice(), &revealed_msg_indices);
        let mut bytes = self.sig.to_bytes();
        let mut j = self.J.to_compressed();
        let mut gens = crate::pok_vc::compress_all(bases.as_slice());
        let mut commitment = self.proof_vc.commitment.to_compressed();
        let mut phi = self.phi.to_bytes();
        let mut rest = self.shared_randomness.verification_bytes(&self.target_domain, params);
        bytes.append(&mut j);
        bytes.append(&mut gens);
        bytes.append(&mut commitment);
        bytes.append(&mut phi);
        bytes.append(&mut rest);
        assert(bytes@ =~= self.spec_bytes_for_challenge(revealed_msg_indices@, *vk, *params));
        bytes
    }

    /// The response for the attribute that stands at `msg_idx` among the
    /// hidden ones. Two proofs made with the same blinding factor for the
    /// same value give the same response to the same challenge.
    pub fn get_resp_for_message(&self, msg_idx: usize) -> (r: Result<FieldElement, CredentialError>)
        ensures
            msg_idx + 1 < self.proof_vc.responses@.len() ==> r is Ok && r->Ok_0@
                == self.proof_vc.response_views()[msg_idx + 1],
            msg_idx + 1 >= self.proof_vc.responses@.len() ==> r == Err::<FieldElement, CredentialError>(
                CredentialError::BadIndex {
                    index: msg_idx,
                    bound: if self.proof_vc.responses@.len() == 0 {
                        0usize
                    } else {
                        (self.proof_vc.responses@.len() - 1) as usize
                    },
                },
            ),
    {
        let n = self.proof_vc.responses.len();
        if n == 0 {
            return Err(CredentialError::BadIndex { index: msg_idx, bound: 0 });
        }
        if msg_idx >= n - 1 {
            return Err(CredentialError::BadIndex { index: msg_idx, bound: n - 1 });
        }
        Ok(self.proof_vc.responses[1 + msg_idx].clone())
    }

    /// Verifies the proof against `vk`, given the attributes that the
    /// holder reveals and the challenge. The shape is checked first; a proof
    /// of the right shape is accepted or rejected, never an error.
    pub fn verify(
        &self,
        vk: &Verkey,
        params: &Params,
        revealed_msgs: HashMap<usize, FieldElement>,
        challenge: &FieldElement,
    ) -> (r: Result<bool, CredentialError>)
        ensures
            match r {
                Ok(b) => self.shape_ok(*vk, *params, revealed_msgs@.dom()) && b == self.accepted(
                    *vk,
                    *params,
                    revealed_msgs@,
                    challenge@,
                ),
                Err(e) => self.shape_error(*vk, *params, revealed_msgs@.dom(), e),
            },
    {
        match find_bad_key(&revealed_msgs, vk.Y_tilde.len()) {
            Some(idx) => {
                return Err(CredentialError::BadIndex { index: idx, bound: vk.Y_tilde.len() });
            },
            None => {},
        }
        let bases = hidden_bases_of_map(&params.g_tilde, vk.Y_tilde.as_slice(), &revealed_msgs);
        assert(verkey_views(bases@).len() == bases@.len());
        if bases.len() != self.proof_vc.responses.len() {
            return Err(
                CredentialError::UnequalNoOfBasesExponents {
                    bases: bases.len(),
                    exponents: self.proof_vc.responses.len(),
                },
            );
        }
        if self.sig.is_identity() {
            return Ok(false);
        }
        let opened = match self.proof_vc.verify(bases.as_slice(), &self.J, challenge) {
            Err(e) => {
                return Err(e);
            },
            Ok(b) => b,
        };
        if !opened {
            return Ok(false);
        }
        let (b, e) = revealed_pairs(vk.Y_tilde.as_slice(), &revealed_msgs);
        assert(verkey_views(b@).len() == b@.len());
        let j = if b.len() == 0 {
            self.J.clone()
        } else {
            self.J.plus(&multi_scalar_mul_var_time(b.as_slice(), e.as_slice()))
        };
        let res = ate_2_pairing_is_one(
            &self.sig.sigma_1,
            &j.plus(&vk.X_tilde),
            &self.sig.sigma_2.negation(),
            &params.g_tilde,
        );
        Ok(res)
    }
}

impl Clone for JSPoKOfSignatureProof {
    fn clone(&self) -> (r: JSPoKOfSignatureProof)
        ensures
            r.sig.sigma_1@ == self.sig.sigma_1@,
            r.sig.sigma_2@ == self.sig.sigma_2@,
            r.J@ == self.J@,
            r.proof_vc.commitment@ == self.proof_vc.commitment@,
            r.proof_vc.response_views() == self.proof_vc.response_views(),
            r.phi@ == self.phi@,
            r.shared_randomness.views() == self.shared_randomness.views(),
            r.target_domain@ == self.target_domain@,
    {
        JSPoKOfSignatureProof {
            sig: self.sig.clone(),
            J: self.J.clone(),
            proof_vc: self.proof_vc.clone(),
            phi: self.phi.clone(),
            shared_randomness: self.shared_randomness.clone(),
            target_domain: self.target_domain.clone(),
        }
    }
}

/// For one secret and one domain the pseudonym is always the same: two
/// provers, made for the same domain from attribute vectors that hold the
/// same secret, carry the same pseudonym, whatever else differs between
/// them.
pub proof fn lemma_pseudonym_is_deterministic(
    a: JSPoKOfSignature,
    sig_a: Signature,
    vk_a: Verkey,
    params_a: Params,
    messages_a: Seq<Seq<u8>>,
    blindings_a: Option<Seq<Seq<u8>>>,
    revealed_a: Set<usize>,
    b: JSPoKOfSignature,
    sig_b: Signature,
    vk_b: Verkey,
    params_b: Params,
    messages_b: Seq<Seq<u8>>,
    blindings_b: Option<Seq<Seq<u8>>>,
    revealed_b: Set<usize>,
    domain: Seq<char>,
)
    requires
        a.initialised_from(sig_a, vk_a, params_a, messages_a, blindings_a, revealed_a, domain),
        b.initialised_from(sig_b, vk_b, params_b, messages_b, blindings_b, revealed_b, domain),
        messages_a[USER_SECRET_INDEX as int] == messages_b[USER_SECRET_INDEX as int],
    ensures
        a.phi@ == b.phi@,
        a.phi@ == pseudonym(domain, messages_a[USER_SECRET_INDEX as int]),
{
}

/// A proof whose `sigma_1` is the identity is never accepted.
pub proof fn lemma_identity_is_rejected(
    proof: JSPoKOfSignatureProof,
    vk: Verkey,
    params: Params,
    revealed: Map<usize, FieldElement>,
    challenge: Seq<u8>,
)
    requires
        sig_group_is_identity(proof.sig.sigma_1@),
    ensures
        !proof.accepted(vk, params, revealed, challenge),
{
}

/// The verifier of an honest proof derives its challenge from the very
/// bytes that the prover derived its own from, provided that it is shown
/// the set of positions that the prover revealed.
pub proof fn lemma_verifier_recomputes_transcript(
    pok: JSPoKOfSignature,
    proof: JSPoKOfSignatureProof,
    sig: Signature,
    vk: Verkey,
    params: Params,
    messages: Seq<Seq<u8>>,
    blindings: Option<Seq<Seq<u8>>>,
    revealed: Set<usize>,
    domain: Seq<char>,
    challenge: Seq<u8>,
)
    requires
        pok.initialised_from(sig, vk, params, messages, blindings, revealed, domain),
        proof.answers(pok, challenge),
    ensures
        proof.spec_bytes_for_challenge(revealed, vk, params) == pok.spec_bytes(),
{
}

/// An honest proof has the shape that its key asks for, so that verifying
/// it gives a verdict and never an error.
pub proof fn lemma_honest_proof_has_shape(
    pok: JSPoKOfSignature,
    proof: JSPoKOfSignatureProof,
    sig: Signature,
    vk: Verkey,
    params: Params,
    messages: Seq<Seq<u8>>,
    blindings: Option<Seq<Seq<u8>>>,
    revealed: Set<usize>,
    domain: Seq<char>,
    challenge: Seq<u8>,
)
    requires
        pok.initialised_from(sig, vk, params, messages, blindings, revealed, domain),
        proof.answers(pok, challenge),
        all_in_range(revealed, vk.Y_tilde@.len()),
    ensures
        proof.shape_ok(vk, params, revealed),
{
    assert(proof.proof_vc.response_views().len() == proof.proof_vc.responses@.len());
}

/// Two proofs can show that they hide the same value: where the provers
/// were given the same blinding factor for a hidden attribute of the one and
/// a hidden attribute of the other, and the two attributes are equal, the
/// responses for them to one challenge are equal. The attributes are counted
/// among the hidden ones, as `get_resp_for_message` counts them.
pub proof fn lemma_shared_blinding_gives_equal_responses(
    pok_a: JSPoKOfSignature,
    proof_a: JSPoKOfSignatureProof,
    sig_a: Signature,
    vk_a: Verkey,
    params_a: Params,
    messages_a: Seq<Seq<u8>>,
    blindings_a: Seq<Seq<u8>>,
    revealed_a: Set<usize>,
    domain_a: Seq<char>,
    i: int,
    pok_b: JSPoKOfSignature,
    proof_b: JSPoKOfSignatureProof,
    sig_b: Signature,
    vk_b: Verkey,
    params_b: Params,
    messages_b: Seq<Seq<u8>>,
    blindings_b: Seq<Seq<u8>>,
    revealed_b: Set<usize>,
    domain_b: Seq<char>,
    j: int,
    challenge: Seq<u8>,
)
    requires
        pok_a.initialised_from(sig_a, vk_a, params_a, messages_a, Some(blindings_a), revealed_a, domain_a),
        pok_b.initialised_from(sig_b, vk_b, params_b, messages_b, Some(blindings_b), revealed_b, domain_b),
        proof_a.answers(pok_a, challenge),
        proof_b.answers(pok_b, challenge),
        0 <= i < hidden_of(messages_a, revealed_a).len(),
        0 <= j < hidden_of(messages_b, revealed_b).len(),
        blindings_a[i] == blindings_b[j],
        hidden_of(messages_a, revealed_a)[i] == hidden_of(messages_b, revealed_b)[j],
    ensures
        proof_a.proof_vc.response_views()[i + 1] == proof_b.proof_vc.response_views()[j + 1],
{
    let secrets_a = field_views(pok_a.secrets@);
    let secrets_b = field_views(pok_b.secrets@);
    assert(secrets_a.drop_first()[i] == secrets_a[i + 1]);
    assert(secrets_b.drop_first()[j] == secrets_b[j + 1]);
    assert(pok_a.pok_vc.blindings().drop_first()[i] == pok_a.pok_vc.blindings()[i + 1]);
    assert(pok_b.pok_vc.blindings().drop_first()[j] == pok_b.pok_vc.blindings()[j + 1]);
}

} // verus!
