//! The relying party: it holds a verification key and checks the proofs
//! that holders show it.

use vstd::prelude::*;
use std::collections::{HashMap, HashSet};
use crate::field::{FieldElement, field_hash};
use crate::js::Public;
use crate::js_pok_sig::{JSPoKOfSignatureProof, SHARED_RANDOMNESS_SIZE};
use crate::keys::Verkey;

verus! {

/// A relying party. It starts without a key; once a key is set, it verifies
/// any number of proofs.
#[derive(Debug)]
pub struct RelyingParty {
    domain: String,
    vk: Option<Verkey>,
    public: Public,
}

impl RelyingParty {
    /// The domain that the party answers to.
    pub closed spec fn spec_domain(self) -> Seq<char> {
        self.domain@
    }

    /// The key that the party verifies with, once it has one.
    pub closed spec fn spec_vk(self) -> Option<Verkey> {
        self.vk
    }

    /// The parameters that the party was made with.
    pub closed spec fn spec_public(self) -> Public {
        self.public
    }

    /// A party for `domain` that has no key yet.
    pub fn new(domain: String, public: Public) -> (r: Self)
        ensures
            r.spec_domain() == domain@,
            r.spec_vk() is None,
            r.spec_public() == public,
    {
        RelyingParty { domain, vk: None, public }
    }

    /// The domain that the party answers to.
    pub fn domain(&self) -> (r: &String)
        ensures
            r@ == self.spec_domain(),
    {
        &self.domain
    }

    /// Whether a key has been set.
    pub fn has_key(&self) -> (r: bool)
        ensures
            r == (self.spec_vk() is Some),
    {
        self.vk.is_some()
    }

    /// Sets the key to verify with, in place of any earlier one.
    pub fn set_verification_key(&mut self, vk: Verkey)
        ensures
            final(self).spec_vk() == Some(vk),
            final(self).spec_domain() == old(self).spec_domain(),
            final(self).spec_public() == old(self).spec_public(),
    {
        self.vk = Some(vk);
    }

    /// What `verify_id` answers for `id_proof`: nothing while the party has
    /// no key, or where the proof has not the shape that the key asks for;
    /// else whether the proof, which reveals no attribute, is accepted under
    /// the challenge that the party derives from it.
    pub open spec fn spec_verify_id(self, id_proof: JSPoKOfSignatureProof) -> Option<bool> {
        match self.spec_vk() {
            None => None,
            Some(vk) => {
                let params = self.spec_public().cparams;
                let none = Set::<usize>::empty();
                if id_proof.shared_randomness.shared_randomness@.len() < SHARED_RANDOMNESS_SIZE
                    || !id_proof.shape_ok(vk, params, none) {
                    None
                } else {
                    Some(
                        id_proof.accepted(
                            vk,
                            params,
                            Map::<usize, FieldElement>::empty(),
                            field_hash(id_proof.spec_bytes_for_challenge(none, vk, params)),
                        ),
                    )
                }
            },
        }
    }

    /// Verifies a proof that reveals no attribute.
    pub fn verify_id(&self, id_proof: JSPoKOfSignatureProof) -> (r: Option<bool>)
        ensures
            r == self.spec_verify_id(id_proof),
    {
        match &self.vk {
            Some(ps_vk) => {
                if id_proof.shared_randomness.shared_randomness.len() < SHARED_RANDOMNESS_SIZE {
                    return None;
                }
                let chal_bytes = id_proof.get_bytes_for_challenge(
                    HashSet::new(),
                    ps_vk,
                    &self.public.cparams,
                );
                let chal_verifier = FieldElement::from_msg_hash(chal_bytes.as_slice());
                let revealed: HashMap<usize, FieldElement> = HashMap::new();
                assert(revealed@.dom() =~= Set::<usize>::empty());
                assert(revealed@ =~= Map::<usize, FieldElement>::empty());
                match id_proof.verify(ps_vk, &self.public.cparams, revealed, &chal_verifier) {
                    Ok(b) => Some(b),
                    Err(_) => None,
                }
            },
            None => None,
        }
    }
}

} // verus!
