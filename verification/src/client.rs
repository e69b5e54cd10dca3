//! The holder of a credential.
//!
//! A holder asks signers for shares of a signature on its attributes,
//! combines enough of them into a credential, and then proves to relying
//! parties that it holds one. Asking and combining are the work of the
//! issuing protocol; the holder here keeps the keys and the credential,
//! decides which shares to combine, and makes the proofs.

use vstd::prelude::*;
use vstd::utf8::encode_utf8;
use std::collections::HashSet;
use crate::errors::CredentialError;
use crate::field::{FieldElement, field_hash, is_nonzero_element};
use crate::group::{SignatureGroup, sig_group_mul, field_views};
use crate::js::Public;
use crate::js_pok_sig::{JSPoKOfSignature, JSPoKOfSignatureProof, SHARED_RANDOMNESS_SIZE};
use crate::js_signature::{JSMessages, clone_fields};
use crate::keys::{Signature, Verkey};
use crate::shares::{check_share_ids, shares_suffice};

verus! {

/// An ElGamal key pair in the signature group: the secret scalar and the
/// generator multiplied by it.
#[derive(Debug)]
pub struct ElGamalKeys {
    sk: FieldElement,
    pk: SignatureGroup,
}

impl ElGamalKeys {
    /// The secret key.
    pub closed spec fn spec_sk(self) -> Seq<u8> {
        self.sk@
    }

    /// The public key.
    pub closed spec fn spec_pk(self) -> Seq<u8> {
        self.pk@
    }

    /// Whether the public key is `param` multiplied by the secret key.
    pub open spec fn matches_generator(self, param: Seq<u8>) -> bool {
        self.spec_pk() == sig_group_mul(param, self.spec_sk())
    }

    /// The pair that belongs to the secret key `sk`.
    pub fn from_secret(param: &SignatureGroup, sk: FieldElement) -> (r: Self)
        ensures
            r.spec_sk() == sk@,
            r.matches_generator(param@),
    {
        let pk = param.scalar_mul(&sk);
        ElGamalKeys { sk, pk }
    }

    /// Draws a secret key other than zero and computes the public key for
    /// the generator `param`.
    pub fn new(param: &SignatureGroup) -> (r: Self)
        ensures
            r.matches_generator(param@),
            is_nonzero_element(r.spec_sk()),
    {
        Self::from_secret(param, FieldElement::random())
    }

    /// The secret key.
    pub fn sk(&self) -> (r: &FieldElement)
        ensures
            r@ == self.spec_sk(),
    {
        &self.sk
    }

    /// The public key.
    pub fn pk(&self) -> (r: &SignatureGroup)
        ensures
            r@ == self.spec_pk(),
    {
        &self.pk
    }
}

impl Clone for ElGamalKeys {
    fn clone(&self) -> (r: ElGamalKeys)
        ensures
            r.spec_sk() == self.spec_sk(),
            r.spec_pk() == self.spec_pk(),
    {
        ElGamalKeys { sk: self.sk.clone(), pk: self.pk.clone() }
    }
}

/// What a holder sends to each signer: the request for a signature and the
/// proof that the request is well formed.
#[derive(Clone, Debug)]
pub struct ClientIdRequest<R, P> {
    pub sig_req: R,
    pub sig_req_proof: P,
}

/// What a signer answers: its id, its blinded share of the signature, and
/// its share of the verification key.
#[derive(Debug)]
pub struct ServerBlindSignature<B> {
    pub id: usize,
    pub blind_sig: B,
    pub vk_share: Verkey,
}

/// The ids of the signers of `shares`, in the same order.
pub open spec fn signer_ids<B>(shares: Seq<ServerBlindSignature<B>>) -> Seq<usize> {
    Seq::new(shares.len(), |i: int| shares[i].id)
}

/// Picks the shares to combine: the first `threshold` of those received.
/// Fails where fewer were received, or where two of those picked come from
/// one signer.
pub fn select_shares<B>(threshold: usize, mut blinded_sigs: Vec<ServerBlindSignature<B>>) -> (r: Result<
    Vec<ServerBlindSignature<B>>,
    CredentialError,
>)
    ensures
        r is Ok <==> shares_suffice(threshold, signer_ids(blinded_sigs@)),
        r matches Ok(chosen) ==> chosen@ == blinded_sigs@.take(threshold as int),
        r matches Err(e) ==> check_share_ids_fails(threshold, signer_ids(blinded_sigs@), e),
{
    let mut ids: Vec<usize> = Vec::new();
    let mut i: usize = 0;
    while i < blinded_sigs.len()
        invariant
            i <= blinded_sigs@.len(),
            ids@ == signer_ids(blinded_sigs@).take(i as int),
        decreases blinded_sigs@.len() - i,
    {
        ids.push(blinded_sigs[i].id);
        i += 1;
        assert(ids@ =~= signer_ids(blinded_sigs@).take(i as int));
    }
    assert(ids@ =~= signer_ids(blinded_sigs@));
    match check_share_ids(threshold, ids.as_slice()) {
        Err(e) => Err(e),
        Ok(_) => {
            let ghost all = blinded_sigs@;
            blinded_sigs.truncate(threshold);
            assert(blinded_sigs@ =~= all.take(threshold as int));
            Ok(blinded_sigs)
        },
    }
}

/// The error that picking shares reports: too few shares first, else an id
/// that two of the first `threshold` shares have in common.
pub open spec fn check_share_ids_fails(threshold: usize, ids: Seq<usize>, e: CredentialError) -> bool {
    if ids.len() < threshold {
        e == (CredentialError::NotEnoughShares { threshold, given: ids.len() as usize })
    } else {
        e matches CredentialError::DuplicateSigner { id } && crate::shares::occurs_twice(
            ids.take(threshold as int),
            id,
        )
    }
}

/// A holder: its ElGamal keys, and the credential with the key to verify
/// it, once the holder has them.
#[derive(Debug)]
pub struct Client {
    public: Public,
    secret: FieldElement,
    elg_keys: ElGamalKeys,
    credential: Option<Signature>,
    ps_verkey: Option<Verkey>,
}

impl Client {
    /// The parameters that the holder was made with.
    pub closed spec fn spec_public(self) -> Public {
        self.public
    }

    /// The holder's long-term secret.
    pub closed spec fn spec_secret(self) -> Seq<u8> {
        self.secret@
    }

    /// The holder's ElGamal keys.
    pub closed spec fn spec_elg_keys(self) -> ElGamalKeys {
        self.elg_keys
    }

    /// The credential, once the holder has one.
    pub closed spec fn spec_credential(self) -> Option<Signature> {
        self.credential
    }

    /// The key that verifies the credential, once the holder has one.
    pub closed spec fn spec_verkey(self) -> Option<Verkey> {
        self.ps_verkey
    }

    /// A holder without a credential. Its secret is the hash of
    /// `user_secret`; its ElGamal keys are drawn afresh.
    pub fn new(public: Public, user_secret: String) -> (r: Self)
        ensures
            r.spec_public() == public,
            r.spec_secret() == field_hash(encode_utf8(user_secret@)),
            r.spec_elg_keys().matches_generator(public.cparams.g@),
            is_nonzero_element(r.spec_elg_keys().spec_sk()),
            r.spec_credential() is None,
            r.spec_verkey() is None,
    {
        let elg_keys = ElGamalKeys::new(&public.cparams.g);
        Client {
            public,
            secret: FieldElement::from_msg_hash(user_secret.as_str().as_bytes()),
            elg_keys,
            credential: None,
            ps_verkey: None,
        }
    }

    /// The parameters that the holder was made with.
    pub fn public(&self) -> (r: &Public)
        ensures
            *r == self.spec_public(),
    {
        &self.public
    }

    /// The holder's ElGamal keys.
    pub fn elg_keys(&self) -> (r: &ElGamalKeys)
        ensures
            *r == self.spec_elg_keys(),
    {
        &self.elg_keys
    }

    /// The holder's long-term secret, as an attribute.
    pub fn secret(&self) -> (r: &FieldElement)
        ensures
            r@ == self.spec_secret(),
    {
        &self.secret
    }

    /// Keeps a combined signature as the credential.
    pub fn store_signature(self, credential: Signature) -> (r: Self)
        ensures
            r.spec_credential() == Some(credential),
            r.spec_verkey() == self.spec_verkey(),
            r.spec_public() == self.spec_public(),
            r.spec_secret() == self.spec_secret(),
            r.spec_elg_keys() == self.spec_elg_keys(),
    {
        let mut c = self;
        c.credential = Some(credential);
        c
    }

    /// Keeps a combined signature as the credential, and the combined key
    /// that verifies it.
    pub fn store_credential(&mut self, credential: Signature, verkey: Verkey)
        ensures
            final(self).spec_credential() == Some(credential),
            final(self).spec_verkey() == Some(verkey),
            final(self).spec_public() == old(self).spec_public(),
            final(self).spec_secret() == old(self).spec_secret(),
            final(self).spec_elg_keys() == old(self).spec_elg_keys(),
    {
        self.credential = Some(credential);
        self.ps_verkey = Some(verkey);
    }

    /// The key that verifies the credential, once the holder has one.
    pub fn offer_ps_verkey(&self) -> (r: Option<Verkey>)
        ensures
            r is Some <==> self.spec_verkey() is Some,
            r matches Some(vk) ==> vk.X_tilde@ == self.spec_verkey()->0.X_tilde@ && vk.y_views()
                == self.spec_verkey()->0.y_views(),
    {
        match &self.ps_verkey {
            Some(vk) => Some(vk.clone()),
            None => None,
        }
    }

    /// Whether `prove_id` has what it needs: a credential, the key for it,
    /// and attributes and indices of the shape that the key asks for.
    pub open spec fn can_prove(self, messages: JSMessages, revealed: Set<usize>) -> bool {
        &&& self.spec_credential() is Some
        &&& self.spec_verkey() is Some
        &&& JSPoKOfSignature::shape_ok(
            self.spec_verkey()->0.Y_tilde@.len(),
            messages.all@.len(),
            None,
            revealed,
        )
    }

    /// Whether `proof` is a proof of the holder's credential on `messages`
    /// towards `domain`: the answer of a prover made from them to the
    /// challenge derived from that prover's transcript.
    pub open spec fn is_proof_of(
        self,
        proof: JSPoKOfSignatureProof,
        messages: JSMessages,
        revealed: Set<usize>,
        domain: Seq<char>,
    ) -> bool {
        exists|pok: JSPoKOfSignature|
            pok.initialised_from(
                self.spec_credential()->0,
                self.spec_verkey()->0,
                self.spec_public().cparams,
                field_views(messages.all@),
                None,
                revealed,
                domain,
            ) && #[trigger] proof.answers(pok, field_hash(pok.spec_bytes()))
    }

    /// Proves to the party at `domain` that the holder has a credential on
    /// `messages`, revealing the attributes at `revealed_msg_indices`.
    /// Gives nothing where the holder lacks the credential or its key, or
    /// where the attributes or indices do not fit the key.
    pub fn prove_id(&self, messages: JSMessages, revealed_msg_indices: HashSet<usize>, domain: &String) -> (r: Option<
        JSPoKOfSignatureProof,
    >)
        ensures
            r is Some <==> self.can_prove(messages, revealed_msg_indices@),
            r matches Some(proof) ==> self.is_proof_of(proof, messages, revealed_msg_indices@, domain@),
            r matches Some(proof) ==> proof.shared_randomness.shared_randomness@.len()
                == SHARED_RANDOMNESS_SIZE && proof.target_domain@ == domain@,
    {
        let verkey = match &self.ps_verkey {
            Some(vk) => vk,
            None => {
                return None;
            },
        };
        let credential = match &self.credential {
            Some(c) => c,
            None => {
                return None;
            },
        };
        let all = clone_fields(&messages.all);
        assert(all@.len() == field_views(all@).len());
        assert(messages.all@.len() == field_views(messages.all@).len());
        let pok = match JSPoKOfSignature::init(
            credential,
            verkey,
            &self.public.cparams,
            all,
            None,
            revealed_msg_indices,
            domain.as_str(),
        ) {
            Ok(pok) => pok,
            Err(_) => {
                return None;
            },
        };
        let chal = FieldElement::from_msg_hash(pok.to_bytes().as_slice());
        match pok.gen_proof(&chal) {
            Ok(proof) => {
                assert(proof.answers(pok, field_hash(pok.spec_bytes())));
                Some(proof)
            },
            Err(_) => None,
        }
    }
}

} // verus!
