//! Public parameters, verification keys and signatures.

use vstd::prelude::*;
use crate::errors::CredentialError;
use crate::field::FieldElement;
use crate::group::{
    SignatureGroup, VerkeyGroup, sig_group_hash, verkey_group_hash, sig_group_compressed,
    sig_group_is_identity, sig_group_neg, verkey_group_add, verkey_group_msm_var_time,
    pairing_product_is_one, verkey_views, field_views, multi_scalar_mul_var_time,
    ate_2_pairing_is_one,
};

verus! {

/// The bytes of `" : g"`, which follow the label where `g` is derived.
pub open spec fn suffix_g() -> Seq<u8> {
    seq![32u8, 58u8, 32u8, 103u8]
}

/// The bytes of `" : h"`, which follow the label where `h` is derived.
pub open spec fn suffix_h() -> Seq<u8> {
    seq![32u8, 58u8, 32u8, 104u8]
}

/// The bytes of `" : g_tilde"`, which follow the label where `g_tilde` is
/// derived.
pub open spec fn suffix_g_tilde() -> Seq<u8> {
    seq![32u8, 58u8, 32u8, 103u8, 95u8, 116u8, 105u8, 108u8, 100u8, 101u8]
}

/// The generators that signer, holder and verifier share: `g` and `h` in the
/// signature group, `g_tilde` in the verification-key group.
#[derive(Debug, PartialEq, Eq)]
pub struct Params {
    pub g: SignatureGroup,
    pub h: SignatureGroup,
    pub g_tilde: VerkeyGroup,
}

/// A verification key: `X_tilde`, and one `Y_tilde` per attribute.
#[derive(Debug, PartialEq, Eq)]
pub struct Verkey {
    pub X_tilde: VerkeyGroup,
    pub Y_tilde: Vec<VerkeyGroup>,
}

/// A signature, or a share of one: two elements of the signature group.
#[derive(Debug, PartialEq, Eq)]
pub struct Signature {
    pub sigma_1: SignatureGroup,
    pub sigma_2: SignatureGroup,
}

/// `label` followed by `suffix`.
fn with_suffix(label: &[u8], suffix: &[u8]) -> (r: Vec<u8>)
    ensures
        r@ == label@ + suffix@,
{
    let mut out: Vec<u8> = Vec::new();
    let mut i: usize = 0;
    while i < label.len()
        invariant
            i <= label@.len(),
            out@ == label@.take(i as int),
        decreases label@.len() - i,
    {
        out.push(label[i]);
        i += 1;
        assert(out@ =~= label@.take(i as int));
    }
    assert(label@.take(label@.len() as int) =~= label@);
    let mut j: usize = 0;
    while j < suffix.len()
        invariant
            j <= suffix@.len(),
            out@ == label@ + suffix@.take(j as int),
        decreases suffix@.len() - j,
    {
        out.push(suffix[j]);
        j += 1;
        assert(out@ =~= label@ + suffix@.take(j as int));
    }
    assert(suffix@.take(suffix@.len() as int) =~= suffix@);
    out
}

impl Params {
    /// What `new` derives from a label.
    pub open spec fn derived_from(self, label: Seq<u8>) -> bool {
        &&& self.g@ == sig_group_hash(label + suffix_g())
        &&& self.h@ == sig_group_hash(label + suffix_h())
        &&& self.g_tilde@ == verkey_group_hash(label + suffix_g_tilde())
    }

    /// Derives the three generators from the label alone, each by hashing
    /// the label followed by the generator's own suffix.
    pub fn new(label: &[u8]) -> (r: Params)
        ensures
            r.derived_from(label@),
    {
        let sg: [u8; 4] = [32u8, 58u8, 32u8, 103u8];
        let sh: [u8; 4] = [32u8, 58u8, 32u8, 104u8];
        let st: [u8; 10] = [32u8, 58u8, 32u8, 103u8, 95u8, 116u8, 105u8, 108u8, 100u8, 101u8];
        assert(sg@ =~= suffix_g());
        assert(sh@ =~= suffix_h());
        assert(st@ =~= suffix_g_tilde());
        let lg = with_suffix(label, sg.as_slice());
        let lh = with_suffix(label, sh.as_slice());
        let lt = with_suffix(label, st.as_slice());
        Params {
            g: SignatureGroup::from_msg_hash(lg.as_slice()),
            h: SignatureGroup::from_msg_hash(lh.as_slice()),
            g_tilde: VerkeyGroup::from_msg_hash(lt.as_slice()),
        }
    }

}

impl Clone for Params {
    fn clone(&self) -> (r: Params)
        ensures
            r.g@ == self.g@,
            r.h@ == self.h@,
            r.g_tilde@ == self.g_tilde@,
    {
        Params { g: self.g.clone(), h: self.h.clone(), g_tilde: self.g_tilde.clone() }
    }
}

impl Verkey {
    /// The encodings of the per-attribute keys.
    pub open spec fn y_views(self) -> Seq<Seq<u8>> {
        verkey_views(self.Y_tilde@)
    }

}

impl Clone for Verkey {
    fn clone(&self) -> (r: Verkey)
        ensures
            r.X_tilde@ == self.X_tilde@,
            r.y_views() == self.y_views(),
    {
        let mut ys: Vec<VerkeyGroup> = Vec::new();
        let mut i: usize = 0;
        while i < self.Y_tilde.len()
            invariant
                i <= self.Y_tilde@.len(),
                ys@.len() == i,
                forall|k: int| 0 <= k < i ==> (#[trigger] ys@[k])@ == self.Y_tilde@[k]@,
            decreases self.Y_tilde@.len() - i,
        {
            ys.push(self.Y_tilde[i].clone());
            i += 1;
        }
        assert(verkey_views(ys@) =~= verkey_views(self.Y_tilde@));
        Verkey { X_tilde: self.X_tilde.clone(), Y_tilde: ys }
    }
}

impl Signature {
    /// The bytes that stand for the signature in a transcript: `sigma_1`,
    /// then `sigma_2`, each compressed.
    pub open spec fn spec_bytes(self) -> Seq<u8> {
        sig_group_compressed(self.sigma_1@) + sig_group_compressed(self.sigma_2@)
    }

    /// The transcript bytes of the signature.
    pub fn to_bytes(&self) -> (r: Vec<u8>)
        ensures
            r@ == self.spec_bytes(),
    {
        let mut bytes = self.sigma_1.to_compressed();
        let mut second = self.sigma_2.to_compressed();
        bytes.append(&mut second);
        bytes
    }

    /// Whether `sigma_1` is the identity; such a signature is never valid.
    pub fn is_identity(&self) -> (r: bool)
        ensures
            r == sig_group_is_identity(self.sigma_1@),
    {
        self.sigma_1.is_identity()
    }

    /// Whether the signature is valid on `messages` under `vk`: `sigma_1` is
    /// not the identity and
    /// `e(sigma_1, X_tilde + sum of Y_tilde[k] * m_k) * e(-sigma_2, g_tilde) = 1`.
    pub open spec fn valid_on(self, messages: Seq<Seq<u8>>, vk: Verkey, params: Params) -> bool {
        &&& !sig_group_is_identity(self.sigma_1@)
        &&& pairing_product_is_one(
            self.sigma_1@,
            verkey_group_add(vk.X_tilde@, verkey_group_msm_var_time(vk.y_views(), messages)),
            sig_group_neg(self.sigma_2@),
            params.g_tilde@,
        )
    }

    /// Verifies the signature on `messages` under `vk`. Fails where the key
    /// was made for another number of attributes.
    pub fn verify(&self, messages: &[FieldElement], vk: &Verkey, params: &Params) -> (r: Result<bool, CredentialError>)
        ensures
            messages@.len() == vk.Y_tilde@.len() ==> r == Ok::<bool, CredentialError>(
                self.valid_on(field_views(messages@), *vk, *params),
            ),
            messages@.len() != vk.Y_tilde@.len() ==> r == Err::<bool, CredentialError>(
                CredentialError::UnsupportedNoOfMessages {
                    expected: vk.Y_tilde@.len() as usize,
                    given: messages@.len() as usize,
                },
            ),
    {
        match Self::check_verkey_and_messages_compat(messages, vk) {
            Err(e) => {
                return Err(e);
            },
            Ok(_) => {},
        }
        if self.is_identity() {
            return Ok(false);
        }
        let y_m = multi_scalar_mul_var_time(vk.Y_tilde.as_slice(), messages);
        let res = ate_2_pairing_is_one(
            &self.sigma_1,
            &vk.X_tilde.plus(&y_m),
            &self.sigma_2.negation(),
            &params.g_tilde,
        );
        Ok(res)
    }

    /// Whether a key made for `vk.Y_tilde.len()` attributes can serve
    /// `messages`: the two counts must agree.
    pub fn check_verkey_and_messages_compat(messages: &[FieldElement], vk: &Verkey) -> (r: Result<(), CredentialError>)
        ensures
            messages@.len() == vk.Y_tilde@.len() ==> r == Ok::<(), CredentialError>(()),
            messages@.len() != vk.Y_tilde@.len() ==> r == Err::<(), CredentialError>(
                CredentialError::UnsupportedNoOfMessages {
                    expected: vk.Y_tilde@.len() as usize,
                    given: messages@.len() as usize,
                },
            ),
    {
        if messages.len() != vk.Y_tilde.len() {
            return Err(CredentialError::UnsupportedNoOfMessages {
                expected: vk.Y_tilde.len(),
                given: messages.len(),
            });
        }
        Ok(())
    }
}

impl Clone for Signature {
    fn clone(&self) -> (r: Signature)
        ensures
            r.sigma_1@ == self.sigma_1@,
            r.sigma_2@ == self.sigma_2@,
    {
        Signature { sigma_1: self.sigma_1.clone(), sigma_2: self.sigma_2.clone() }
    }
}

} // verus!
