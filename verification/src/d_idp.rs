//! One of the distributed identity providers: a signer that holds a share
//! of the signing key.

use vstd::prelude::*;
use crate::field::FieldElement;
use crate::js::Public;
use crate::keys::Verkey;

verus! {

/// A share of the signing key: `x`, and one `y` per attribute.
#[derive(Debug)]
pub struct Sigkey {
    pub x: FieldElement,
    pub y: Vec<FieldElement>,
}

/// What the trusted party hands to one signer: the signer's id, counted
/// from one, its share of the signing key and the matching share of the
/// verification key.
#[derive(Debug)]
pub struct Signer {
    pub id: usize,
    pub sigkey: Sigkey,
    pub verkey: Verkey,
}

/// A signer together with the public parameters it signs under.
#[derive(Debug)]
pub struct DistributedIdP {
    id: usize,
    keys: Signer,
    public: Public,
}

impl DistributedIdP {
    /// The signer's id.
    pub closed spec fn spec_id(self) -> usize {
        self.id
    }

    /// The signer's keys.
    pub closed spec fn spec_keys(self) -> Signer {
        self.keys
    }

    /// The parameters that the signer signs under.
    pub closed spec fn spec_public(self) -> Public {
        self.public
    }

    /// A signer with the id that its keys carry.
    pub fn new(keys: Signer, public: Public) -> (r: Self)
        ensures
            r.spec_id() == keys.id,
            r.spec_keys() == keys,
            r.spec_public() == public,
    {
        DistributedIdP { id: keys.id, keys, public }
    }

    /// The signer's keys.
    pub fn keys(&self) -> (r: &Signer)
        ensures
            *r == self.spec_keys(),
    {
        &self.keys
    }

    /// The parameters that the signer signs under.
    pub fn public(&self) -> (r: &Public)
        ensures
            *r == self.spec_public(),
    {
        &self.public
    }

    /// The signer's id and its share of the verification key.
    pub fn get_id_vk(&self) -> (r: (usize, Verkey))
        ensures
            r.0 == self.spec_id(),
            r.1.X_tilde@ == self.spec_keys().verkey.X_tilde@,
            r.1.y_views() == self.spec_keys().verkey.y_views(),
    {
        (self.id, self.keys.verkey.clone())
    }
}

} // verus!
