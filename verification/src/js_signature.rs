//! The attributes of a credential.
//!
//! The attributes of a credential are strings, hashed into the field. An
//! attribute is either hidden from the signers or visible to them. In the
//! vector that is signed the hidden attributes come first, so that the
//! first attribute of all, the holder's secret, is always hidden.

use vstd::prelude::*;
use vstd::utf8::encode_utf8;
use crate::field::{FieldElement, field_hash};
use crate::group::field_views;

verus! {

/// Each string hashed into the field.
pub open spec fn hashed(strings: Seq<String>) -> Seq<Seq<u8>> {
    Seq::new(strings.len(), |i: int| field_hash(encode_utf8(strings[i]@)))
}

/// Hashes each string into the field.
fn hash_all(strings: &Vec<String>) -> (r: Vec<FieldElement>)
    ensures
        field_views(r@) == hashed(strings@),
{
    let mut out: Vec<FieldElement> = Vec::new();
    let mut i: usize = 0;
    while i < strings.len()
        invariant
            i <= strings@.len(),
            out@.len() == i,
            forall|k: int| 0 <= k < i ==> (#[trigger] out@[k])@ == field_hash(encode_utf8(strings@[k]@)),
        decreases strings@.len() - i,
    {
        out.push(FieldElement::from_msg_hash(strings[i].as_str().as_bytes()));
        i += 1;
    }
    assert(field_views(out@) =~= hashed(strings@));
    out
}

/// The attributes of one credential.
#[derive(Debug)]
pub struct JSMessages {
    /// The attributes that the signers see.
    pub visible: Vec<String>,
    /// The attributes that the signers do not see.
    pub hidden: Vec<String>,
    /// The hidden attributes, hashed.
    pub hashed_hidden: Vec<FieldElement>,
    /// All attributes, hashed: the hidden ones, then the visible ones.
    pub all: Vec<FieldElement>,
}

impl JSMessages {
    /// Takes the visible attributes first and the hidden ones second, and
    /// lays them out for signing with the hidden ones first.
    pub fn new(visible: Vec<String>, hidden: Vec<String>) -> (r: Self)
        ensures
            r.visible == visible,
            r.hidden == hidden,
            field_views(r.hashed_hidden@) == hashed(hidden@),
            field_views(r.all@) == hashed(hidden@) + hashed(visible@),
    {
        let hashed_hidden = hash_all(&hidden);
        let mut all = hash_all(&hidden);
        let mut hashed_visible = hash_all(&visible);
        let ghost left = field_views(all@);
        let ghost right = field_views(hashed_visible@);
        all.append(&mut hashed_visible);
        assert(field_views(all@) =~= left + right);
        JSMessages { visible, hidden, hashed_hidden, all }
    }
}

impl Clone for JSMessages {
    fn clone(&self) -> (r: JSMessages)
        ensures
            r.visible@ == self.visible@,
            r.hidden@ == self.hidden@,
            field_views(r.hashed_hidden@) == field_views(self.hashed_hidden@),
            field_views(r.all@) == field_views(self.all@),
    {
        JSMessages {
            visible: self.visible.clone(),
            hidden: self.hidden.clone(),
            hashed_hidden: clone_fields(&self.hashed_hidden),
            all: clone_fields(&self.all),
        }
    }
}

/// A copy of a vector of field elements.
pub fn clone_fields(v: &Vec<FieldElement>) -> (r: Vec<FieldElement>)
    ensures
        field_views(r@) == field_views(v@),
{
    let mut out: Vec<FieldElement> = Vec::new();
    let mut i: usize = 0;
    while i < v.len()
        invariant
            i <= v@.len(),
            out@.len() == i,
            forall|k: int| 0 <= k < i ==> (#[trigger] out@[k])@ == v@[k]@,
        decreases v@.len() - i,
    {
        out.push(v[i].clone());
        i += 1;
    }
    assert(field_views(out@) =~= field_views(v@));
    out
}

} // verus!
