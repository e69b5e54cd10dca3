//! Elements of the scalar field of the pairing groups.
//!
//! A field element is held as an encoding of 48 bytes, most significant
//! byte first. The arithmetic itself is done by `amcl_wrapper`, which
//! reduces what it reads modulo the order of the field and gives the
//! canonical encoding back. Sum and product are stated here as numbers;
//! the hash into the field is only named.

use vstd::prelude::*;

verus! {

/// Length in bytes of an encoded field element.
pub const FIELD_ELEMENT_SIZE: usize = 48;

/// The encoding of the field element that hashing the message `msg` yields.
pub uninterp spec fn field_hash(msg: Seq<u8>) -> Seq<u8>;

/// The order of the scalar field, which is the order of the pairing groups.
pub open spec fn field_order() -> nat {
    0x73eda753299d7d483339d80809a1d80553bda402fffe5bfeffffffff00000001nat
}

/// The number that `bytes` write, most significant byte first.
pub open spec fn be_value(bytes: Seq<u8>) -> nat
    decreases bytes.len(),
{
    if bytes.len() == 0 {
        0
    } else {
        be_value(bytes.drop_last()) * 256 + bytes.last() as nat
    }
}

/// The `len` bytes that write `n`, most significant byte first; of a number
/// that needs more bytes, the lowest `len`.
pub open spec fn be_encoding(n: nat, len: nat) -> Seq<u8>
    decreases len,
{
    if len == 0 {
        Seq::empty()
    } else {
        be_encoding(n / 256, (len - 1) as nat).push((n % 256) as u8)
    }
}

/// The field element that `bytes` encode: the number they write, reduced
/// modulo the order of the field.
pub open spec fn field_value(bytes: Seq<u8>) -> nat {
    be_value(bytes) % field_order()
}

/// The canonical encoding of the field element `n` modulo the order.
pub open spec fn field_encoding(n: nat) -> Seq<u8> {
    be_encoding(n % field_order(), FIELD_ELEMENT_SIZE as nat)
}

/// Whether `bytes` are the canonical encoding of a field element other than
/// zero.
pub open spec fn is_nonzero_element(bytes: Seq<u8>) -> bool {
    0 < be_value(bytes) < field_order()
}

/// The encoding of the sum of the field elements encoded by `a` and `b`.
pub open spec fn field_add(a: Seq<u8>, b: Seq<u8>) -> Seq<u8> {
    field_encoding(field_value(a) + field_value(b))
}

/// The encoding of the product of the field elements encoded by `a` and `b`.
pub open spec fn field_mul(a: Seq<u8>, b: Seq<u8>) -> Seq<u8> {
    field_encoding(field_value(a) * field_value(b))
}

/// An element of the scalar field, held as its 48-byte big-endian encoding.
#[derive(Debug, PartialEq, Eq)]
pub struct FieldElement {
    bytes: Vec<u8>,
}

impl View for FieldElement {
    type V = Seq<u8>;

    closed spec fn view(&self) -> Seq<u8> {
        self.bytes@
    }
}

impl Clone for FieldElement {
    fn clone(&self) -> (r: FieldElement)
        ensures
            r@ == self@,
    {
        proof {
            use_type_invariant(self);
        }
        FieldElement { bytes: self.bytes.clone() }
    }
}

impl FieldElement {
    #[verifier::type_invariant]
    spec fn well_formed(self) -> bool {
        self.bytes@.len() == FIELD_ELEMENT_SIZE
    }

    /// Takes an encoding of the right length; `None` for any other length.
    pub fn from_bytes(bytes: Vec<u8>) -> (r: Option<FieldElement>)
        ensures
            r is Some <==> bytes@.len() == FIELD_ELEMENT_SIZE,
            r is Some ==> r->0@ == bytes@,
    {
        if bytes.len() == FIELD_ELEMENT_SIZE {
            Some(FieldElement { bytes })
        } else {
            None
        }
    }

    /// The encoding: 48 bytes, most significant first.
    pub fn to_bytes(&self) -> (r: Vec<u8>)
        ensures
            r@ == self@,
            r@.len() == FIELD_ELEMENT_SIZE,
    {
        proof {
            use_type_invariant(self);
        }
        self.bytes.clone()
    }

    /// The encoding of zero.
    pub open spec fn zero_bytes() -> Seq<u8> {
        Seq::new(FIELD_ELEMENT_SIZE as nat, |i: int| 0u8)
    }

    /// The zero of the field.
    pub fn zero() -> (r: FieldElement)
        ensures
            r@ == Self::zero_bytes(),
    {
        let mut bytes: Vec<u8> = Vec::new();
        let mut i: usize = 0;
        while i < FIELD_ELEMENT_SIZE
            invariant
                i <= FIELD_ELEMENT_SIZE,
                bytes@ == Seq::new(i as nat, |j: int| 0u8),
            decreases FIELD_ELEMENT_SIZE - i,
        {
            bytes.push(0u8);
            i += 1;
            assert(bytes@ =~= Seq::new(i as nat, |j: int| 0u8));
        }
        assert(bytes@ =~= Self::zero_bytes());
        FieldElement { bytes }
    }

    /// Calls `FieldElement::random` of `amcl_wrapper`, which draws from the
    /// thread's random number generator until it has an element other than
    /// zero. Of the value drawn this alone is claimed: it is not zero, and
    /// it comes in its canonical encoding.
    #[verifier::external_body]
    pub(crate) fn random() -> (r: FieldElement)
        ensures
            is_nonzero_element(r@),
    {
        FieldElement { bytes: amcl_wrapper::field_elem::FieldElement::random().to_bytes() }
    }

    /// Calls `FieldElement::from_msg_hash` of `amcl_wrapper`, which hashes the
    /// message with SHAKE-256 and reduces the digest into the field. The
    /// result depends on the message alone and is named `field_hash`.
    #[verifier::external_body]
    pub(crate) fn from_msg_hash(msg: &[u8]) -> (r: FieldElement)
        ensures
            r@ == field_hash(msg@),
    {
        FieldElement { bytes: amcl_wrapper::field_elem::FieldElement::from_msg_hash(msg).to_bytes() }
    }

    /// Calls `FieldElement::plus` of `amcl_wrapper`: the sum modulo the order
    /// of the field, in its canonical encoding. Both operands are reduced
    /// as they are read.
    #[verifier::external_body]
    pub(crate) fn plus(&self, other: &FieldElement) -> (r: FieldElement)
        ensures
            r@ == field_add(self@, other@),
    {
        let a = amcl_wrapper::field_elem::FieldElement::from_bytes(&self.bytes).unwrap();
        let b = amcl_wrapper::field_elem::FieldElement::from_bytes(&other.bytes).unwrap();
        FieldElement { bytes: a.plus(&b).to_bytes() }
    }

    /// Calls `FieldElement::multiply` of `amcl_wrapper`: the product modulo
    /// the order of the field, in its canonical encoding. Both operands are
    /// reduced as they are read.
    #[verifier::external_body]
    pub(crate) fn multiply(&self, other: &FieldElement) -> (r: FieldElement)
        ensures
            r@ == field_mul(self@, other@),
    {
        let a = amcl_wrapper::field_elem::FieldElement::from_bytes(&self.bytes).unwrap();
        let b = amcl_wrapper::field_elem::FieldElement::from_bytes(&other.bytes).unwrap();
        FieldElement { bytes: a.multiply(&b).to_bytes() }
    }
}

} // verus!
