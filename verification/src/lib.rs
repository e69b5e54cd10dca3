//! Threshold anonymous credentials over a pairing.
//!
//! A credential is a randomizable signature on a vector of attributes. Its
//! holder proves to a relying party that it has one, reveals the attributes
//! it chooses, and shows a pseudonym that is the same at every visit to one
//! party and cannot be linked between parties.
//!
//! The library holds the proof of knowledge of a credential and what it
//! stands on: the proof of knowledge of exponents, the public parameters,
//! and the rules by which the roles decide. Scalars and group elements are
//! held as their encodings; `amcl_wrapper` does the arithmetic, and the
//! contracts name its results. Issuing the shares of a credential and
//! combining them is the work of a separate issuing crate; of that protocol
//! the library decides only which shares are combined.

pub mod errors;
pub mod field;
pub mod group;
pub mod keys;
pub mod pok_vc;
pub mod disclosure;
pub mod js;
pub mod js_pok_sig;
pub mod rp;
pub mod client;
pub mod shares;
pub mod js_signature;
pub mod d_idp;
