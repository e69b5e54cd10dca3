//! The parameters that every participant shares.

use vstd::prelude::*;
use crate::group::{SignatureGroup, sig_group_hash};
use crate::keys::{Params, suffix_g, suffix_h};

verus! {

/// The public parameters of one deployment: the generators, all derived from
/// a label, the number of attributes in a credential, the number of signers
/// and how many of them must sign.
#[derive(Debug, PartialEq, Eq)]
pub struct Public {
    pub g: SignatureGroup,
    pub h: SignatureGroup,
    pub cparams: Params,
    pub msg_count: usize,
    pub server_count: usize,
    pub threshold: usize,
}

impl Public {
    /// What `new` makes of its four arguments.
    pub open spec fn derived_from(self, msg_count: usize, label: Seq<u8>, threshold: usize, server_count: usize) -> bool {
        &&& self.g@ == sig_group_hash(label + suffix_g())
        &&& self.h@ == sig_group_hash(label + suffix_h())
        &&& self.cparams.derived_from(label)
        &&& self.msg_count == msg_count
        &&& self.server_count == server_count
        &&& self.threshold == threshold
    }

    /// Whether two sets of parameters agree in every generator and count.
    pub open spec fn same_as(self, other: Public) -> bool {
        &&& self.g@ == other.g@
        &&& self.h@ == other.h@
        &&& self.cparams.g@ == other.cparams.g@
        &&& self.cparams.h@ == other.cparams.h@
        &&& self.cparams.g_tilde@ == other.cparams.g_tilde@
        &&& self.msg_count == other.msg_count
        &&& self.server_count == other.server_count
        &&& self.threshold == other.threshold
    }

    /// Derives every generator from the label alone and records the counts.
    pub fn new(msg_count: usize, label: &[u8], threshold: usize, server_count: usize) -> (r: Self)
        ensures
            r.derived_from(msg_count, label@, threshold, server_count),
    {
        let cparams = Params::new(label);
        Public {
            g: cparams.g.clone(),
            h: cparams.h.clone(),
            cparams,
            server_count,
            msg_count,
            threshold,
        }
    }

    /// Parameters made from equal arguments are equal, generator by
    /// generator and count by count.
    pub proof fn lemma_new_is_deterministic(
        a: Public,
        b: Public,
        msg_count: usize,
        label: Seq<u8>,
        threshold: usize,
        server_count: usize,
    )
        requires
            a.derived_from(msg_count, label, threshold, server_count),
            b.derived_from(msg_count, label, threshold, server_count),
        ensures
            a.same_as(b),
    {
    }
}

impl Clone for Public {
    fn clone(&self) -> (r: Public)
        ensures
            r.same_as(*self),
    {
        Public {
            g: self.g.clone(),
            h: self.h.clone(),
            cparams: self.cparams.clone(),
            msg_count: self.msg_count,
            server_count: self.server_count,
            threshold: self.threshold,
        }
    }
}

} // verus!
