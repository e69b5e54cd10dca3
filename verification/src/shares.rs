//! Counting signers and shares: what must hold before shares are combined.

use vstd::prelude::*;
use crate::errors::CredentialError;

verus! {

/// Whether `threshold` of `total` signers is a threshold that can be met:
/// at least one signer, at most all of them.
pub open spec fn threshold_valid(threshold: usize, total: usize) -> bool {
    1 <= threshold <= total
}

/// Whether no id stands twice among `ids`.
pub open spec fn ids_distinct(ids: Seq<usize>) -> bool {
    forall|i: int, j: int| 0 <= i < j < ids.len() ==> ids[i] != ids[j]
}

/// Whether `id` stands at two places of `ids`.
pub open spec fn occurs_twice(ids: Seq<usize>, id: usize) -> bool {
    exists|i: int, j: int| 0 <= i < j < ids.len() && ids[i] == id && ids[j] == id
}

/// Whether the shares with these signer ids, in the order given, suffice:
/// there are at least `threshold` of them, and the first `threshold`, which
/// are the ones combined, come from different signers.
pub open spec fn shares_suffice(threshold: usize, ids: Seq<usize>) -> bool {
    &&& ids.len() >= threshold
    &&& ids_distinct(ids.take(threshold as int))
}

/// Refuses a threshold of zero and one that exceeds the number of signers.
pub fn check_threshold(threshold: usize, total: usize) -> (r: Result<(), CredentialError>)
    ensures
        threshold_valid(threshold, total) ==> r is Ok,
        !threshold_valid(threshold, total) ==> r == Err::<(), CredentialError>(
            CredentialError::BadThreshold { threshold, total },
        ),
{
    if threshold < 1 || threshold > total {
        return Err(CredentialError::BadThreshold { threshold, total });
    }
    Ok(())
}

/// Decides whether the shares with these signer ids can be combined. Too
/// few shares are reported first; else one id that two of the first
/// `threshold` shares have in common.
pub fn check_share_ids(threshold: usize, ids: &[usize]) -> (r: Result<(), CredentialError>)
    ensures
        r is Ok <==> shares_suffice(threshold, ids@),
        ids@.len() < threshold ==> r == Err::<(), CredentialError>(
            CredentialError::NotEnoughShares { threshold, given: ids@.len() as usize },
        ),
        ids@.len() >= threshold && r is Err ==> (r->Err_0 matches CredentialError::DuplicateSigner { id }
            && occurs_twice(ids@.take(threshold as int), id)),
{
    if ids.len() < threshold {
        return Err(CredentialError::NotEnoughShares { threshold, given: ids.len() });
    }
    let ghost chosen = ids@.take(threshold as int);
    let mut j: usize = 0;
    while j < threshold
        invariant
            j <= threshold <= ids@.len(),
            chosen == ids@.take(threshold as int),
            forall|a: int, b: int| 0 <= a < b < j ==> chosen[a] != chosen[b],
        decreases threshold - j,
    {
        let mut i: usize = 0;
        while i < j
            invariant
                i <= j < threshold <= ids@.len(),
                chosen == ids@.take(threshold as int),
                forall|a: int| 0 <= a < i ==> chosen[a] != chosen[j as int],
            decreases j - i,
        {
            if ids[i] == ids[j] {
                assert(chosen[i as int] == ids@[i as int] && chosen[j as int] == ids@[j as int]);
                assert(occurs_twice(chosen, ids@[i as int]));
                return Err(CredentialError::DuplicateSigner { id: ids[i] });
            }
            i += 1;
        }
        j += 1;
    }
    Ok(())
}

} // verus!
