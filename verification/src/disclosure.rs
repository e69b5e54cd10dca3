//! Which attributes a proof reveals and which it hides.
//!
//! The attributes of a credential are numbered from zero. A proof names the
//! set of numbers it reveals; everything here is stated over that set.

use vstd::prelude::*;
use std::collections::{HashMap, HashSet};
use vstd::std_specs::hash::{group_hash_axioms, spec_hash_keys_iter, spec_keys_iter};
use vstd::std_specs::iter::IteratorSpec;
use crate::field::FieldElement;
use crate::group::{VerkeyGroup, verkey_views, field_views};

verus! {

/// The items whose position is not in `revealed`, in ascending position.
pub open spec fn hidden_of<T>(items: Seq<T>, revealed: Set<usize>) -> Seq<T>
    decreases items.len(),
{
    if items.len() == 0 {
        Seq::empty()
    } else if revealed.contains((items.len() - 1) as usize) {
        hidden_of(items.drop_last(), revealed)
    } else {
        hidden_of(items.drop_last(), revealed).push(items.last())
    }
}

/// The items whose position is in `revealed`, in ascending position.
pub open spec fn revealed_of<T>(items: Seq<T>, revealed: Set<usize>) -> Seq<T>
    decreases items.len(),
{
    if items.len() == 0 {
        Seq::empty()
    } else if revealed.contains((items.len() - 1) as usize) {
        revealed_of(items.drop_last(), revealed).push(items.last())
    } else {
        revealed_of(items.drop_last(), revealed)
    }
}

/// The values that `revealed` gives for the positions below `len`, in
/// ascending position.
pub open spec fn revealed_values(revealed: Map<usize, FieldElement>, len: nat) -> Seq<Seq<u8>>
    decreases len,
{
    if len == 0 {
        Seq::empty()
    } else if revealed.dom().contains((len - 1) as usize) {
        revealed_values(revealed, (len - 1) as nat).push(revealed[(len - 1) as usize]@)
    } else {
        revealed_values(revealed, (len - 1) as nat)
    }
}

/// Whether every member of `indices` names one of `bound` attributes.
pub open spec fn all_in_range(indices: Set<usize>, bound: nat) -> bool {
    forall|i: usize| indices.contains(i) ==> i < bound
}

/// Hidden and revealed items together are all the items.
pub proof fn lemma_hidden_and_revealed_partition<T>(items: Seq<T>, revealed: Set<usize>)
    ensures
        hidden_of(items, revealed).len() + revealed_of(items, revealed).len() == items.len(),
    decreases items.len(),
{
    if items.len() > 0 {
        lemma_hidden_and_revealed_partition(items.drop_last(), revealed);
    }
}

/// How many items are hidden depends on their number alone, not on what
/// they are.
pub proof fn lemma_hidden_count<T, U>(a: Seq<T>, b: Seq<U>, revealed: Set<usize>)
    requires
        a.len() == b.len(),
    ensures
        hidden_of(a, revealed).len() == hidden_of(b, revealed).len(),
        revealed_of(a, revealed).len() == revealed_of(b, revealed).len(),
    decreases a.len(),
{
    if a.len() > 0 {
        lemma_hidden_count(a.drop_last(), b.drop_last(), revealed);
    }
}

/// The members of `revealed` that are below `bound`.
pub open spec fn below(revealed: Set<usize>, bound: nat) -> Set<usize> {
    revealed.filter(|i: usize| i < bound)
}

/// As many items are revealed as `revealed` has members that name one.
pub proof fn lemma_revealed_count<T>(items: Seq<T>, revealed: Set<usize>)
    requires
        revealed.finite(),
        items.len() <= usize::MAX,
    ensures
        revealed_of(items, revealed).len() == below(revealed, items.len()).len(),
    decreases items.len(),
{
    if items.len() == 0 {
        assert(below(revealed, 0) =~= Set::<usize>::empty());
    } else {
        let last = (items.len() - 1) as usize;
        let fewer = below(revealed, (items.len() - 1) as nat);
        lemma_revealed_count(items.drop_last(), revealed);
        if revealed.contains(last) {
            assert(below(revealed, items.len()) =~= fewer.insert(last));
        } else {
            assert(below(revealed, items.len()) =~= fewer);
        }
    }
}

/// Where every member of `revealed` names an item, the hidden items are all
/// the items less as many as `revealed` has members.
pub proof fn lemma_hidden_is_total_less_revealed<T>(items: Seq<T>, revealed: Set<usize>)
    requires
        revealed.finite(),
        items.len() <= usize::MAX,
        all_in_range(revealed, items.len()),
    ensures
        hidden_of(items, revealed).len() == items.len() - revealed.len(),
        revealed.len() <= items.len(),
{
    lemma_hidden_and_revealed_partition(items, revealed);
    lemma_revealed_count(items, revealed);
    assert(below(revealed, items.len()) =~= revealed);
}

/// One member of `revealed` that is not below `bound`, if there is any.
pub fn find_bad_index(revealed: &HashSet<usize>, bound: usize) -> (r: Option<usize>)
    ensures
        r is None <==> all_in_range(revealed@, bound as nat),
        r matches Some(i) ==> revealed@.contains(i) && i >= bound,
{
    broadcast use group_hash_axioms;

    let ghost keys: Seq<usize> = spec_hash_keys_iter(revealed).remaining().unref();
    assert(keys.to_set() == revealed@);
    let mut bad: Option<usize> = None;
    for idx in it: revealed.iter()
        invariant
            it.seq().unref() == keys,
            bad is None ==> (forall|j: int| 0 <= j < it.index@ ==> (#[trigger] keys[j]) < bound),
            bad matches Some(i) ==> keys.contains(i) && i >= bound,
    {
        assert(*idx == keys[it.index@]);
        if *idx >= bound {
            bad = Some(*idx);
        }
    }
    proof {
        if bad is None {
            assert forall|i: usize| revealed@.contains(i) implies i < bound by {
                assert(keys.to_set().contains(i));
                assert(keys.contains(i));
                let j = choose|j: int| 0 <= j < keys.len() && keys[j] == i;
                assert(keys[j] == i);
            }
        } else {
            assert(keys.to_set().contains(bad->0));
        }
    }
    bad
}

/// One key of `revealed` that is not below `bound`, if there is any.
pub fn find_bad_key(revealed: &HashMap<usize, FieldElement>, bound: usize) -> (r: Option<usize>)
    ensures
        r is None <==> all_in_range(revealed@.dom(), bound as nat),
        r matches Some(i) ==> revealed@.dom().contains(i) && i >= bound,
{
    broadcast use group_hash_axioms;

    let ghost keys: Seq<usize> = spec_keys_iter(revealed).remaining().unref();
    assert(keys.to_set() == revealed@.dom());
    let mut bad: Option<usize> = None;
    for idx in it: revealed.keys()
        invariant
            it.seq().unref() == keys,
            bad is None ==> (forall|j: int| 0 <= j < it.index@ ==> (#[trigger] keys[j]) < bound),
            bad matches Some(i) ==> keys.contains(i) && i >= bound,
    {
        assert(*idx == keys[it.index@]);
        if *idx >= bound {
            bad = Some(*idx);
        }
    }
    proof {
        if bad is None {
            assert forall|i: usize| revealed@.dom().contains(i) implies i < bound by {
                assert(keys.to_set().contains(i));
                assert(keys.contains(i));
                let j = choose|j: int| 0 <= j < keys.len() && keys[j] == i;
                assert(keys[j] == i);
            }
        } else {
            assert(keys.to_set().contains(bad->0));
        }
    }
    bad
}

/// How many of `len` attributes `revealed` leaves hidden.
pub fn count_hidden(len: usize, revealed: &HashSet<usize>) -> (r: usize)
    ensures
        r == hidden_of(Seq::new(len as nat, |i: int| i), revealed@).len(),
        r <= len,
        all_in_range(revealed@, len as nat) ==> r == len - revealed@.len(),
{
    broadcast use group_hash_axioms;

    let ghost all = Seq::new(len as nat, |i: int| i);
    proof {
        let keys: Seq<usize> = spec_hash_keys_iter(revealed).remaining().unref();
        assert(keys.to_set() == revealed@);
        vstd::seq_lib::seq_to_set_is_finite(keys);
        if all_in_range(revealed@, len as nat) {
            lemma_hidden_is_total_less_revealed(all, revealed@);
        }
    }
    let mut count: usize = 0;
    let mut i: usize = 0;
    while i < len
        invariant
            i <= len,
            count <= i,
            all == Seq::new(len as nat, |i: int| i),
            count == hidden_of(all.take(i as int), revealed@).len(),
        decreases len - i,
    {
        proof {
            assert(all.take(i + 1).drop_last() =~= all.take(i as int));
        }
        if !revealed.contains(&i) {
            count += 1;
        }
        i += 1;
    }
    assert(all.take(len as int) =~= all);
    count
}

/// `first`, then the members of `ys` that `revealed` leaves hidden.
pub fn hidden_bases(first: &VerkeyGroup, ys: &[VerkeyGroup], revealed: &HashSet<usize>) -> (r: Vec<VerkeyGroup>)
    ensures
        verkey_views(r@) == seq![first@] + hidden_of(verkey_views(ys@), revealed@),
{
    broadcast use group_hash_axioms;

    let mut bases: Vec<VerkeyGroup> = Vec::new();
    bases.push(first.clone());
    assert(verkey_views(bases@) =~= seq![first@] + hidden_of(verkey_views(ys@.take(0)), revealed@));
    let mut i: usize = 0;
    while i < ys.len()
        invariant
            i <= ys@.len(),
            verkey_views(bases@) == seq![first@] + hidden_of(verkey_views(ys@.take(i as int)), revealed@),
        decreases ys@.len() - i,
    {
        proof {
            let next = verkey_views(ys@.take(i + 1));
            assert(next.drop_last() =~= verkey_views(ys@.take(i as int)));
            assert(next.last() == ys@[i as int]@);
        }
        if !revealed.contains(&i) {
            let ghost before = verkey_views(bases@);
            bases.push(ys[i].clone());
            assert(verkey_views(bases@) =~= before.push(ys@[i as int]@));
            assert(verkey_views(bases@) =~= seq![first@] + hidden_of(verkey_views(ys@.take(i + 1)), revealed@));
        }
        i += 1;
    }
    assert(ys@.take(ys@.len() as int) =~= ys@);
    bases
}

/// `first`, then the members of `messages` that `revealed` leaves hidden.
pub fn hidden_exponents(first: FieldElement, messages: &[FieldElement], revealed: &HashSet<usize>) -> (r: Vec<FieldElement>)
    ensures
        field_views(r@) == seq![first@] + hidden_of(field_views(messages@), revealed@),
{
    broadcast use group_hash_axioms;

    let mut out: Vec<FieldElement> = Vec::new();
    let ghost head = first@;
    out.push(first);
    assert(field_views(out@) =~= seq![head] + hidden_of(field_views(messages@.take(0)), revealed@));
    let mut i: usize = 0;
    while i < messages.len()
        invariant
            i <= messages@.len(),
            field_views(out@) == seq![head] + hidden_of(field_views(messages@.take(i as int)), revealed@),
        decreases messages@.len() - i,
    {
        proof {
            let next = field_views(messages@.take(i + 1));
            assert(next.drop_last() =~= field_views(messages@.take(i as int)));
            assert(next.last() == messages@[i as int]@);
        }
        if !revealed.contains(&i) {
            let ghost before = field_views(out@);
            out.push(messages[i].clone());
            assert(field_views(out@) =~= before.push(messages@[i as int]@));
            assert(field_views(out@) =~= seq![head] + hidden_of(field_views(messages@.take(i + 1)), revealed@));
        }
        i += 1;
    }
    assert(messages@.take(messages@.len() as int) =~= messages@);
    out
}

/// `first`, then the members of `ys` at positions that are no key of
/// `revealed`.
pub fn hidden_bases_of_map(first: &VerkeyGroup, ys: &[VerkeyGroup], revealed: &HashMap<usize, FieldElement>) -> (r: Vec<VerkeyGroup>)
    ensures
        verkey_views(r@) == seq![first@] + hidden_of(verkey_views(ys@), revealed@.dom()),
{
    broadcast use group_hash_axioms;

    let mut bases: Vec<VerkeyGroup> = Vec::new();
    bases.push(first.clone());
    assert(verkey_views(bases@) =~= seq![first@] + hidden_of(verkey_views(ys@.take(0)), revealed@.dom()));
    let mut i: usize = 0;
    while i < ys.len()
        invariant
            i <= ys@.len(),
            verkey_views(bases@) == seq![first@] + hidden_of(
                verkey_views(ys@.take(i as int)),
                revealed@.dom(),
            ),
        decreases ys@.len() - i,
    {
        proof {
            let next = verkey_views(ys@.take(i + 1));
            assert(next.drop_last() =~= verkey_views(ys@.take(i as int)));
            assert(next.last() == ys@[i as int]@);
        }
        if !revealed.contains_key(&i) {
            let ghost before = verkey_views(bases@);
            bases.push(ys[i].clone());
            assert(verkey_views(bases@) =~= before.push(ys@[i as int]@));
            assert(verkey_views(bases@) =~= seq![first@] + hidden_of(
                verkey_views(ys@.take(i + 1)),
                revealed@.dom(),
            ));
        }
        i += 1;
    }
    assert(ys@.take(ys@.len() as int) =~= ys@);
    bases
}

/// The members of `ys` at the positions that are keys of `revealed`, and the
/// values that `revealed` gives for those positions, both in ascending
/// position.
pub fn revealed_pairs(ys: &[VerkeyGroup], revealed: &HashMap<usize, FieldElement>) -> (r: (Vec<VerkeyGroup>, Vec<FieldElement>))
    ensures
        verkey_views(r.0@) == revealed_of(verkey_views(ys@), revealed@.dom()),
        field_views(r.1@) == revealed_values(revealed@, ys@.len()),
        r.0@.len() == r.1@.len(),
{
    broadcast use group_hash_axioms;

    let mut bases: Vec<VerkeyGroup> = Vec::new();
    let mut values: Vec<FieldElement> = Vec::new();
    assert(verkey_views(bases@) =~= revealed_of(verkey_views(ys@.take(0)), revealed@.dom()));
    assert(field_views(values@) =~= revealed_values(revealed@, 0));
    let mut i: usize = 0;
    while i < ys.len()
        invariant
            i <= ys@.len(),
            bases@.len() == values@.len(),
            verkey_views(bases@) == revealed_of(verkey_views(ys@.take(i as int)), revealed@.dom()),
            field_views(values@) == revealed_values(revealed@, i as nat),
        decreases ys@.len() - i,
    {
        proof {
            let next = verkey_views(ys@.take(i + 1));
            assert(next.drop_last() =~= verkey_views(ys@.take(i as int)));
            assert(next.last() == ys@[i as int]@);
        }
        match revealed.get(&i) {
            Some(m) => {
                let ghost before = verkey_views(bases@);
                let ghost values_before = field_views(values@);
                bases.push(ys[i].clone());
                values.push(m.clone());
                assert(verkey_views(bases@) =~= before.push(ys@[i as int]@));
                assert(field_views(values@) =~= values_before.push(revealed@[i]@));
            },
            None => {},
        }
        i += 1;
    }
    assert(ys@.take(ys@.len() as int) =~= ys@);
    (bases, values)
}

} // verus!
