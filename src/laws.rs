//! Laws that relate the store's operations over a history of creations.
use vstd::prelude::*;

use crate::entity::Record;
use crate::store::{distinct_ids, has_id, lemma_lookup_finds, lookup};

verus! {

/// `states` is a history of a store that started empty and to which the
/// records of `created` were appended one at a time, in order: what each
/// creation's `final(store)@ == old(store)@.push(r)` gives.
pub open spec fn appended_in_order<T: Record>(states: Seq<Seq<T>>, created: Seq<T>) -> bool {
    &&& states.len() == created.len() + 1
    &&& states[0] == Seq::<T>::empty()
    &&& forall|k: int| 0 <= k < created.len() ==> #[trigger] states[k + 1] == states[k].push(created[k])
}

/// A get by the identifier of a record just created returns that record,
/// equal to what the creation returned.
pub proof fn law_get_after_create<T: Record>(before: Seq<T>, created: T)
    requires
        !has_id(before, created.key()),
    ensures
        lookup(before.push(created), created.key()) == Some(created),
{
    lemma_lookup_finds(before, created.key());
    assert(before.push(created).drop_last() =~= before);
}

/// In a store whose identifiers are distinct, a get by the identifier of
/// any stored record returns that record, however many were created after it.
pub proof fn law_get_stored<T: Record>(s: Seq<T>, i: int)
    requires
        distinct_ids(s),
        0 <= i < s.len(),
    ensures
        lookup(s, s[i].key()) == Some(s[i]),
{
    lemma_lookup_finds(s, s[i].key());
    if let Some(x) = lookup(s, s[i].key()) {
        let k = choose|k: int| 0 <= k < s.len() && s[k] == x;
        assert(s[k].key() == s[i].key());
    }
}

/// A get by an identifier that no stored record holds finds nothing.
pub proof fn law_get_unissued<T: Record>(s: Seq<T>, id: u128)
    requires
        !has_id(s, id),
    ensures
        lookup(s, id) is None,
{
    lemma_lookup_finds(s, id);
}

/// After N creations on an empty store, listing gives exactly the N
/// created records, in the order they were created.
pub proof fn law_list_after_creations<T: Record>(states: Seq<Seq<T>>, created: Seq<T>)
    requires
        appended_in_order(states, created),
    ensures
        states.last() == created,
        states.last().len() == created.len(),
{
    lemma_prefix_history(states, created, created.len() as int);
}

proof fn lemma_prefix_history<T: Record>(states: Seq<Seq<T>>, created: Seq<T>, k: int)
    requires
        appended_in_order(states, created),
        0 <= k <= created.len(),
    ensures
        states[k] == created.take(k),
    decreases k,
{
    if k == 0 {
        assert(created.take(0) =~= Seq::<T>::empty());
    } else {
        lemma_prefix_history(states, created, k - 1);
        assert(states[k] == states[k - 1].push(created[k - 1]));
        assert(created.take(k - 1).push(created[k - 1]) =~= created.take(k));
    }
    if k == created.len() {
        assert(created.take(k) =~= created);
    }
}

/// K creations on an empty store, each of which drew an identifier that
/// the store did not yet hold, leave exactly K records with pairwise
/// distinct identifiers.
pub proof fn law_creations_distinct<T: Record>(states: Seq<Seq<T>>, created: Seq<T>)
    requires
        appended_in_order(states, created),
        forall|k: int| 0 <= k < created.len() ==> !has_id(#[trigger] states[k], created[k].key()),
    ensures
        states.last().len() == created.len(),
        distinct_ids(states.last()),
{
    law_list_after_creations(states, created);
    assert forall|i: int, j: int|
        0 <= i < created.len() && 0 <= j < created.len() && i != j implies #[trigger] created[i].key()
        != #[trigger] created[j].key() by {
        let (a, b) = if i < j { (i, j) } else { (j, i) };
        lemma_prefix_history(states, created, b);
        assert(states[b][a] == created[a]);
        assert(!has_id(states[b], created[b].key()));
    }
}

} // verus!
