//! An append-only, insertion-ordered collection of records of one kind,
//! whose identifiers are pairwise distinct.
use vstd::prelude::*;
use vstd::set_lib::{lemma_int_range, lemma_len_subset, set_int_range};

use crate::entity::Record;

verus! {

/// Some record of `s` has the identifier `id`.
pub open spec fn has_id<T: Record>(s: Seq<T>, id: u128) -> bool {
    exists|i: int| 0 <= i < s.len() && #[trigger] s[i].key() == id
}

/// No two records of `s` share an identifier.
pub open spec fn distinct_ids<T: Record>(s: Seq<T>) -> bool {
    forall|i: int, j: int|
        0 <= i < s.len() && 0 <= j < s.len() && i != j ==> #[trigger] s[i].key() != #[trigger] s[j].key()
}

/// The first record of `s` whose identifier is `id`, if any.
pub open spec fn lookup<T: Record>(s: Seq<T>, id: u128) -> Option<T>
    decreases s.len(),
{
    if s.len() == 0 {
        None
    } else {
        let earlier = lookup(s.drop_last(), id);
        if earlier is Some {
            earlier
        } else if s.last().key() == id {
            Some(s.last())
        } else {
            None
        }
    }
}

/// `lookup` finds a record exactly when one has the identifier, and what
/// it finds is a record of `s` with that identifier.
pub proof fn lemma_lookup_finds<T: Record>(s: Seq<T>, id: u128)
    ensures
        lookup(s, id) is None <==> !has_id(s, id),
        lookup(s, id) matches Some(x) ==> x.key() == id && s.contains(x),
    decreases s.len(),
{
    if s.len() > 0 {
        let p = s.drop_last();
        lemma_lookup_finds(p, id);
        if has_id(p, id) {
            let i = choose|i: int| 0 <= i < p.len() && #[trigger] p[i].key() == id;
            assert(s[i].key() == id);
        }
        if has_id(s, id) && !has_id(p, id) {
            let i = choose|i: int| 0 <= i < s.len() && #[trigger] s[i].key() == id;
            if i < p.len() {
                assert(p[i].key() == id);
            }
        }
        if let Some(x) = lookup(p, id) {
            let k = choose|k: int| 0 <= k < p.len() && p[k] == x;
            assert(s[k] == x);
        }
        if lookup(s, id) == Some(s.last()) {
            assert(s[s.len() - 1] == s.last());
        }
    }
}

/// Once a prefix of `s` holds a record with the identifier, `lookup` on the
/// whole of `s` returns what it returns on that prefix.
proof fn lemma_lookup_prefix<T: Record>(s: Seq<T>, k: int, id: u128)
    requires
        0 <= k <= s.len(),
        lookup(s.take(k), id) is Some,
    ensures
        lookup(s, id) == lookup(s.take(k), id),
    decreases s.len() - k,
{
    if k == s.len() {
        assert(s.take(k) =~= s);
    } else {
        let p = s.drop_last();
        assert(p.take(k) =~= s.take(k));
        lemma_lookup_prefix(p, k, id);
    }
}

/// If every value below `c` is an identifier of `s` and `c` is one too,
/// then `s` holds more than `c` records.
proof fn lemma_dense_ids_bound<T: Record>(s: Seq<T>, c: u128)
    requires
        forall|v: u128| v < c ==> has_id(s, v),
        has_id(s, c),
    ensures
        (c as int) < s.len(),
{
    let keys = s.map_values(|x: T| x.key() as int);
    let range = set_int_range(0, c as int + 1);
    assert forall|v: int| range.contains(v) implies keys.to_set().contains(v) by {
        let u = v as u128;
        assert(has_id(s, u));
        let i = choose|i: int| 0 <= i < s.len() && #[trigger] s[i].key() == u;
        assert(keys[i] == v);
    }
    lemma_int_range(0, c as int + 1);
    keys.lemma_cardinality_of_set();
    lemma_len_subset(range, keys.to_set());
}

/// Records of one kind in the order they were appended.
pub struct RecordStore<T> {
    items: Vec<T>,
}

impl<T: Record> View for RecordStore<T> {
    type V = Seq<T>;

    closed spec fn view(&self) -> Seq<T> {
        self.items@
    }
}

impl<T: Record> RecordStore<T> {
    /// The store's invariant: identifiers are pairwise distinct.
    pub open spec fn wf(&self) -> bool {
        distinct_ids(self@)
    }

    /// An empty store.
    pub fn new() -> (r: RecordStore<T>)
        ensures
            r@ == Seq::<T>::empty(),
            r.wf(),
    {
        RecordStore { items: Vec::new() }
    }

    /// The number of records held.
    pub fn len(&self) -> (r: usize)
        ensures
            r == self@.len(),
    {
        self.items.len()
    }

    /// Whether some record has the identifier `id`.
    pub fn contains_id(&self, id: u128) -> (r: bool)
        ensures
            r == has_id(self@, id),
    {
        let mut i: usize = 0;
        while i < self.items.len()
            invariant
                0 <= i <= self@.len(),
                forall|j: int| 0 <= j < i ==> #[trigger] self@[j].key() != id,
            decreases self@.len() - i,
        {
            if self.items[i].id() == id {
                assert(self@[i as int].key() == id);
                return true;
            }
            i = i + 1;
        }
        false
    }

    /// The first record whose identifier is `id`, copied; `None` when no
    /// record has it.
    pub fn find_by_id(&self, id: u128) -> (r: Option<T>)
        ensures
            r == lookup(self@, id),
    {
        let mut i: usize = 0;
        while i < self.items.len()
            invariant
                0 <= i <= self@.len(),
                lookup(self@.take(i as int), id) is None,
            decreases self@.len() - i,
        {
            proof {
                assert(self@.take(i as int + 1).drop_last() =~= self@.take(i as int));
            }
            if self.items[i].id() == id {
                proof {
                    lemma_lookup_prefix(self@, i as int + 1, id);
                }
                return Some(self.items[i].copy_record());
            }
            i = i + 1;
        }
        proof {
            assert(self@.take(i as int) =~= self@);
        }
        None
    }

    /// Copies of all records, in the order they were appended.
    pub fn list_all(&self) -> (r: Vec<T>)
        ensures
            r@ == self@,
    {
        let mut out: Vec<T> = Vec::new();
        let mut i: usize = 0;
        while i < self.items.len()
            invariant
                0 <= i <= self@.len(),
                out@ == self@.take(i as int),
            decreases self@.len() - i,
        {
            out.push(self.items[i].copy_record());
            proof {
                assert(out@ =~= self@.take(i as int + 1));
            }
            i = i + 1;
        }
        proof {
            assert(self@.take(i as int) =~= self@);
        }
        out
    }

    /// An identifier that no record holds: `drawn` when it is free, and
    /// otherwise the smallest free value.
    pub fn fresh_id(&self, drawn: u128) -> (r: u128)
        ensures
            !has_id(self@, r),
            !has_id(self@, drawn) ==> r == drawn,
            has_id(self@, drawn) ==> forall|v: u128| v < r ==> has_id(self@, v),
    {
        if !self.contains_id(drawn) {
            return drawn;
        }
        let n = self.items.len();
        let mut c: u128 = 0;
        while self.contains_id(c)
            invariant
                n == self@.len(),
                c <= n,
                forall|v: u128| v < c ==> has_id(self@, v),
            decreases n - c,
        {
            proof {
                lemma_dense_ids_bound(self@, c);
            }
            c = c + 1;
        }
        c
    }

    /// Appends `rec`, whose identifier no record holds yet, and returns a
    /// copy of it.
    pub fn append(&mut self, rec: T) -> (r: T)
        requires
            old(self).wf(),
            !has_id(old(self)@, rec.key()),
        ensures
            final(self)@ == old(self)@.push(rec),
            final(self).wf(),
            r == rec,
    {
        let r = rec.copy_record();
        self.items.push(rec);
        proof {
            let s = self@;
            assert forall|i: int, j: int|
                0 <= i < s.len() && 0 <= j < s.len() && i != j implies #[trigger] s[i].key()
                != #[trigger] s[j].key() by {
                if i == s.len() - 1 {
                    assert(old(self)@[j].key() == s[j].key());
                } else if j == s.len() - 1 {
                    assert(old(self)@[i].key() == s[i].key());
                }
            }
        }
        r
    }
}

} // verus!
