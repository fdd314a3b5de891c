//! The ledger side of the indirection: one record per data identifier.

use crate::access::{Access, UserData};
use vstd::prelude::*;

verus! {

/// Whether two identifiers hold the same bytes.
fn same_id(a: &Vec<u8>, b: &Vec<u8>) -> (same: bool)
    ensures
        same == (a@ == b@),
{
    let same = a == b;
    proof {
        if same {
            assert(a@ =~= b@);
        }
    }
    same
}

/// The identifier of the entry at `i`.
spec fn id_at<AccountId>(entries: Seq<(Vec<u8>, UserData<AccountId>)>, i: int) -> Seq<u8> {
    entries[i].0@
}

/// No identifier has two entries.
spec fn ids_distinct<AccountId>(entries: Seq<(Vec<u8>, UserData<AccountId>)>) -> bool {
    forall|i: int, j: int|
        0 <= i < j < entries.len() ==> id_at(entries, i) != id_at(entries, j)
}

/// Whether some entry stands under `id`.
spec fn holds<AccountId>(entries: Seq<(Vec<u8>, UserData<AccountId>)>, id: Seq<u8>) -> bool {
    exists|i: int| 0 <= i < entries.len() && id_at(entries, i) == id
}

/// The place of an entry that stands under `id`.
spec fn slot<AccountId>(entries: Seq<(Vec<u8>, UserData<AccountId>)>, id: Seq<u8>) -> int {
    choose|i: int| 0 <= i < entries.len() && id_at(entries, i) == id
}

/// The map that a list of entries stands for.
spec fn as_map<AccountId>(entries: Seq<(Vec<u8>, UserData<AccountId>)>) -> Map<
    Seq<u8>,
    UserData<AccountId>,
> {
    Map::new(|id: Seq<u8>| holds(entries, id), |id: Seq<u8>| entries[slot(entries, id)].1)
}

/// Among distinct identifiers, the entry at `i` is the one found under its identifier.
proof fn lemma_slot<AccountId>(entries: Seq<(Vec<u8>, UserData<AccountId>)>, i: int)
    requires
        ids_distinct(entries),
        0 <= i < entries.len(),
    ensures
        holds(entries, id_at(entries, i)),
        slot(entries, id_at(entries, i)) == i,
        as_map(entries).contains_key(id_at(entries, i)),
        as_map(entries)[id_at(entries, i)] == entries[i].1,
{
    let j = slot(entries, id_at(entries, i));
    assert(id_at(entries, j) == id_at(entries, i));
}

/// Appending an entry under a new identifier inserts it into the map.
proof fn lemma_push<AccountId>(
    entries: Seq<(Vec<u8>, UserData<AccountId>)>,
    entry: (Vec<u8>, UserData<AccountId>),
)
    requires
        ids_distinct(entries),
        !holds(entries, entry.0@),
    ensures
        ids_distinct(entries.push(entry)),
        as_map(entries.push(entry)) == as_map(entries).insert(entry.0@, entry.1),
{
    let grown = entries.push(entry);
    let last = entries.len() as int;
    assert forall|k: int| 0 <= k < last implies id_at(grown, k) == id_at(entries, k) by {}
    assert(id_at(grown, last) == entry.0@);
    assert(ids_distinct(grown)) by {
        assert forall|i: int, j: int| 0 <= i < j < grown.len() implies id_at(grown, i) != id_at(
            grown,
            j,
        ) by {
            if j == last {
                assert(id_at(entries, i) != entry.0@);
            }
        }
    }
    assert forall|id: Seq<u8>| holds(grown, id) == (holds(entries, id) || id == entry.0@) by {
        if holds(grown, id) && id != entry.0@ {
            assert(id_at(entries, slot(grown, id)) == id);
        }
        if holds(entries, id) {
            assert(id_at(grown, slot(entries, id)) == id);
        }
    }
    assert forall|id: Seq<u8>| holds(grown, id) implies grown[slot(grown, id)].1 == (if id
        == entry.0@ {
        entry.1
    } else {
        entries[slot(entries, id)].1
    }) by {
        if id == entry.0@ {
            lemma_slot(grown, last);
        } else {
            lemma_slot(grown, slot(entries, id));
        }
    }
    assert(as_map(grown) =~= as_map(entries).insert(entry.0@, entry.1));
}

/// Replacing an entry by one under the same identifier updates the map.
proof fn lemma_update<AccountId>(
    entries: Seq<(Vec<u8>, UserData<AccountId>)>,
    i: int,
    entry: (Vec<u8>, UserData<AccountId>),
)
    requires
        ids_distinct(entries),
        0 <= i < entries.len(),
        id_at(entries, i) == entry.0@,
    ensures
        ids_distinct(entries.update(i, entry)),
        as_map(entries.update(i, entry)) == as_map(entries).insert(entry.0@, entry.1),
{
    let changed = entries.update(i, entry);
    assert forall|k: int| 0 <= k < entries.len() implies id_at(changed, k) == id_at(
        entries,
        k,
    ) by {}
    assert(ids_distinct(changed));
    assert forall|id: Seq<u8>| holds(changed, id) == holds(entries, id) by {
        if holds(changed, id) {
            assert(id_at(entries, slot(changed, id)) == id);
        }
        if holds(entries, id) {
            assert(id_at(changed, slot(entries, id)) == id);
        }
    }
    assert forall|id: Seq<u8>| holds(changed, id) implies changed[slot(changed, id)].1 == (if id
        == entry.0@ {
        entry.1
    } else {
        entries[slot(entries, id)].1
    }) by {
        lemma_slot(entries, slot(entries, id));
        lemma_slot(changed, slot(entries, id));
        lemma_slot(changed, i);
    }
    lemma_slot(entries, i);
    assert(as_map(changed) =~= as_map(entries).insert(entry.0@, entry.1));
}

/// Taking an entry out removes its identifier from the map.
proof fn lemma_remove<AccountId>(entries: Seq<(Vec<u8>, UserData<AccountId>)>, i: int)
    requires
        ids_distinct(entries),
        0 <= i < entries.len(),
    ensures
        ids_distinct(entries.remove(i)),
        as_map(entries.remove(i)) == as_map(entries).remove(id_at(entries, i)),
{
    let rest = entries.remove(i);
    let gone = id_at(entries, i);
    // where the entry at `k` of `rest` stood in `entries`
    let before = |k: int| if k < i { k } else { k + 1 };
    assert forall|k: int| 0 <= k < rest.len() implies rest[k] == entries[before(k)] by {}
    assert(ids_distinct(rest)) by {
        assert forall|a: int, b: int| 0 <= a < b < rest.len() implies id_at(rest, a) != id_at(
            rest,
            b,
        ) by {
            assert(id_at(entries, before(a)) != id_at(entries, before(b)));
        }
    }
    assert forall|id: Seq<u8>| holds(rest, id) == (holds(entries, id) && id != gone) by {
        if holds(rest, id) {
            let k = before(slot(rest, id));
            assert(id_at(entries, k) == id);
            lemma_slot(entries, k);
            lemma_slot(entries, i);
        }
        if holds(entries, id) && id != gone {
            let k = slot(entries, id);
            assert(id_at(rest, if k < i { k } else { k - 1 }) == id);
        }
    }
    assert forall|id: Seq<u8>| holds(rest, id) implies rest[slot(rest, id)].1
        == entries[slot(entries, id)].1 by {
        lemma_slot(entries, before(slot(rest, id)));
    }
    assert(as_map(rest) =~= as_map(entries).remove(gone));
}

/// A mapping from data identifiers to records.
///
/// An identifier is an arbitrary sequence of bytes. The store is viewed as the
/// map from the identifiers that have a record to their records.
pub struct MetadataStore<AccountId> {
    entries: Vec<(Vec<u8>, UserData<AccountId>)>,
}

impl<AccountId> View for MetadataStore<AccountId> {
    type V = Map<Seq<u8>, UserData<AccountId>>;

    closed spec fn view(&self) -> Self::V {
        as_map(self.entries@)
    }
}

impl<AccountId> MetadataStore<AccountId> {
    #[verifier::type_invariant]
    spec fn well_formed(self) -> bool {
        ids_distinct(self.entries@)
    }

    /// A store without records.
    pub fn new() -> (store: Self)
        ensures
            store@ == Map::<Seq<u8>, UserData<AccountId>>::empty(),
    {
        MetadataStore { entries: Vec::new() }
    }

    /// Where the entry of `id` stands, if there is one.
    fn position(&self, id: &Vec<u8>) -> (at: Option<usize>)
        ensures
            match at {
                Some(i) => i < self.entries@.len() && id_at(self.entries@, i as int) == id@,
                None => !holds(self.entries@, id@),
            },
    {
        let mut i: usize = 0;
        while i < self.entries.len()
            invariant
                i <= self.entries@.len(),
                forall|k: int| 0 <= k < i ==> id_at(self.entries@, k) != id@,
            decreases self.entries@.len() - i,
        {
            if same_id(&self.entries[i].0, id) {
                return Some(i);
            }
            i += 1;
        }
        None
    }

    /// Whether `id` has a record.
    pub fn contains_key(&self, id: &Vec<u8>) -> (present: bool)
        ensures
            present == self@.contains_key(id@),
    {
        self.position(id).is_some()
    }

    /// The record of `id`, if it has one.
    pub fn find(&self, id: &Vec<u8>) -> (found: Option<&UserData<AccountId>>)
        ensures
            match found {
                Some(data) => self@.contains_key(id@) && *data == self@[id@],
                None => !self@.contains_key(id@),
            },
    {
        match self.position(id) {
            Some(i) => {
                proof {
                    use_type_invariant(self);
                    lemma_slot(self.entries@, i as int);
                }
                Some(&self.entries[i].1)
            },
            None => None,
        }
    }

    /// The record of `id`; the default record where `id` has none.
    pub fn get(&self, id: &Vec<u8>) -> (data: UserData<AccountId>) where AccountId: Clone + Default
        ensures
            self@.contains_key(id@) ==> cloned(self@[id@].author, data.author) && data.access
                == self@[id@].access,
            !self@.contains_key(id@) ==> call_ensures(AccountId::default, (), data.author)
                && data.access == Access::Read,
    {
        match self.find(id) {
            Some(found) => UserData { author: found.author.clone(), access: found.access },
            None => UserData::default(),
        }
    }

    /// Records `data` for `id`, in place of the record that `id` had, if any.
    pub fn insert(&mut self, id: Vec<u8>, data: UserData<AccountId>)
        ensures
            final(self)@ == old(self)@.insert(id@, data),
    {
        proof {
            use_type_invariant(&*self);
        }
        let at = self.position(&id);
        let mut entries = Vec::new();
        std::mem::swap(&mut self.entries, &mut entries);
        match at {
            Some(i) => {
                proof {
                    lemma_update(entries@, i as int, (id, data));
                }
                entries.set(i, (id, data));
            },
            None => {
                proof {
                    lemma_push(entries@, (id, data));
                }
                entries.push((id, data));
            },
        }
        self.entries = entries;
    }

    /// Drops the record of `id` and returns it; without one, nothing changes.
    pub fn remove(&mut self, id: &Vec<u8>) -> (removed: Option<UserData<AccountId>>)
        ensures
            final(self)@ == old(self)@.remove(id@),
            removed == if old(self)@.contains_key(id@) {
                Some(old(self)@[id@])
            } else {
                None
            },
    {
        proof {
            use_type_invariant(&*self);
        }
        match self.position(id) {
            Some(i) => {
                proof {
                    lemma_slot(self.entries@, i as int);
                    lemma_remove(self.entries@, i as int);
                }
                let mut entries = Vec::new();
                std::mem::swap(&mut self.entries, &mut entries);
                let entry = entries.remove(i);
                self.entries = entries;
                Some(entry.1)
            },
            None => None,
        }
    }
}

} // verus!
