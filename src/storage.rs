//! The node's local key/value store.
use vstd::prelude::*;

verus! {

/// The map that a list of entries describes; a later entry for a key wins.
pub open spec fn entries_map(entries: Seq<(String, String)>) -> Map<Seq<char>, Seq<char>>
    decreases entries.len(),
{
    if entries.len() == 0 {
        Map::empty()
    } else {
        let last = entries.last();
        entries_map(entries.drop_last()).insert(last.0@, last.1@)
    }
}

/// No key occurs twice in the list.
pub open spec fn keys_unique(entries: Seq<(String, String)>) -> bool {
    forall|i: int, j: int|
        0 <= i < j < entries.len() ==> #[trigger] entries[i].0@ != #[trigger] entries[j].0@
}

proof fn lemma_map_of_unique(entries: Seq<(String, String)>, i: int)
    requires
        keys_unique(entries),
        0 <= i < entries.len(),
    ensures
        entries_map(entries).contains_key(entries[i].0@),
        entries_map(entries)[entries[i].0@] == entries[i].1@,
    decreases entries.len(),
{
    let init = entries.drop_last();
    if i < entries.len() - 1 {
        assert(init[i] == entries[i]);
        assert(keys_unique(init));
        lemma_map_of_unique(init, i);
        assert(entries[i].0@ != entries[entries.len() - 1].0@);
    }
}

proof fn lemma_map_of_absent(entries: Seq<(String, String)>, key: Seq<char>)
    requires
        forall|i: int| 0 <= i < entries.len() ==> #[trigger] entries[i].0@ != key,
    ensures
        !entries_map(entries).contains_key(key),
    decreases entries.len(),
{
    if entries.len() > 0 {
        let init = entries.drop_last();
        assert forall|i: int| 0 <= i < init.len() implies #[trigger] init[i].0@ != key by {
            assert(init[i] == entries[i]);
        }
        lemma_map_of_absent(init, key);
        assert(entries[entries.len() - 1].0@ != key);
    }
}

proof fn lemma_map_of_update(entries: Seq<(String, String)>, i: int, entry: (String, String))
    requires
        keys_unique(entries),
        0 <= i < entries.len(),
        entries[i].0@ == entry.0@,
    ensures
        entries_map(entries.update(i, entry)) =~= entries_map(entries).insert(entry.0@, entry.1@),
    decreases entries.len(),
{
    let updated = entries.update(i, entry);
    let last = entries.len() - 1;
    if i == last {
        assert(updated.drop_last() =~= entries.drop_last());
        assert forall|j: int| 0 <= j < entries.drop_last().len() implies #[trigger] entries.drop_last()[j].0@ != entry.0@ by {
            assert(entries.drop_last()[j] == entries[j]);
        }
        lemma_map_of_absent(entries.drop_last(), entry.0@);
    } else {
        assert(updated.drop_last() =~= entries.drop_last().update(i, entry));
        assert(keys_unique(entries.drop_last()));
        lemma_map_of_update(entries.drop_last(), i, entry);
        assert(entries[i].0@ != entries[last].0@);
    }
}

/// Values stored under string keys.
///
/// The entries live in a `Vec` with unique keys rather than a `HashMap`:
/// vstd specifies `HashMap` only for keys whose hashing and equality it
/// models (integers, `bool`), and `String` is not among them, so nothing
/// could be proved of a lookup without an unchecked assumption. Here each lookup is a verified scan against the map view.
pub struct Storage {
    entries: Vec<(String, String)>,
}

impl View for Storage {
    type V = Map<Seq<char>, Seq<char>>;

    closed spec fn view(&self) -> Map<Seq<char>, Seq<char>> {
        entries_map(self.entries@)
    }
}

impl Storage {
    #[verifier::type_invariant]
    spec fn inv(self) -> bool {
        keys_unique(self.entries@)
    }

    /// An empty store.
    pub fn new() -> (r: Storage)
        ensures
            r@ == Map::<Seq<char>, Seq<char>>::empty(),
    {
        Storage { entries: Vec::new() }
    }

    /// Stores `value` under `key`, replacing what was there.
    pub fn store(&mut self, key: &str, value: &str)
        ensures
            final(self)@ == old(self)@.insert(key@, value@),
    {
        proof {
            use_type_invariant(&*self);
        }
        let mut taken = Storage::new();
        std::mem::swap(self, &mut taken);
        let Storage { mut entries } = taken;
        let ghost before = entries@;
        let entry = (key.to_owned(), value.to_owned());
        let n = entries.len();
        let mut i: usize = 0;
        while i < n
            invariant
                n == entries@.len(),
                entries@ == before,
                keys_unique(before),
                entries_map(before) == old(self)@,
                entry.0@ == key@,
                entry.1@ == value@,
                0 <= i <= n,
                forall|j: int| 0 <= j < i ==> #[trigger] before[j].0@ != key@,
            decreases n - i,
        {
            if entries[i].0 == entry.0 {
                proof {
                    lemma_map_of_update(before, i as int, entry);
                }
                entries.set(i, entry);
                assert(keys_unique(entries@)) by {
                    assert forall|a: int, b: int|
                        0 <= a < b < entries@.len() implies #[trigger] entries@[a].0@
                        != #[trigger] entries@[b].0@ by {
                        assert(entries@[a].0@ == before[a].0@);
                        assert(entries@[b].0@ == before[b].0@);
                    }
                }
                *self = Storage { entries };
                return;
            }
            i = i + 1;
        }
        entries.push(entry);
        assert(entries@.drop_last() =~= before);
        assert(keys_unique(entries@)) by {
            assert forall|a: int, b: int|
                0 <= a < b < entries@.len() implies #[trigger] entries@[a].0@
                != #[trigger] entries@[b].0@ by {
                assert(entries@[a] == before[a]);
                if b < before.len() {
                    assert(entries@[b] == before[b]);
                }
            }
        }
        *self = Storage { entries };
    }

    /// The value stored under `key`, if any.
    pub fn retrieve(&self, key: &str) -> (r: Option<String>)
        ensures
            r matches Some(v) ==> self@.contains_key(key@) && v@ == self@[key@],
            r is None ==> !self@.contains_key(key@),
    {
        proof {
            use_type_invariant(self);
        }
        let wanted = key.to_owned();
        let n = self.entries.len();
        let mut i: usize = 0;
        while i < n
            invariant
                n == self.entries@.len(),
                keys_unique(self.entries@),
                0 <= i <= n,
                wanted@ == key@,
                forall|j: int| 0 <= j < i ==> #[trigger] self.entries@[j].0@ != key@,
            decreases n - i,
        {
            if self.entries[i].0 == wanted {
                proof {
                    lemma_map_of_unique(self.entries@, i as int);
                }
                return Some(self.entries[i].1.clone());
            }
            i = i + 1;
        }
        proof {
            lemma_map_of_absent(self.entries@, key@);
        }
        None
    }
}

} // verus!
