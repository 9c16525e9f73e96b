use crate::address::Address;
use vstd::prelude::*;

verus! {

/// A record together with the address it is kept under.
#[derive(Clone, Debug)]
pub struct Entry<T> {
    pub key: Address,
    pub value: T,
}

/// A keyed record store: at most one record per address.
#[derive(Clone, Debug)]
pub struct Store<T> {
    entries: Vec<Entry<T>>,
}

pub open spec fn has_key<T>(s: Seq<Entry<T>>, k: Seq<u8>) -> bool {
    exists|i: int| 0 <= i < s.len() && (#[trigger] s[i]).key@ == k
}

pub open spec fn keys_unique<T>(s: Seq<Entry<T>>) -> bool {
    forall|i: int, j: int| 0 <= i < s.len() && 0 <= j < s.len() && i != j ==> (#[trigger] s[i]).key@ != (#[trigger] s[j]).key@
}

pub open spec fn index_of<T>(s: Seq<Entry<T>>, k: Seq<u8>) -> int {
    choose|i: int| 0 <= i < s.len() && (#[trigger] s[i]).key@ == k
}

/// The records of `s` by address.
pub open spec fn map_of<T>(s: Seq<Entry<T>>) -> Map<Seq<u8>, T> {
    Map::new(|k: Seq<u8>| has_key(s, k), |k: Seq<u8>| s[index_of(s, k)].value)
}

proof fn lemma_index_of<T>(s: Seq<Entry<T>>, i: int)
    requires
        keys_unique(s),
        0 <= i < s.len(),
    ensures
        has_key(s, s[i].key@),
        index_of(s, s[i].key@) == i,
{
    let k = s[i].key@;
    assert(has_key(s, k));
    let j = index_of(s, k);
    assert(s[j].key@ == k);
}

impl<T> View for Store<T> {
    type V = Map<Seq<u8>, T>;

    closed spec fn view(&self) -> Map<Seq<u8>, T> {
        map_of(self.entries@)
    }
}

impl<T> Store<T> {
    /// The stored entries, in the order they were inserted.
    pub closed spec fn entries(&self) -> Seq<Entry<T>> {
        self.entries@
    }

    pub closed spec fn inv(&self) -> bool {
        keys_unique(self.entries@)
    }

    pub fn new() -> (r: Store<T>)
        ensures
            r.inv(),
            r@ == Map::<Seq<u8>, T>::empty(),
            r.entries().len() == 0,
    {
        let r = Store { entries: Vec::new() };
        assert(r@ =~= Map::<Seq<u8>, T>::empty());
        r
    }

    /// Every entry is the record kept under its address, and every address
    /// in the store has an entry.
    pub proof fn lemma_entries(&self)
        requires
            self.inv(),
        ensures
            forall|i: int|
                0 <= i < self.entries().len() ==> self@.contains_key(
                    (#[trigger] self.entries()[i]).key@,
                ) && self@[self.entries()[i].key@] == self.entries()[i].value,
            forall|k: Seq<u8>|
                #[trigger] self@.contains_key(k) ==> exists|i: int|
                    0 <= i < self.entries().len() && (#[trigger] self.entries()[i]).key@ == k,
    {
        assert forall|i: int| 0 <= i < self.entries().len() implies self@.contains_key(
            (#[trigger] self.entries()[i]).key@,
        ) && self@[self.entries()[i].key@] == self.entries()[i].value by {
            lemma_index_of(self.entries@, i);
        }
        assert forall|k: Seq<u8>| #[trigger] self@.contains_key(k) implies exists|i: int|
            0 <= i < self.entries().len() && (#[trigger] self.entries()[i]).key@ == k by {
            assert(has_key(self.entries@, k));
            let i = choose|i: int| 0 <= i < self.entries@.len() && (#[trigger] self.entries@[i]).key@ == k;
            assert(self.entries()[i] == self.entries@[i]);
        }
    }

    pub fn len(&self) -> (r: usize)
        ensures
            r == self.entries().len(),
    {
        self.entries.len()
    }

    pub fn entry(&self, i: usize) -> (r: &Entry<T>)
        requires
            i < self.entries().len(),
        ensures
            *r == self.entries()[i as int],
    {
        &self.entries[i]
    }

    /// The record kept under `key`, if any.
    pub fn get(&self, key: &Address) -> (r: Option<&T>)
        requires
            self.inv(),
        ensures
            match r {
                Some(v) => self@.contains_key(key@) && self@[key@] == *v,
                None => !self@.contains_key(key@),
            },
    {
        let mut i: usize = 0;
        while i < self.entries.len()
            invariant
                0 <= i <= self.entries@.len(),
                keys_unique(self.entries@),
                forall|j: int| 0 <= j < i ==> (#[trigger] self.entries@[j]).key@ != key@,
            decreases self.entries@.len() - i,
        {
            if self.entries[i].key.same(key) {
                proof {
                    lemma_index_of(self.entries@, i as int);
                }
                return Some(&self.entries[i].value);
            }
            i = i + 1;
        }
        None
    }

    /// Keeps `value` under `key`, where no record is kept yet.
    pub fn insert(&mut self, key: Address, value: T)
        requires
            old(self).inv(),
            !old(self)@.contains_key(key@),
        ensures
            final(self).inv(),
            final(self)@ == old(self)@.insert(key@, value),
            final(self).entries() == old(self).entries().push(Entry { key, value }),
    {
        let ghost s = self.entries@;
        self.entries.push(Entry { key, value });
        let ghost t = self.entries@;
        assert(t == s.push(Entry { key, value }));
        assert(keys_unique(t)) by {
            assert forall|i: int, j: int|
                0 <= i < t.len() && 0 <= j < t.len() && i != j implies (#[trigger] t[i]).key@ != (
                #[trigger] t[j]).key@ by {
                if i < s.len() && j == s.len() {
                    assert(t[i] == s[i]);
                    assert(!has_key(s, key@));
                } else if j < s.len() && i == s.len() {
                    assert(t[j] == s[j]);
                    assert(!has_key(s, key@));
                }
            }
        }
        assert(map_of(t) =~= map_of(s).insert(key@, value)) by {
            assert forall|k: Seq<u8>| #[trigger] has_key(t, k) == (has_key(s, k) || k == key@) by {
                if has_key(s, k) {
                    let i = choose|i: int| 0 <= i < s.len() && (#[trigger] s[i]).key@ == k;
                    assert(t[i] == s[i]);
                }
                if k == key@ {
                    assert(t[s.len() as int] == Entry { key, value });
                }
                if has_key(t, k) && k != key@ {
                    let i = choose|i: int| 0 <= i < t.len() && (#[trigger] t[i]).key@ == k;
                    assert(i < s.len());
                    assert(t[i] == s[i]);
                }
            }
            assert forall|k: Seq<u8>| #[trigger] has_key(t, k) implies map_of(t)[k] == map_of(
                s,
            ).insert(key@, value)[k] by {
                if k == key@ {
                    lemma_index_of(t, s.len() as int);
                } else {
                    let i = choose|i: int| 0 <= i < t.len() && (#[trigger] t[i]).key@ == k;
                    assert(i < s.len());
                    assert(t[i] == s[i]);
                    lemma_index_of(t, i);
                    lemma_index_of(s, i);
                }
            }
        }
    }
}

} // verus!
