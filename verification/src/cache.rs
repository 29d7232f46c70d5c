//! The keyed store: the current set of key-to-content mappings.
//!
//! A store is modelled as a [`Map`] from key character sequences to
//! content models. A later `set` under an existing key overwrites the
//! earlier value (last-write-wins), which is also the only resolution the
//! design gives to two contents that share a truncated key.

use vstd::prelude::*;

use crate::address::key_of;
use crate::content::{Content, ContentView, PasteContent, HASHLEN};

verus! {

/// What a lookup of key `k` in the mapping `m` returns: the associated
/// content if the key is present, else the not-found signal.
pub open spec fn lookup(m: Map<Seq<char>, ContentView>, k: Seq<char>) -> Option<ContentView> {
    if m.dom().contains(k) {
        Some(m[k])
    } else {
        None
    }
}

/// The capability a store backend offers: `set` and `get` over a
/// key-to-content mapping. The in-memory [`MemoryCache`] is the one
/// backend here; alternative backends can be substituted behind the same
/// contract.
pub trait Cache: Sized {
    /// The key-to-content mapping this store currently holds.
    spec fn contents(&self) -> Map<Seq<char>, ContentView>;

    /// The store's internal invariant.
    spec fn valid(&self) -> bool;

    /// Every stored content sits under its own content key: the mapping
    /// never associates a key with a content that addresses elsewhere.
    proof fn lemma_contents_addressed(&self, k: Seq<char>)
        requires
            self.valid(),
            self.contents().dom().contains(k),
        ensures
            k == key_of(self.contents()[k]),
    ;

    /// Insert `value` under its content key, overwriting any earlier
    /// content with the same key, and return the key.
    fn set(&mut self, value: PasteContent) -> (key: String)
        requires
            old(self).valid(),
        ensures
            final(self).valid(),
            key@ == key_of(value@),
            key@.len() == HASHLEN as nat,
            final(self).contents() == old(self).contents().insert(key_of(value@), value@),
    ;

    /// Look `key` up; no side effects.
    fn get(&self, key: String) -> (r: Option<&PasteContent>)
        requires
            self.valid(),
        ensures
            match r {
                Some(c) => lookup(self.contents(), key@) == Some(c@),
                None => lookup(self.contents(), key@) is None,
            },
    ;
}

/// Cache held in memory, in the same process as the transport adapter.
pub struct MemoryCache {
    entries: Vec<(String, PasteContent)>,
}

/// No two entries share a key.
spec fn uniq_keys(s: Seq<(String, PasteContent)>) -> bool {
    forall|i: int, j: int| 0 <= i < j < s.len() ==> s[i].0@ != s[j].0@
}

/// Every entry's key is the content key of its value.
spec fn addressed_entries(s: Seq<(String, PasteContent)>) -> bool {
    forall|i: int| 0 <= i < s.len() ==> s[i].0@ == key_of(#[trigger] s[i].1@)
}

/// The mapping an entry sequence denotes, later entries winning.
spec fn entries_map(s: Seq<(String, PasteContent)>) -> Map<Seq<char>, ContentView>
    decreases s.len(),
{
    if s.len() == 0 {
        Map::empty()
    } else {
        entries_map(s.drop_last()).insert(s.last().0@, s.last().1@)
    }
}

impl View for MemoryCache {
    type V = Map<Seq<char>, ContentView>;

    closed spec fn view(&self) -> Map<Seq<char>, ContentView> {
        entries_map(self.entries@)
    }
}

proof fn lemma_entries_map_contains(s: Seq<(String, PasteContent)>, k: Seq<char>)
    ensures
        entries_map(s).dom().contains(k) <==> exists|i: int|
            0 <= i < s.len() && #[trigger] s[i].0@ == k,
    decreases s.len(),
{
    if s.len() > 0 {
        lemma_entries_map_contains(s.drop_last(), k);
        if s.last().0@ == k {
            assert(s[s.len() - 1].0@ == k);
        } else if entries_map(s).dom().contains(k) {
            let i = choose|i: int| 0 <= i < s.drop_last().len() && #[trigger] s.drop_last()[i].0@ == k;
            assert(s[i].0@ == k);
        } else {
            assert(forall|i: int| 0 <= i < s.len() - 1 ==> #[trigger] s[i].0@ == s.drop_last()[i].0@);
        }
    }
}

proof fn lemma_entries_map_index(s: Seq<(String, PasteContent)>, i: int)
    requires
        uniq_keys(s),
        0 <= i < s.len(),
    ensures
        entries_map(s).dom().contains(s[i].0@),
        entries_map(s)[s[i].0@] == s[i].1@,
    decreases s.len(),
{
    if i < s.len() - 1 {
        assert(uniq_keys(s.drop_last())) by {
            assert(forall|p: int, q: int|
                0 <= p < q < s.len() - 1 ==> s.drop_last()[p].0@ == s[p].0@
                    && s.drop_last()[q].0@ == s[q].0@);
        }
        lemma_entries_map_index(s.drop_last(), i);
        assert(s[i].0@ != s.last().0@);
    }
}

proof fn lemma_entries_map_update(s: Seq<(String, PasteContent)>, i: int, e: (String, PasteContent))
    requires
        uniq_keys(s),
        0 <= i < s.len(),
        e.0@ == s[i].0@,
    ensures
        entries_map(s.update(i, e)) == entries_map(s).insert(e.0@, e.1@),
    decreases s.len(),
{
    let su = s.update(i, e);
    if i == s.len() - 1 {
        assert(su.drop_last() =~= s.drop_last());
        assert(entries_map(su) =~= entries_map(s).insert(e.0@, e.1@));
    } else {
        assert(uniq_keys(s.drop_last())) by {
            assert(forall|p: int, q: int|
                0 <= p < q < s.len() - 1 ==> s.drop_last()[p].0@ == s[p].0@
                    && s.drop_last()[q].0@ == s[q].0@);
        }
        assert(su.drop_last() =~= s.drop_last().update(i, e));
        lemma_entries_map_update(s.drop_last(), i, e);
        assert(su.last() == s.last());
        assert(e.0@ != s.last().0@);
        assert(entries_map(su) =~= entries_map(s).insert(e.0@, e.1@));
    }
}

impl MemoryCache {
    /// A fresh, empty store.
    pub fn new() -> (r: Self)
        ensures
            r.valid(),
            r@ == Map::<Seq<char>, ContentView>::empty(),
    {
        MemoryCache { entries: Vec::<(String, PasteContent)>::new() }
    }
}

impl Cache for MemoryCache {
    open spec fn contents(&self) -> Map<Seq<char>, ContentView> {
        self@
    }

    closed spec fn valid(&self) -> bool {
        uniq_keys(self.entries@) && addressed_entries(self.entries@)
    }

    proof fn lemma_contents_addressed(&self, k: Seq<char>) {
        lemma_entries_map_contains(self.entries@, k);
        let i = choose|i: int| 0 <= i < self.entries@.len() && #[trigger] self.entries@[i].0@ == k;
        lemma_entries_map_index(self.entries@, i);
    }

    fn set(&mut self, value: PasteContent) -> (key: String) {
        let key = value.hash();
        let ghost s0 = self.entries@;
        let mut i: usize = 0;
        while i < self.entries.len()
            invariant
                self.entries@ == s0,
                s0 == old(self).entries@,
                uniq_keys(s0),
                addressed_entries(s0),
                i <= s0.len(),
                key@ == key_of(value@),
                key@.len() == HASHLEN as nat,
                forall|j: int| 0 <= j < i ==> s0[j].0@ != key@,
            decreases s0.len() - i,
        {
            if self.entries[i].0 == key {
                let stored_key = key.clone();
                proof {
                    lemma_entries_map_update(s0, i as int, (stored_key, value));
                }
                self.entries[i] = (stored_key, value);
                proof {
                    let s1 = self.entries@;
                    assert(forall|x: int| 0 <= x < s1.len() ==> #[trigger] s1[x].0@ == s0[x].0@);
                    assert(uniq_keys(s1));
                    assert(addressed_entries(s1));
                }
                return key;
            }
            i += 1;
        }
        let stored_key = key.clone();
        proof {
            let s1 = s0.push((stored_key, value));
            assert(s1.drop_last() =~= s0);
            assert(entries_map(s1) == entries_map(s0).insert(key@, value@));
            assert(forall|x: int| 0 <= x < s0.len() ==> #[trigger] s1[x] == s0[x]);
            assert(uniq_keys(s1));
            assert(addressed_entries(s1));
        }
        self.entries.push((stored_key, value));
        key
    }

    fn get(&self, key: String) -> (r: Option<&PasteContent>) {
        let mut i: usize = 0;
        while i < self.entries.len()
            invariant
                self.valid(),
                i <= self.entries@.len(),
                forall|j: int| 0 <= j < i ==> self.entries@[j].0@ != key@,
            decreases self.entries@.len() - i,
        {
            let entry = &self.entries[i];
            if entry.0 == key {
                proof {
                    lemma_entries_map_index(self.entries@, i as int);
                }
                return Some(&entry.1);
            }
            i += 1;
        }
        proof {
            lemma_entries_map_contains(self.entries@, key@);
        }
        None
    }
}

} // verus!
