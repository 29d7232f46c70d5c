//! The laws the addressor and the store obey, stated over their models.
//!
//! `set` promises that the mapping becomes `insert(key_of(c), c)` and
//! `get` promises that it returns `lookup` of the mapping, so each law is
//! stated over [`Map`], [`key_of`] and [`lookup`] and carries over to any
//! backend that meets the [`crate::cache::Cache`] contract.

use vstd::prelude::*;

use crate::address::key_of;
use crate::cache::lookup;
use crate::content::ContentView;

verus! {

/// Determinism: equal content values have equal content keys, on every
/// call and in every process — the key is a function of the content alone.
pub proof fn lemma_address_deterministic(c1: ContentView, c2: ContentView)
    requires
        c1 == c2,
    ensures
        key_of(c1) == key_of(c2),
{
}

/// Round trip: storing a content and looking its key up yields that
/// content again, as long as no colliding store came in between.
pub proof fn lemma_store_retrieve_round_trip(m: Map<Seq<char>, ContentView>, c: ContentView)
    ensures
        lookup(m.insert(key_of(c), c), key_of(c)) == Some(c),
{
}

/// Last write wins: storing `c1` and then `c2` whose keys collide
/// (including `c1 == c2`) leaves `c2` under that key.
pub proof fn lemma_last_write_wins(
    m: Map<Seq<char>, ContentView>,
    c1: ContentView,
    c2: ContentView,
)
    requires
        key_of(c1) == key_of(c2),
    ensures
        lookup(m.insert(key_of(c1), c1).insert(key_of(c2), c2), key_of(c1)) == Some(c2),
{
}

/// Idempotence: a repeated store of byte-identical content writes the
/// same pair again and leaves the mapping as after the first store.
pub proof fn lemma_store_idempotent(m: Map<Seq<char>, ContentView>, c: ContentView)
    ensures
        m.insert(key_of(c), c).insert(key_of(c), c) == m.insert(key_of(c), c),
{
    assert(m.insert(key_of(c), c).insert(key_of(c), c) =~= m.insert(key_of(c), c));
}

/// Not found: a key that was never stored yields the not-found signal,
/// never the content of an unrelated key.
pub proof fn lemma_never_stored_not_found(m: Map<Seq<char>, ContentView>, k: Seq<char>)
    requires
        !m.dom().contains(k),
    ensures
        lookup(m, k) is None,
{
}

} // verus!
