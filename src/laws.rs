//! Laws that relate the operations of `AnyMap` to one another, stated over
//! the cells by key that the operations' contracts speak of.
use crate::{AnyMap, Cell, Error};
use std::hash::Hash;
use vstd::prelude::*;

verus! {

/// A key without a cell fails every typed access (`contains_key_typed`,
/// `get`, `get_clone`, `remove`) with `KeyNotFound`, and with nothing else.
pub proof fn lemma_absent_key_not_found<K: Eq + Hash>(m: Map<K, Cell>, k: K, r: Result<(), Error>)
    requires
        !m.contains_key(k),
    ensures
        AnyMap::<K>::typed_outcome_fits(m, k, r) <==> r == Err::<(), Error>(Error::KeyNotFound),
{
}

/// A key that was never inserted stays without a cell: an `insert` under
/// another key does not give it one.
pub proof fn lemma_insert_other_keeps_absent<K: Eq + Hash, V>(
    m: Map<K, Cell>,
    k: K,
    other: K,
    v: V,
    n: Map<K, Cell>,
    r: Result<Option<Box<V>>, (Error, V)>,
)
    requires
        !m.contains_key(k),
        other != k,
        AnyMap::<K>::insert_fits(m, other, v, n, r),
    ensures
        !n.contains_key(k),
{
}

/// A `remove`, under any key, never gives a cell to a key that had none.
pub proof fn lemma_remove_keeps_absent<K: Eq + Hash, V>(
    m: Map<K, Cell>,
    k: K,
    other: K,
    n: Map<K, Cell>,
    r: Result<Box<V>, Error>,
)
    requires
        !m.contains_key(k),
        AnyMap::<K>::remove_fits(m, other, n, r),
    ensures
        !n.contains_key(k),
{
}

/// Two inserts under one key that had no cell: the first returns `None`, the
/// second never does, and the key keeps a cell.
pub proof fn lemma_insert_twice<K: Eq + Hash, V>(
    m0: Map<K, Cell>,
    k: K,
    v1: V,
    m1: Map<K, Cell>,
    r1: Result<Option<Box<V>>, (Error, V)>,
    v2: V,
    m2: Map<K, Cell>,
    r2: Result<Option<Box<V>>, (Error, V)>,
)
    requires
        !m0.contains_key(k),
        AnyMap::<K>::insert_fits(m0, k, v1, m1, r1),
        AnyMap::<K>::insert_fits(m1, k, v2, m2, r2),
    ensures
        r1 == Ok::<Option<Box<V>>, (Error, V)>(None),
        r2 != Ok::<Option<Box<V>>, (Error, V)>(None),
        m2.contains_key(k),
        m2.dom() == m0.dom().insert(k),
{
    assert(m2.dom() =~= m0.dom().insert(k));
}

/// An insert that fails changes nothing: the error is `TypeMismatch`, the
/// value comes back as it was given, and every cell stays as it was.
pub proof fn lemma_failed_insert_changes_nothing<K: Eq + Hash, V>(
    m: Map<K, Cell>,
    k: K,
    v: V,
    n: Map<K, Cell>,
    e: Error,
    w: V,
)
    requires
        AnyMap::<K>::insert_fits(m, k, v, n, Err::<Option<Box<V>>, (Error, V)>((e, w))),
    ensures
        e == Error::TypeMismatch,
        w == v,
        n == m,
        n.contains_key(k),
{
}

/// A `remove` that fails on the type leaves the key with its cell untouched,
/// so `contains_key` still holds.
pub proof fn lemma_mismatch_keeps_cell<K: Eq + Hash, V>(
    m: Map<K, Cell>,
    k: K,
    n: Map<K, Cell>,
)
    requires
        AnyMap::<K>::remove_fits(m, k, n, Err::<Box<V>, Error>(Error::TypeMismatch)),
    ensures
        n == m,
        n.contains_key(k),
        n[k] == m[k],
{
}

/// A successful `remove` followed by an `insert` under the same key, of a
/// value of any type: the insert creates a new cell and returns `None`, and
/// only that key's cell differs from before the remove.
pub proof fn lemma_remove_then_insert<K: Eq + Hash, V, W>(
    m0: Map<K, Cell>,
    k: K,
    m1: Map<K, Cell>,
    r1: Result<Box<V>, Error>,
    w: W,
    m2: Map<K, Cell>,
    r2: Result<Option<Box<W>>, (Error, W)>,
)
    requires
        AnyMap::<K>::remove_fits(m0, k, m1, r1),
        r1 is Ok,
        AnyMap::<K>::insert_fits(m1, k, w, m2, r2),
    ensures
        !m1.contains_key(k),
        r2 == Ok::<Option<Box<W>>, (Error, W)>(None),
        m2 == m0.insert(k, m2[k]),
{
    assert(m2 =~= m0.insert(k, m2[k]));
}

} // verus!
