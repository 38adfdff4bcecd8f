//! A map from keys of one type to values of any type, where every value keeps
//! the identity of its own type and every typed access is checked against it.
use std::any::Any;
use std::collections::HashMap;
use std::hash::Hash;
use vstd::prelude::*;
use vstd::std_specs::hash::obeys_key_model;

pub mod laws;

verus! {

broadcast use vstd::std_specs::hash::group_hash_axioms;

/// One stored value together with the runtime identity of its type.
///
/// The value is erased behind `dyn Any`; it is only reached again through a
/// checked downcast to the type asked for.
#[verifier::external_body]
pub struct Cell {
    b: Box<dyn Any>,
}

/// Relies on `Box::new` and the unsizing to `Box<dyn Any>`: the value is kept
/// with the identity of its type `V`.
#[verifier::external_body]
fn cell_new<V: 'static>(v: V) -> (c: Cell) {
    Cell { b: Box::new(v) }
}

/// Relies on `<dyn Any>::downcast_ref`: a reference to the value when the
/// cell holds a `V`, `None` otherwise. Which of the two is decided by the
/// runtime type identity, which the contract does not model.
#[verifier::external_body]
fn cell_ref<V: 'static>(c: &Cell) -> (r: Option<&V>) {
    c.b.downcast_ref::<V>()
}

/// Relies on `Box::<dyn Any>::downcast`: the boxed value when the cell holds a
/// `V`; otherwise the cell itself comes back untouched.
#[verifier::external_body]
fn cell_take<V: 'static>(c: Cell) -> (r: Result<Box<V>, Cell>)
    ensures
        r matches Err(back) ==> back == c,
{
    match c.b.downcast::<V>() {
        Ok(v) => Ok(v),
        Err(b) => Err(Cell { b }),
    }
}

/// Relies on `HashMap::remove_entry`: removes the entry of `k` and hands back
/// the stored key with its value, or `None` where `k` has no entry.
#[verifier::external_body]
fn remove_entry<K: Eq + Hash>(h: &mut HashMap<K, Cell>, k: &K) -> (r: Option<(K, Cell)>)
    ensures
        obeys_key_model::<K>() ==> {
            &&& final(h)@ == old(h)@.remove(*k)
            &&& match r {
                Some(kv) => old(h)@.contains_key(*k) && kv.0 == *k && kv.1 == old(h)@[*k],
                None => !old(h)@.contains_key(*k),
            }
        },
{
    h.remove_entry(k)
}

/// The two ways in which a typed access can fail.
#[derive(Debug, Clone, Copy, PartialEq, Eq, Structural)]
pub enum Error {
    /// The key has no cell.
    KeyNotFound,
    /// The key has a cell, established under another type.
    TypeMismatch,
}

/// A map from keys of type `K` to values of any `'static` type, one cell per
/// key. A cell keeps the type it was created with until its key is removed.
pub struct AnyMap<K> {
    h: HashMap<K, Cell>,
}

impl<K: Eq + Hash> View for AnyMap<K> {
    type V = Map<K, Cell>;

    /// The cells of the map, by key.
    closed spec fn view(&self) -> Map<K, Cell> {
        self.h@
    }
}

impl<K: Eq + Hash> AnyMap<K> {
    /// Whether `r` is an outcome that a typed access of `k` may have on the
    /// cells `m`: `KeyNotFound` exactly where the key has no cell; where it has
    /// one, success or `TypeMismatch`, as the type of that cell decides.
    pub open spec fn typed_outcome_fits(m: Map<K, Cell>, k: K, r: Result<(), Error>) -> bool {
        if m.contains_key(k) {
            r == Ok::<(), Error>(()) || r == Err::<(), Error>(Error::TypeMismatch)
        } else {
            r == Err::<(), Error>(Error::KeyNotFound)
        }
    }

    /// What `insert` of `v` under `k` may do to the cells `m`, giving `n` and
    /// the result `r`: create a cell on an absent key, replace the cell of a
    /// present key, or fail `TypeMismatch` on a present key, handing `v` back
    /// and changing nothing. The type of the cell decides between the last
    /// two.
    pub open spec fn insert_fits<V>(
        m: Map<K, Cell>,
        k: K,
        v: V,
        n: Map<K, Cell>,
        r: Result<Option<Box<V>>, (Error, V)>,
    ) -> bool {
        match r {
            Ok(None) => !m.contains_key(k) && n == m.insert(k, n[k]),
            Ok(Some(_)) => m.contains_key(k) && n == m.insert(k, n[k]),
            Err((e, w)) => m.contains_key(k) && e == Error::TypeMismatch && w == v && n == m,
        }
    }

    /// What `remove` of `k` may do to the cells `m`, giving `n` and the
    /// result `r`: succeed and drop the key, or fail as a typed access does
    /// and change nothing.
    pub open spec fn remove_fits<V>(
        m: Map<K, Cell>,
        k: K,
        n: Map<K, Cell>,
        r: Result<Box<V>, Error>,
    ) -> bool {
        &&& Self::typed_outcome_fits(m, k, status(r))
        &&& r is Ok ==> n == m.remove(k)
        &&& r is Err ==> n == m
    }

    /// An empty map.
    pub fn new() -> (r: AnyMap<K>)
        ensures
            r@ == Map::<K, Cell>::empty(),
    {
        AnyMap { h: HashMap::new() }
    }

    /// Whether `k` has a cell, whatever its type.
    pub fn contains_key(&self, k: &K) -> (r: bool)
        ensures
            obeys_key_model::<K>() ==> r == self@.contains_key(*k),
    {
        self.h.contains_key(k)
    }

    /// Succeeds where `k` has a cell of type `V`; fails `KeyNotFound` where it
    /// has no cell and `TypeMismatch` where its cell has another type.
    pub fn contains_key_typed<V: 'static>(&self, k: &K) -> (r: Result<(), Error>)
        ensures
            obeys_key_model::<K>() ==> Self::typed_outcome_fits(self@, *k, r),
    {
        let found = match self.h.get(k) {
            None => None,
            Some(c) => Some(cell_ref::<V>(c)),
        };
        match check_slot(found) {
            Ok(_) => Ok(()),
            Err(e) => Err(e),
        }
    }

    /// A reference to the value of `k`, where its cell has type `V`; fails as
    /// `contains_key_typed` does.
    pub fn get<V: 'static>(&self, k: &K) -> (r: Result<&V, Error>)
        ensures
            obeys_key_model::<K>() ==> Self::typed_outcome_fits(self@, *k, status(r)),
    {
        match self.h.get(k) {
            None => check_slot(None),
            Some(c) => check_slot(Some(cell_ref::<V>(c))),
        }
    }

    /// A copy of the value of `k`, where its cell has type `V`; fails as
    /// `contains_key_typed` does. The map is left as it was.
    pub fn get_clone<V: Clone + 'static>(&mut self, k: &K) -> (r: Result<V, Error>)
        ensures
            final(self)@ == old(self)@,
            obeys_key_model::<K>() ==> Self::typed_outcome_fits(old(self)@, *k, status(r)),
    {
        match self.get::<V>(k) {
            Ok(v) => Ok(v.clone()),
            Err(e) => Err(e),
        }
    }

    /// Stores `v` under `k`. Where `k` has no cell, a cell of type `V` is
    /// created and the result is `Ok(None)`. Where its cell has type `V`, the
    /// value is replaced and the old one comes back in `Ok(Some(..))`. Where
    /// its cell has another type, nothing changes and `v` comes back with
    /// `TypeMismatch`.
    pub fn insert<V: 'static>(&mut self, k: K, v: V) -> (r: Result<Option<Box<V>>, (Error, V)>)
        ensures
            obeys_key_model::<K>() ==> Self::insert_fits(old(self)@, k, v, final(self)@, r),
    {
        match self.h.remove(&k) {
            None => {
                self.h.insert(k, cell_new(v));
                proof {
                    if obeys_key_model::<K>() {
                        assert(self.h@ =~= old(self)@.insert(k, self.h@[k]));
                    }
                }
                Ok(None)
            },
            Some(prev) => match cell_take::<V>(prev) {
                Ok(b) => {
                    self.h.insert(k, cell_new(v));
                    proof {
                        if obeys_key_model::<K>() {
                            assert(self.h@ =~= old(self)@.insert(k, self.h@[k]));
                        }
                    }
                    Ok(Some(b))
                },
                Err(back) => {
                    self.h.insert(k, back);
                    proof {
                        if obeys_key_model::<K>() {
                            assert(self.h@ =~= old(self)@);
                        }
                    }
                    Err((Error::TypeMismatch, v))
                },
            },
        }
    }

    /// Takes the value of `k` out of the map, where its cell has type `V`; the
    /// key is then absent. Fails as `contains_key_typed` does, and then the
    /// map is left as it was.
    pub fn remove<V: 'static>(&mut self, k: &K) -> (r: Result<Box<V>, Error>)
        ensures
            obeys_key_model::<K>() ==> Self::remove_fits(old(self)@, *k, final(self)@, r),
    {
        match remove_entry(&mut self.h, k) {
            None => {
                proof {
                    if obeys_key_model::<K>() {
                        assert(self.h@ =~= old(self)@);
                    }
                }
                Err(Error::KeyNotFound)
            },
            Some((key, prev)) => match cell_take::<V>(prev) {
                Ok(b) => Ok(b),
                Err(back) => {
                    self.h.insert(key, back);
                    proof {
                        if obeys_key_model::<K>() {
                            assert(self.h@ =~= old(self)@);
                        }
                    }
                    Err(Error::TypeMismatch)
                },
            },
        }
    }
}

impl<K: Eq + Hash> Default for AnyMap<K> {
    /// An empty map, as `new` makes it.
    fn default() -> (r: AnyMap<K>)
        ensures
            r@ == Map::<K, Cell>::empty(),
    {
        AnyMap::new()
    }
}

/// The outcome of the two-stage check on a looked-up slot: `None` where the
/// key has no cell, `Some(None)` where its cell failed the type check, and
/// `Some(Some(x))` where it passed, with `x` what the cell gave.
pub open spec fn slot_outcome<T>(slot: Option<Option<T>>) -> Result<T, Error> {
    match slot {
        None => Err(Error::KeyNotFound),
        Some(None) => Err(Error::TypeMismatch),
        Some(Some(x)) => Ok(x),
    }
}

/// The two-stage check of every typed access: existence first, then the
/// type. Absence gives `KeyNotFound` whatever the type asked for.
pub fn check_slot<T>(slot: Option<Option<T>>) -> (r: Result<T, Error>)
    ensures
        r == slot_outcome(slot),
{
    match slot {
        None => Err(Error::KeyNotFound),
        Some(None) => Err(Error::TypeMismatch),
        Some(Some(x)) => Ok(x),
    }
}

/// What a result says of success and failure, its payload left aside.
pub open spec fn status<T>(r: Result<T, Error>) -> Result<(), Error> {
    match r {
        Ok(_) => Ok(()),
        Err(e) => Err(e),
    }
}

} // verus!
