//! Handshakes in flight, kept by their handles in ascending order.

use std::collections::BTreeMap;
use vstd::prelude::*;
use vstd::std_specs::cmp::OrdSpec;
use vstd::std_specs::iter::IteratorSpec;

verus! {

broadcast use {vstd::laws_cmp::group_laws_cmp, vstd::std_specs::btree::group_btree_axioms};

/// The number by which a context tells its handshakes apart.
pub type HandshakeHandle = usize;

/// In a sequence that increases, what comes first is less than what
/// comes after it.
proof fn lemma_increasing<K: Ord>(keys: Seq<K>, i: int, j: int)
    requires
        vstd::laws_cmp::obeys_cmp::<K>(),
        vstd::std_specs::btree::increasing_seq(keys),
        0 <= i < j < keys.len(),
    ensures
        keys[i].cmp_spec(&keys[j]) is Less,
{
    vstd::std_specs::btree::axiom_increasing_seq_meaning::<K>(keys);
}

/// A table of values under handles. Its view is the map from each handle
/// to the value under it.
pub struct Table<T> {
    entries: BTreeMap<HandshakeHandle, T>,
}

impl<T> View for Table<T> {
    type V = Map<HandshakeHandle, T>;

    closed spec fn view(&self) -> Map<HandshakeHandle, T> {
        self.entries@
    }
}

impl<T> Table<T> {
    /// A table that holds nothing.
    pub fn new() -> (table: Table<T>)
        ensures
            table@ == Map::<HandshakeHandle, T>::empty(),
    {
        Table { entries: BTreeMap::new() }
    }

    /// Whether the table holds something under `handle`.
    pub fn contains(&self, handle: HandshakeHandle) -> (found: bool)
        ensures
            found == self@.contains_key(handle),
    {
        self.entries.contains_key(&handle)
    }

    /// Puts `value` under `handle`, in place of what the table held there.
    pub fn insert(&mut self, handle: HandshakeHandle, value: T)
        ensures
            final(self)@ == old(self)@.insert(handle, value),
    {
        let _ = self.entries.insert(handle, value);
    }

    /// Takes out what the table holds under `handle`.
    pub fn remove(&mut self, handle: HandshakeHandle) -> (value: Option<T>)
        ensures
            value == (if old(self)@.contains_key(handle) {
                Some(old(self)@[handle])
            } else {
                None
            }),
            final(self)@ == old(self)@.remove(handle),
    {
        self.entries.remove(&handle)
    }

    /// What the table holds under `handle`.
    pub fn get(&self, handle: HandshakeHandle) -> (value: Option<&T>)
        ensures
            value is Some <==> self@.contains_key(handle),
            value matches Some(found) ==> *found == self@[handle],
    {
        self.entries.get(&handle)
    }

    /// The handles of the table, in ascending order.
    pub fn handles(&self) -> (handles: Vec<HandshakeHandle>)
        ensures
            forall|i: int, j: int| 0 <= i < j < handles@.len() ==> handles@[i] < handles@[j],
            forall|handle: HandshakeHandle| handles@.contains(handle) <==> self@.contains_key(handle),
    {
        let mut handles: Vec<HandshakeHandle> = Vec::new();
        let keys = self.entries.keys();
        let ghost all = keys.remaining();
        proof {
            vstd::std_specs::btree::axiom_spec_keys_iter(&self.entries);
        }
        for key in it: keys
            invariant
                it.seq() == all,
                handles@.len() == it.index(),
                forall|i: int| 0 <= i < handles@.len() ==> handles@[i] == *all[i],
        {
            handles.push(*key);
        }
        proof {
            assert(handles@ =~= all.unref());
            assert forall|i: int, j: int| 0 <= i < j < handles@.len() implies handles@[i] < handles@[j] by {
                lemma_increasing::<&HandshakeHandle>(all, i, j);
            }
            assert forall|handle: HandshakeHandle| handles@.contains(handle) <==> self@.contains_key(handle) by {
                assert(handles@.to_set().contains(handle) <==> handles@.contains(handle));
            }
        }
        handles
    }
}

} // verus!
