//! The attribute slots of a vertex array: a map from slot to buffer, in
//! slot order.

use crate::buffer::Buffer;
use std::collections::BTreeMap;
use vstd::prelude::*;
use vstd::std_specs::cmp::OrdSpec;
use vstd::std_specs::iter::IteratorSpec;

verus! {

broadcast use {vstd::laws_cmp::group_laws_cmp, vstd::std_specs::btree::group_btree_axioms};

/// The buffer in a slot, if the slot has one.
pub open spec fn lookup(slots: Map<u32, Buffer>, slot: u32) -> Option<Buffer> {
    if slots.contains_key(slot) {
        Some(slots[slot])
    } else {
        None
    }
}

/// Puts a buffer into a slot and hands back the one that was there.
pub(crate) fn put(slots: &mut BTreeMap<u32, Buffer>, slot: u32, buffer: Buffer) -> (previous:
    Option<Buffer>)
    ensures
        final(slots)@ == old(slots)@.insert(slot, buffer),
        previous == lookup(old(slots)@, slot),
{
    slots.insert(slot, buffer)
}

/// Empties a slot and hands back the buffer that was there.
pub(crate) fn take(slots: &mut BTreeMap<u32, Buffer>, slot: u32) -> (previous: Option<Buffer>)
    ensures
        final(slots)@ == old(slots)@.remove(slot),
        previous == lookup(old(slots)@, slot),
{
    slots.remove(&slot)
}

/// The buffer in a slot.
pub(crate) fn peek(slots: &BTreeMap<u32, Buffer>, slot: u32) -> (found: Option<&Buffer>)
    ensures
        match found {
            Some(buffer) => lookup(slots@, slot) == Some(*buffer),
            None => lookup(slots@, slot) is None,
        },
{
    slots.get(&slot)
}

/// `BTreeMap::pop_first`: removes the entry with the least key and hands it
/// back, or hands back nothing where the map is empty.
///
/// Not proved. The contract says that the key handed back was in the map
/// with that value, that no key of the map was below it, and that the map
/// has lost this entry and no other.
#[verifier::external_body]
pub(crate) fn pop_first(slots: &mut BTreeMap<u32, Buffer>) -> (first: Option<(u32, Buffer)>)
    ensures
        match first {
            Some((slot, buffer)) => {
                &&& old(slots)@.contains_key(slot)
                &&& old(slots)@[slot] == buffer
                &&& forall|other: u32| old(slots)@.contains_key(other) ==> slot <= other
                &&& final(slots)@ == old(slots)@.remove(slot)
            },
            None => old(slots)@.dom() == Set::<u32>::empty() && final(slots)@ == old(slots)@,
        },
{
    slots.pop_first()
}

/// The slots that have a buffer, from the lowest up.
pub(crate) fn occupied(slots: &BTreeMap<u32, Buffer>) -> (keys: Vec<u32>)
    ensures
        forall|i: int, j: int| 0 <= i < j < keys@.len() ==> keys@[i] < keys@[j],
        forall|slot: u32| slots@.contains_key(slot) <==> keys@.contains(slot),
        keys@.len() == slots@.dom().len(),
{
    let mut keys: Vec<u32> = Vec::new();
    let ghost all = vstd::std_specs::btree::spec_keys_iter(slots).remaining();
    for slot in it: slots.keys()
        invariant
            it.seq() == all,
            keys@.len() == it.index(),
            forall|i: int| 0 <= i < keys@.len() ==> keys@[i] == *all[i],
    {
        keys.push(*slot);
    }
    proof {
        assert(keys@ =~= all.unref());
        assert forall|slot: u32| slots@.contains_key(slot) <==> keys@.contains(slot) by {
            assert(slots@.dom().contains(slot) <==> keys@.to_set().contains(slot));
        }
        vstd::std_specs::btree::axiom_increasing_seq_meaning::<&u32>(all);
        assert forall|i: int, j: int| 0 <= i < j < keys@.len() implies keys@[i] < keys@[j] by {
            assert((&all[i]).cmp_spec(&all[j]) is Less);
        }
    }
    keys
}

} // verus!
