//! Handles: driver identifiers with an obligation to release them.
//!
//! An object of the driver stays alive as long as anything owns it. A
//! [`Registry`] counts the owners of every object that was handed to it; the
//! call that deletes an object is issued when its last owner is released, and
//! never again.

use crate::driver::{plain, Call, CallView, Op};
use vstd::prelude::*;

verus! {

/// A kind of driver object: how one is allocated and how one is deleted.
pub trait RawIdManager {
    /// The primitive that allocates an object of this kind, where there is
    /// one that takes no argument.
    spec fn create_op() -> Option<Op>;

    /// The primitive that deletes the object `id`.
    spec fn delete_op(id: u32) -> Op;

    /// The call whose answer is the identifier of a new object of this kind,
    /// or nothing where such an object is allocated in another way.
    fn create_resource() -> (r: Option<Call>)
        ensures
            match r {
                Some(call) => Self::create_op() == Some(call@.op) && call@.data.len() == 0,
                None => Self::create_op() is None,
            },
    ;

    /// The call that deletes the object `id`.
    fn delete_resource(id: u32) -> (r: Call)
        ensures
            r@ == plain(Self::delete_op(id)),
    ;
}

/// The owner counts after a new object with one owner was taken in.
pub open spec fn adopted(owners: Seq<nat>) -> Seq<nat> {
    owners.push(1)
}

/// Whether the object in `slot` still has an owner.
pub open spec fn live(owners: Seq<nat>, slot: int) -> bool {
    0 <= slot < owners.len() && owners[slot] > 0
}

/// The owner counts after the object in `slot` got one more owner. An object
/// without owners is gone and gets none.
pub open spec fn shared(owners: Seq<nat>, slot: int) -> Seq<nat> {
    if live(owners, slot) {
        owners.update(slot, owners[slot] + 1)
    } else {
        owners
    }
}

/// The owner counts after one owner of the object in `slot` was released.
pub open spec fn released(owners: Seq<nat>, slot: int) -> Seq<nat> {
    if live(owners, slot) {
        owners.update(slot, (owners[slot] - 1) as nat)
    } else {
        owners
    }
}

/// Whether every object can get `more` owners without its count leaving the
/// machine's word.
pub open spec fn room(owners: Seq<nat>, more: nat) -> bool {
    forall|slot: int| 0 <= slot < owners.len() ==> #[trigger] owners[slot] + more <= usize::MAX
}

/// Whether releasing an owner of the object in `slot` deletes the object:
/// whether that owner is the last one.
pub open spec fn frees(owners: Seq<nat>, slot: int) -> bool {
    0 <= slot < owners.len() && owners[slot] == 1
}

/// An owner that is added to a living object and released again leaves the
/// counts as they were, and deletes nothing.
pub proof fn lemma_share_then_release(owners: Seq<nat>, slot: int)
    requires
        live(owners, slot),
    ensures
        !frees(shared(owners, slot), slot),
        released(shared(owners, slot), slot) == owners,
{
}

/// An object without owners stays without owners, whatever is shared or
/// released.
pub proof fn lemma_gone_is_gone(owners: Seq<nat>, slot: int, other: int)
    requires
        0 <= slot < owners.len(),
        owners[slot] == 0,
    ensures
        shared(owners, other)[slot] == 0,
        released(owners, other)[slot] == 0,
        adopted(owners)[slot] == 0,
        !frees(owners, slot),
{
}

/// The owner counts of the driver objects that the library holds.
///
/// Every object taken in gets the next slot; slots are never reused.
pub struct Registry {
    owners: Vec<usize>,
}

impl View for Registry {
    type V = Seq<nat>;

    closed spec fn view(&self) -> Seq<nat> {
        self.owners@.map_values(|n: usize| n as nat)
    }
}

impl Registry {
    /// A registry that holds nothing.
    pub fn new() -> (r: Registry)
        ensures
            r@ == Seq::<nat>::empty(),
    {
        Registry { owners: Vec::new() }
    }

    /// The number of objects that were ever taken in.
    pub fn len(&self) -> (n: usize)
        ensures
            n == self@.len(),
    {
        self.owners.len()
    }

    /// The number of owners of the object in `slot`; zero for a slot that was
    /// never given out.
    pub fn owners(&self, slot: usize) -> (n: usize)
        ensures
            n == (if slot < self@.len() {
                self@[slot as int]
            } else {
                0
            }),
    {
        if slot < self.owners.len() {
            self.owners[slot]
        } else {
            0
        }
    }

    /// Whether every object can get `more` owners.
    pub fn has_room(&self, more: usize) -> (r: bool)
        ensures
            r == room(self@, more as nat),
    {
        let mut i: usize = 0;
        while i < self.owners.len()
            invariant
                i <= self.owners@.len(),
                forall|slot: int| 0 <= slot < i ==> #[trigger] self@[slot] + more <= usize::MAX,
            decreases self.owners@.len() - i,
        {
            if self.owners[i] > usize::MAX - more {
                assert(self@[i as int] + more > usize::MAX);
                return false;
            }
            i += 1;
        }
        true
    }

    fn adopt(&mut self) -> (slot: usize)
        ensures
            slot == old(self)@.len(),
            final(self)@ == adopted(old(self)@),
    {
        let slot = self.owners.len();
        self.owners.push(1);
        slot
    }

    fn share(&mut self, slot: usize)
        requires
            live(old(self)@, slot as int) ==> old(self)@[slot as int] < usize::MAX,
        ensures
            final(self)@ == shared(old(self)@, slot as int),
    {
        if slot < self.owners.len() {
            let n = self.owners[slot];
            if n > 0 {
                self.owners.set(slot, n + 1);
            }
        }
    }

    fn release(&mut self, slot: usize) -> (last: bool)
        ensures
            final(self)@ == released(old(self)@, slot as int),
            last == frees(old(self)@, slot as int),
    {
        let mut last = false;
        if slot < self.owners.len() {
            let n = self.owners[slot];
            if n > 0 {
                self.owners.set(slot, n - 1);
                last = n == 1;
            }
        }
        last
    }
}

/// One owner of a driver object.
///
/// The handle does not know the kind of its object: whoever holds it says, on
/// release, which kind's call deletes it.
pub struct RawId {
    id: u32,
    slot: usize,
}

impl RawId {
    /// The driver's identifier of the object.
    pub closed spec fn spec_id(&self) -> u32 {
        self.id
    }

    /// The object's slot in the registry that took it in.
    pub closed spec fn spec_slot(&self) -> int {
        self.slot as int
    }

    /// Takes in the object that the driver allocated in answer to
    /// `T::create_resource()`, as its first owner.
    pub fn new<T: RawIdManager>(registry: &mut Registry, id: u32) -> (r: Self)
        requires
            T::create_op() is Some,
        ensures
            r.spec_id() == id,
            r.spec_slot() == old(registry)@.len(),
            final(registry)@ == adopted(old(registry)@),
    {
        Self::from_id(registry, id)
    }

    /// Takes in an object that some other call of the driver allocated, as
    /// its first owner.
    pub fn from_id(registry: &mut Registry, id: u32) -> (r: Self)
        ensures
            r.spec_id() == id,
            r.spec_slot() == old(registry)@.len(),
            final(registry)@ == adopted(old(registry)@),
    {
        let slot = registry.adopt();
        Self { id, slot }
    }

    /// The driver's identifier of the object.
    #[verifier::when_used_as_spec(spec_id)]
    pub fn id(&self) -> (r: u32)
        ensures
            r == self.spec_id(),
    {
        self.id
    }

    /// The object's slot in the registry.
    pub fn slot(&self) -> (r: usize)
        ensures
            r == self.spec_slot(),
    {
        self.slot
    }

    /// One more owner of the same object.
    pub fn share(&self, registry: &mut Registry) -> (r: Self)
        requires
            live(old(registry)@, self.spec_slot()) ==> old(registry)@[self.spec_slot()]
                < usize::MAX,
        ensures
            r == *self,
            final(registry)@ == shared(old(registry)@, self.spec_slot()),
    {
        registry.share(self.slot);
        Self { id: self.id, slot: self.slot }
    }

    /// Gives up this owner of an object of kind `T`. Where it was the last
    /// one, the result is the call that deletes the object.
    pub fn release<T: RawIdManager>(self, registry: &mut Registry) -> (r: Option<Call>)
        ensures
            final(registry)@ == released(old(registry)@, self.spec_slot()),
            r is Some <==> frees(old(registry)@, self.spec_slot()),
            r matches Some(call) ==> call@ == plain(T::delete_op(self.spec_id())),
    {
        if registry.release(self.slot) {
            Some(T::delete_resource(self.id))
        } else {
            None
        }
    }
}

/// Something that happens to the owners of driver objects.
pub enum Event {
    /// A new object is taken in, with its first owner.
    Adopt,
    /// The object in the slot gets one more owner.
    Share(int),
    /// One owner of the object in the slot is released.
    Release(int),
}

/// The owner counts after an event.
pub open spec fn after(owners: Seq<nat>, event: Event) -> Seq<nat> {
    match event {
        Event::Adopt => adopted(owners),
        Event::Share(slot) => shared(owners, slot),
        Event::Release(slot) => released(owners, slot),
    }
}

/// The owner counts of a registry that started empty and saw the events.
pub open spec fn replay(events: Seq<Event>) -> Seq<nat>
    decreases events.len(),
{
    if events.len() == 0 {
        Seq::empty()
    } else {
        after(replay(events.drop_last()), events.last())
    }
}

/// How many owners the object in `slot` was given over the events: its first
/// one, and one for every share while it lived.
pub open spec fn owners_made(events: Seq<Event>, slot: int) -> nat
    decreases events.len(),
{
    if events.len() == 0 {
        0
    } else {
        let before = replay(events.drop_last());
        let now: nat = match events.last() {
            Event::Adopt => if before.len() == slot {
                1
            } else {
                0
            },
            Event::Share(s) => if s == slot && live(before, slot) {
                1
            } else {
                0
            },
            Event::Release(_) => 0,
        };
        owners_made(events.drop_last(), slot) + now
    }
}

/// How many owners of the object in `slot` were released over the events.
pub open spec fn owners_gone(events: Seq<Event>, slot: int) -> nat
    decreases events.len(),
{
    if events.len() == 0 {
        0
    } else {
        let before = replay(events.drop_last());
        let now: nat = if events.last() == Event::Release(slot) && live(before, slot) {
            1
        } else {
            0
        };
        owners_gone(events.drop_last(), slot) + now
    }
}

/// How many times the call that deletes the object in `slot` was issued over
/// the events.
pub open spec fn deletions(events: Seq<Event>, slot: int) -> nat
    decreases events.len(),
{
    if events.len() == 0 {
        0
    } else {
        let before = replay(events.drop_last());
        let now: nat = if events.last() == Event::Release(slot) && frees(before, slot) {
            1
        } else {
            0
        };
        deletions(events.drop_last(), slot) + now
    }
}

/// Whatever happens to a registry that started empty: the count of an object
/// is the number of owners it was given less the number that were released;
/// the object is deleted at most once; and it has been deleted exactly when
/// every owner it was given has been released, so never while one remains.
pub proof fn lemma_deleted_once_with_last_owner(events: Seq<Event>, slot: int)
    ensures
        deletions(events, slot) <= 1,
        owners_gone(events, slot) <= owners_made(events, slot),
        0 <= slot < replay(events).len() ==> replay(events)[slot] == owners_made(events, slot)
            - owners_gone(events, slot),
        0 <= slot < replay(events).len() ==> owners_made(events, slot) >= 1,
        !(0 <= slot < replay(events).len()) ==> owners_made(events, slot) == 0,
        deletions(events, slot) == 1 <==> owners_made(events, slot) >= 1 && owners_gone(
            events,
            slot,
        ) == owners_made(events, slot),
    decreases events.len(),
{
    if events.len() > 0 {
        lemma_deleted_once_with_last_owner(events.drop_last(), slot);
    }
}

} // verus!
