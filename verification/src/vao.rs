//! Vertex arrays: which buffer feeds which attribute slot, and how to draw.

use crate::buffer::{dropped, joined, release_previous, without, Buffer};
use crate::codes;
use crate::driver::{
    no_calls, only_if, plain, push_all, push_call, push_plain, views, Call, CallView, Fault,
    FaultView, Op,
};
use crate::internal::{
    adopted, frees, live, released, room, shared, RawId, RawIdManager, Registry,
};
use crate::shader::Program;
use crate::slots::{lookup, occupied, peek, pop_first, put, take};
use crate::uniform::UniformContainer;
use std::collections::BTreeMap;
use vstd::prelude::*;

verus! {

/// One owner of a vertex array object, and of the buffers attached to it.
pub struct VertexArray {
    pointers: BTreeMap<u32, Buffer>,
    id: RawId,
    indices: Option<Buffer>,
    draw_mode: u32,
    count: i32,
}

/// What a [`VertexArray`] is, mathematically.
pub struct VertexArrayView {
    /// The driver's identifier of the vertex array.
    pub id: u32,
    /// The vertex array's slot in the registry.
    pub slot: int,
    /// The buffer of every attribute slot that has one.
    pub pointers: Map<u32, Buffer>,
    /// The buffer that indexed draws read their indices from.
    pub indices: Option<Buffer>,
    /// The primitive mode of draws.
    pub draw_mode: u32,
    /// The number of elements that a draw submits.
    pub count: i32,
}

impl View for VertexArray {
    type V = VertexArrayView;

    closed spec fn view(&self) -> VertexArrayView {
        VertexArrayView {
            id: self.id.spec_id(),
            slot: self.id.spec_slot(),
            pointers: self.pointers@,
            indices: self.indices,
            draw_mode: self.draw_mode,
            count: self.count,
        }
    }
}

impl RawIdManager for VertexArray {
    open spec fn create_op() -> Option<Op> {
        Some(Op::CreateVertexArrays)
    }

    open spec fn delete_op(id: u32) -> Op {
        Op::DeleteVertexArrays { id }
    }

    fn create_resource() -> (r: Option<Call>) {
        Some(Call::plain(Op::CreateVertexArrays))
    }

    fn delete_resource(id: u32) -> (r: Call) {
        Call::plain(Op::DeleteVertexArrays { id })
    }
}

/// The owner counts after the buffer of every slot below `bound` lost one
/// owner, slot by slot from the lowest.
pub open spec fn released_below(pointers: Map<u32, Buffer>, owners: Seq<nat>, bound: nat) -> Seq<
    nat,
>
    decreases bound,
{
    if bound == 0 {
        owners
    } else {
        let slot = (bound - 1) as u32;
        let before = released_below(pointers, owners, (bound - 1) as nat);
        without(lookup(pointers, slot), before)
    }
}

/// The calls that delete the buffers left without an owner while the buffer
/// of every slot below `bound` lost one owner, slot by slot from the lowest.
pub open spec fn deleted_below(pointers: Map<u32, Buffer>, owners: Seq<nat>, bound: nat) -> Seq<
    CallView,
>
    decreases bound,
{
    if bound == 0 {
        Seq::empty()
    } else {
        let slot = (bound - 1) as u32;
        let before = released_below(pointers, owners, (bound - 1) as nat);
        deleted_below(pointers, owners, (bound - 1) as nat) + dropped(
            lookup(pointers, slot),
            before,
        )
    }
}

/// The owner counts after the buffer of every slot below `bound` got one
/// more owner.
pub open spec fn shared_below(pointers: Map<u32, Buffer>, owners: Seq<nat>, bound: nat) -> Seq<
    nat,
>
    decreases bound,
{
    if bound == 0 {
        owners
    } else {
        let slot = (bound - 1) as u32;
        joined(lookup(pointers, slot), shared_below(pointers, owners, (bound - 1) as nat))
    }
}

/// One more than the highest attribute slot there can be.
pub open spec fn all_slots() -> nat {
    0x1_0000_0000
}

/// Slots without a buffer change nothing.
proof fn lemma_empty_slots(pointers: Map<u32, Buffer>, owners: Seq<nat>, from: nat, to: nat)
    requires
        from <= to <= all_slots(),
        forall|slot: u32| from <= slot < to ==> !pointers.contains_key(slot),
    ensures
        released_below(pointers, owners, to) == released_below(pointers, owners, from),
        deleted_below(pointers, owners, to) == deleted_below(pointers, owners, from),
        shared_below(pointers, owners, to) == shared_below(pointers, owners, from),
    decreases to - from,
{
    if from < to {
        lemma_empty_slots(pointers, owners, from, (to - 1) as nat);
        assert(deleted_below(pointers, owners, to) =~= deleted_below(
            pointers,
            owners,
            (to - 1) as nat,
        ));
    }
}

impl VertexArrayView {
    /// The calls that describe the layout of the attribute `pointer` in
    /// `buffer` and switch the attribute on: with the vertex array and the
    /// buffer bound, and the buffer unbound again at the end.
    pub open spec fn pointer_calls(
        self,
        pointer: u32,
        buffer: Buffer,
        size: i32,
        type_: u32,
        normalized: bool,
        stride: i32,
        offset: u32,
    ) -> Seq<CallView> {
        seq![
            plain(Op::BindVertexArray { id: self.id }),
            buffer.bind_call(),
            plain(
                Op::VertexAttribPointer {
                    index: pointer,
                    size,
                    type_,
                    normalized: if normalized {
                        1u8
                    } else {
                        0u8
                    },
                    stride,
                    offset,
                },
            ),
            plain(Op::EnableVertexAttribArray { index: pointer }),
            buffer.unbind_call(),
        ]
    }

    /// The calls that tie `buffer` to the vertex array as its index buffer:
    /// both are bound, then both unbound.
    pub open spec fn index_calls(self, buffer: Buffer) -> Seq<CallView> {
        seq![
            plain(Op::BindVertexArray { id: self.id }),
            buffer.bind_call(),
            plain(Op::BindVertexArray { id: 0 }),
            buffer.unbind_call(),
        ]
    }

    /// The calls that submit the draw, once the program and the vertex array
    /// are current: with an index buffer, an indexed draw of `count` 16-bit
    /// indices from its start, between its binding and its unbinding; without
    /// one, a draw of the first `count` vertices.
    pub open spec fn submit_calls(self) -> Seq<CallView> {
        match self.indices {
            Some(buffer) => seq![
                buffer.bind_call(),
                plain(
                    Op::DrawElements {
                        mode: self.draw_mode,
                        count: self.count,
                        type_: 0x1403,
                        offset: 0,
                    },
                ),
                buffer.unbind_call(),
            ],
            None => seq![
                plain(Op::DrawArrays { mode: self.draw_mode, first: 0, count: self.count }),
            ],
        }
    }

    /// The calls of a draw with `program` and the uploads of its uniforms:
    /// the program is made current, the uniforms are uploaded, the vertex
    /// array is bound and the draw submitted.
    pub open spec fn draw_calls(self, program: u32, uploads: Seq<CallView>) -> Seq<CallView> {
        seq![plain(Op::UseProgram { id: program })] + uploads + seq![
            plain(Op::BindVertexArray { id: self.id }),
        ] + self.submit_calls()
    }

    /// The owner counts after everything that the vertex array owns got one
    /// more owner: the buffers of its slots, the vertex array object and the
    /// index buffer.
    pub open spec fn shared_in(self, owners: Seq<nat>) -> Seq<nat> {
        joined(
            self.indices,
            shared(shared_below(self.pointers, owners, all_slots()), self.slot),
        )
    }

    /// The owner counts after everything that the vertex array owns lost one
    /// owner: the buffers of its slots from the lowest slot up, then the
    /// vertex array object, then the index buffer.
    pub open spec fn released_from(self, owners: Seq<nat>) -> Seq<nat> {
        let first = released_below(self.pointers, owners, all_slots());
        let second = released(first, self.slot);
        without(self.indices, second)
    }

    /// The calls that delete what is left without an owner, in the same
    /// order.
    pub open spec fn release_calls(self, owners: Seq<nat>) -> Seq<CallView> {
        let first = released_below(self.pointers, owners, all_slots());
        let second = released(first, self.slot);
        deleted_below(self.pointers, owners, all_slots()) + only_if(
            frees(first, self.slot),
            plain(Op::DeleteVertexArrays { id: self.id }),
        ) + dropped(self.indices, second)
    }
}

impl VertexArray {
    /// Takes in the vertex array `id`, which the driver allocated in answer
    /// to `VertexArray::create_resource()`. It has no buffers, and it draws
    /// no points.
    pub fn new(registry: &mut Registry, id: u32) -> (r: VertexArray)
        ensures
            r@ == (VertexArrayView {
                id,
                slot: old(registry)@.len() as int,
                pointers: Map::empty(),
                indices: None,
                draw_mode: 0,
                count: 0,
            }),
            final(registry)@ == adopted(old(registry)@),
    {
        VertexArray {
            pointers: BTreeMap::new(),
            id: RawId::new::<VertexArray>(registry, id),
            indices: None,
            draw_mode: codes::gl_points(),
            count: 0,
        }
    }

    /// Attaches `buffer` to the attribute slot `pointer` with the given
    /// layout, and owns it from now on. A buffer that was in the slot loses
    /// this owner; the call that deletes it, where it has no other, comes
    /// last.
    pub fn set_pointer(
        &mut self,
        registry: &mut Registry,
        pointer: u32,
        buffer: Buffer,
        size: i32,
        type_: u32,
        normalized: bool,
        stride: i32,
        offset: u32,
    ) -> (r: Vec<Call>)
        ensures
            final(self)@ == (VertexArrayView {
                pointers: old(self)@.pointers.insert(pointer, buffer),
                ..old(self)@
            }),
            final(registry)@ == without(lookup(old(self)@.pointers, pointer), old(registry)@),
            views(r@) == old(self)@.pointer_calls(
                pointer,
                buffer,
                size,
                type_,
                normalized,
                stride,
                offset,
            ) + dropped(lookup(old(self)@.pointers, pointer), old(registry)@),
    {
        let mut calls = no_calls();
        push_call(&mut calls, self.bind());
        push_call(&mut calls, buffer.bind());
        let flag = if normalized {
            codes::gl_true()
        } else {
            codes::gl_false()
        };
        push_plain(
            &mut calls,
            Op::VertexAttribPointer { index: pointer, size, type_, normalized: flag, stride, offset },
        );
        push_plain(&mut calls, Op::EnableVertexAttribArray { index: pointer });
        push_call(&mut calls, buffer.unbind());
        assert(views(calls@) =~= old(self)@.pointer_calls(
            pointer,
            buffer,
            size,
            type_,
            normalized,
            stride,
            offset,
        ));
        let previous = put(&mut self.pointers, pointer, buffer);
        release_previous(previous, registry, &mut calls);
        calls
    }

    /// The calls of one draw with `program` and the values in `uniforms`.
    pub fn draw<U: UniformContainer>(&self, program: &Program, uniforms: &U) -> (r: Vec<Call>)
        ensures
            views(r@) == self@.draw_calls(program.spec_id(), uniforms.uploads()),
    {
        let mut calls = no_calls();
        push_call(&mut calls, program.bind());
        push_all(&mut calls, uniforms.bind());
        push_call(&mut calls, self.bind());
        match &self.indices {
            Some(buffer) => {
                push_call(&mut calls, buffer.bind());
                push_plain(
                    &mut calls,
                    Op::DrawElements {
                        mode: self.draw_mode,
                        count: self.count,
                        type_: codes::gl_unsigned_short(),
                        offset: 0,
                    },
                );
                push_call(&mut calls, buffer.unbind());
            },
            None => {
                push_plain(
                    &mut calls,
                    Op::DrawArrays { mode: self.draw_mode, first: 0, count: self.count },
                );
            },
        }
        calls
    }

    /// Empties the attribute slot `pointer`. The buffer that was in it loses
    /// this owner; the result is the call that deletes it, where it has no
    /// other. The driver is not told that the slot is out of use.
    pub fn remove_pointer(&mut self, registry: &mut Registry, pointer: u32) -> (r: Vec<Call>)
        ensures
            final(self)@ == (VertexArrayView {
                pointers: old(self)@.pointers.remove(pointer),
                ..old(self)@
            }),
            final(registry)@ == without(lookup(old(self)@.pointers, pointer), old(registry)@),
            views(r@) == dropped(lookup(old(self)@.pointers, pointer), old(registry)@),
    {
        let mut calls = no_calls();
        let previous = take(&mut self.pointers, pointer);
        release_previous(previous, registry, &mut calls);
        calls
    }

    /// Makes `buffer` the index buffer and `count` the number of elements to
    /// draw, and owns the buffer from now on. A buffer that was the index
    /// buffer loses this owner; the call that deletes it, where it has no
    /// other, comes last.
    pub fn add_indices(&mut self, registry: &mut Registry, buffer: Buffer, count: i32) -> (r: Vec<
        Call,
    >)
        requires
            buffer.spec_target() == 0x8893,
        ensures
            final(self)@ == (VertexArrayView { indices: Some(buffer), count, ..old(self)@ }),
            final(registry)@ == without(old(self)@.indices, old(registry)@),
            views(r@) == old(self)@.index_calls(buffer) + dropped(
                old(self)@.indices,
                old(registry)@,
            ),
    {
        let mut calls = no_calls();
        push_call(&mut calls, self.bind());
        push_call(&mut calls, buffer.bind());
        push_call(&mut calls, self.unbind());
        push_call(&mut calls, buffer.unbind());
        let previous = self.indices.take();
        self.indices = Some(buffer);
        self.count = count;
        release_previous(previous, registry, &mut calls);
        calls
    }

    /// Whether `buffer` can be an index buffer: it can if it is meant for
    /// the binding point that indices are read from.
    pub fn check_indices(buffer: &Buffer) -> (r: Result<(), Fault>)
        ensures
            r is Ok <==> buffer.spec_target() == 0x8893,
            r matches Err(fault) ==> fault@ == FaultView::NotElementBuffer,
    {
        if buffer.target() == codes::gl_element_array_buffer() {
            Ok(())
        } else {
            Err(Fault::NotElementBuffer)
        }
    }

    /// Sets the number of elements that a draw submits.
    pub fn set_count(&mut self, count: i32)
        ensures
            final(self)@ == (VertexArrayView { count, ..old(self)@ }),
    {
        self.count = count;
    }

    /// Sets the primitive mode of draws.
    pub fn set_draw_mode(&mut self, mode: u32)
        ensures
            final(self)@ == (VertexArrayView { draw_mode: mode, ..old(self)@ }),
    {
        self.draw_mode = mode;
    }

    /// Does away with the index buffer. The buffer loses this owner; the
    /// result is the call that deletes it, where it has no other.
    pub fn remove_indices(&mut self, registry: &mut Registry) -> (r: Vec<Call>)
        ensures
            final(self)@ == (VertexArrayView { indices: None, ..old(self)@ }),
            final(registry)@ == without(old(self)@.indices, old(registry)@),
            views(r@) == dropped(old(self)@.indices, old(registry)@),
    {
        let mut calls = no_calls();
        let previous = self.indices.take();
        release_previous(previous, registry, &mut calls);
        calls
    }

    /// The call that makes the vertex array current.
    pub fn bind(&self) -> (r: Call)
        ensures
            r@ == plain(Op::BindVertexArray { id: self@.id }),
    {
        Call::plain(Op::BindVertexArray { id: self.id.id() })
    }

    /// The call that leaves no vertex array current.
    pub fn unbind(&self) -> (r: Call)
        ensures
            r@ == plain(Op::BindVertexArray { id: 0 }),
    {
        Call::plain(Op::BindVertexArray { id: 0 })
    }

    /// The driver's identifier of the vertex array.
    pub fn id(&self) -> (r: u32)
        ensures
            r == self@.id,
    {
        self.id.id()
    }

    /// The vertex array's slot in the registry.
    pub fn slot(&self) -> (r: usize)
        ensures
            r == self@.slot,
    {
        self.id.slot()
    }

    /// The number of elements that a draw submits.
    pub fn count(&self) -> (r: i32)
        ensures
            r == self@.count,
    {
        self.count
    }

    /// The primitive mode of draws.
    pub fn draw_mode(&self) -> (r: u32)
        ensures
            r == self@.draw_mode,
    {
        self.draw_mode
    }

    /// The buffer attached to the attribute slot `pointer`.
    pub fn pointer(&self, pointer: u32) -> (r: Option<&Buffer>)
        ensures
            match r {
                Some(buffer) => lookup(self@.pointers, pointer) == Some(*buffer),
                None => lookup(self@.pointers, pointer) is None,
            },
    {
        peek(&self.pointers, pointer)
    }

    /// The index buffer.
    pub fn indices(&self) -> (r: Option<&Buffer>)
        ensures
            match r {
                Some(buffer) => self@.indices == Some(*buffer),
                None => self@.indices is None,
            },
    {
        self.indices.as_ref()
    }

    /// Whether the registry has room for one more owner of the vertex array
    /// and of everything attached to it.
    pub fn can_share(&self, registry: &Registry) -> (r: bool)
        ensures
            r == room(registry@, self@.pointers.dom().len() + 2),
    {
        broadcast use vstd::std_specs::btree::group_btree_axioms;

        let attached = self.pointers.len();
        if attached > usize::MAX - 2 {
            proof {
                if registry@.len() > 0 {
                    assert(registry@[0] + (attached + 2) > usize::MAX);
                }
            }
            registry.len() == 0
        } else {
            registry.has_room(attached + 2)
        }
    }

    /// One more owner of the vertex array and of everything attached to it,
    /// with the same mode and count.
    pub fn share(&self, registry: &mut Registry) -> (r: VertexArray)
        requires
            room(old(registry)@, self@.pointers.dom().len() + 2),
        ensures
            r@ == self@,
            final(registry)@ == self@.shared_in(old(registry)@),
    {
        let keys = occupied(&self.pointers);
        let ghost all = self.pointers@;
        let ghost start = registry@;
        let ghost mut bound: nat = 0;
        let mut pointers: BTreeMap<u32, Buffer> = BTreeMap::new();
        let mut i: usize = 0;
        while i < keys.len()
            invariant
                all == self.pointers@,
                i <= keys@.len(),
                keys@.len() == all.dom().len(),
                forall|a: int, b: int| 0 <= a < b < keys@.len() ==> keys@[a] < keys@[b],
                forall|slot: u32| all.contains_key(slot) <==> keys@.contains(slot),
                bound <= all_slots(),
                i < keys@.len() ==> bound <= keys@[i as int],
                forall|a: int| 0 <= a < i ==> keys@[a] < bound,
                registry@ == shared_below(all, start, bound),
                registry@.len() == start.len(),
                forall|slot: int| 0 <= slot < start.len() ==> registry@[slot] <= start[slot] + i,
                room(start, all.dom().len() + 2),
                forall|slot: u32|
                    lookup(#[trigger] pointers@, slot) == (if slot < bound {
                        lookup(all, slot)
                    } else {
                        None
                    }),
            decreases keys@.len() - i,
        {
            let slot = keys[i];
            proof {
                assert forall|other: u32| bound <= other < slot implies !all.contains_key(
                    other,
                ) by {
                    if all.contains_key(other) {
                        let a = choose|a: int| 0 <= a < keys@.len() && keys@[a] == other;
                        assert(a != i);
                    }
                }
                lemma_empty_slots(all, start, bound, slot as nat);
            }
            match peek(&self.pointers, slot) {
                Some(buffer) => {
                    let ghost before = pointers@;
                    proof {
                        if live(registry@, buffer.spec_slot()) {
                            assert(start[buffer.spec_slot()] + (all.dom().len() + 2) <= usize::MAX);
                        }
                    }
                    let twin = buffer.share(registry);
                    put(&mut pointers, slot, twin);
                    proof {
                        bound = (slot + 1) as nat;
                        assert forall|other: u32|
                            lookup(#[trigger] pointers@, other) == (if other < bound {
                                lookup(all, other)
                            } else {
                                None
                            }) by {
                            assert(lookup(before, other) == (if other < slot {
                                lookup(all, other)
                            } else {
                                None
                            }));
                        }
                    }
                },
                None => {
                    assert(false);
                },
            }
            i += 1;
        }
        proof {
            assert forall|other: u32| bound <= other < all_slots() implies !all.contains_key(
                other,
            ) by {
                if all.contains_key(other) {
                    let a = choose|a: int| 0 <= a < keys@.len() && keys@[a] == other;
                    assert(keys@[a] < bound);
                }
            }
            lemma_empty_slots(all, start, bound, all_slots());
            assert(pointers@ =~= all) by {
                assert forall|slot: u32| pointers@.contains_key(slot) == all.contains_key(
                    slot,
                ) by {
                    assert(lookup(pointers@, slot) == lookup(all, slot));
                }
                assert forall|slot: u32| pointers@.contains_key(slot) implies pointers@[slot]
                    == all[slot] by {
                    assert(lookup(pointers@, slot) == lookup(all, slot));
                }
            }
            if live(registry@, self.id.spec_slot()) {
                assert(start[self.id.spec_slot()] + (all.dom().len() + 2) <= usize::MAX);
            }
        }
        let ghost second = registry@;
        let id = self.id.share(registry);
        let indices = match &self.indices {
            Some(buffer) => {
                proof {
                    if live(registry@, buffer.spec_slot()) {
                        assert(second[buffer.spec_slot()] <= start[buffer.spec_slot()] + i);
                    }
                }
                Some(buffer.share(registry))
            },
            None => None,
        };
        VertexArray { pointers, id, indices, draw_mode: self.draw_mode, count: self.count }
    }

    /// Gives up this owner of the vertex array and of everything attached to
    /// it: the buffers of the attribute slots from the lowest slot up, then
    /// the vertex array object, then the index buffer. The result holds the
    /// calls that delete what is left without an owner.
    pub fn release(self, registry: &mut Registry) -> (r: Vec<Call>)
        ensures
            final(registry)@ == self@.released_from(old(registry)@),
            views(r@) == self@.release_calls(old(registry)@),
    {
        let VertexArray { pointers, id, indices, draw_mode: _, count: _ } = self;
        let mut pointers = pointers;
        let ghost all = pointers@;
        let ghost start = registry@;
        let ghost mut bound: nat = 0;
        let mut calls = no_calls();
        loop
            invariant
                bound <= all_slots(),
                forall|slot: u32| slot < bound ==> !#[trigger] pointers@.contains_key(slot),
                forall|slot: u32|
                    bound <= slot ==> lookup(#[trigger] pointers@, slot) == lookup(all, slot),
                pointers@.dom().finite(),
                registry@ == released_below(all, start, bound),
                views(calls@) == deleted_below(all, start, bound),
            ensures
                registry@ == released_below(all, start, all_slots()),
                views(calls@) == deleted_below(all, start, all_slots()),
            decreases pointers@.dom().len(),
        {
            let ghost before = pointers@;
            match pop_first(&mut pointers) {
                Some((slot, buffer)) => {
                    proof {
                        assert(before.contains_key(slot));
                        assert forall|other: u32| bound <= other < slot implies !all.contains_key(
                            other,
                        ) by {
                            assert(lookup(before, other) == lookup(all, other));
                        }
                        lemma_empty_slots(all, start, bound, slot as nat);
                    }
                    release_previous(Some(buffer), registry, &mut calls);
                    proof {
                        bound = (slot + 1) as nat;
                        assert forall|other: u32| bound <= other implies lookup(
                            #[trigger] pointers@,
                            other,
                        ) == lookup(all, other) by {
                            assert(lookup(before, other) == lookup(all, other));
                        }
                    }
                },
                None => {
                    proof {
                        assert forall|other: u32| bound <= other < all_slots() implies
                            !all.contains_key(other) by {
                            assert(lookup(before, other) == lookup(all, other));
                        }
                        lemma_empty_slots(all, start, bound, all_slots());
                    }
                    break ;
                },
            }
        }
        if let Some(call) = id.release::<VertexArray>(registry) {
            push_call(&mut calls, call);
        }
        release_previous(indices, registry, &mut calls);
        calls
    }
}

} // verus!
