//! Buffer objects: driver memory that holds vertex or index data.

use crate::driver::{
    no_calls, only_if, plain, push_call, views, with_data, Call, CallView, Op,
};
use crate::internal::{adopted, frees, live, released, shared, RawId, RawIdManager, Registry};
use vstd::prelude::*;
use vstd::slice::slice_to_vec;

verus! {

/// One owner of a buffer object, with the binding point that the buffer is
/// meant for.
pub struct Buffer {
    target: u32,
    id: RawId,
}

impl RawIdManager for Buffer {
    open spec fn create_op() -> Option<Op> {
        Some(Op::CreateBuffers)
    }

    open spec fn delete_op(id: u32) -> Op {
        Op::DeleteBuffers { id }
    }

    fn create_resource() -> (r: Option<Call>) {
        Some(Call::plain(Op::CreateBuffers))
    }

    fn delete_resource(id: u32) -> (r: Call) {
        Call::plain(Op::DeleteBuffers { id })
    }
}

impl Buffer {
    /// The binding point that the buffer is meant for.
    pub closed spec fn spec_target(&self) -> u32 {
        self.target
    }

    /// The driver's identifier of the buffer.
    pub closed spec fn spec_id(&self) -> u32 {
        self.id.spec_id()
    }

    /// The buffer's slot in the registry.
    pub closed spec fn spec_slot(&self) -> int {
        self.id.spec_slot()
    }

    /// The call that makes the buffer current on its binding point.
    pub open spec fn bind_call(&self) -> CallView {
        plain(Op::BindBuffer { target: self.spec_target(), id: self.spec_id() })
    }

    /// The call that leaves the buffer's binding point without a buffer.
    pub open spec fn unbind_call(&self) -> CallView {
        plain(Op::BindBuffer { target: self.spec_target(), id: 0 })
    }

    /// The calls that replace the buffer's contents by `data`.
    pub open spec fn upload_calls(&self, data: Seq<u8>, usage: u32) -> Seq<CallView> {
        seq![
            self.bind_call(),
            with_data(Op::BufferData { target: self.spec_target(), usage }, data),
            self.unbind_call(),
        ]
    }

    /// Takes in the buffer `id`, which the driver allocated in answer to
    /// `Buffer::create_resource()`, for the binding point `target`.
    pub fn new(registry: &mut Registry, target: u32, id: u32) -> (r: Buffer)
        ensures
            r.spec_target() == target,
            r.spec_id() == id,
            r.spec_slot() == old(registry)@.len(),
            final(registry)@ == adopted(old(registry)@),
    {
        Buffer { target, id: RawId::new::<Buffer>(registry, id) }
    }

    /// The calls that replace the whole contents of the buffer by the bytes
    /// of `data`, as they are: bind, upload, unbind. `usage` goes to the
    /// driver unread.
    pub fn set_data(&self, data: &[u8], usage: u32) -> (r: Vec<Call>)
        ensures
            views(r@) == self.upload_calls(data@, usage),
    {
        let mut calls = no_calls();
        push_call(&mut calls, self.bind());
        push_call(
            &mut calls,
            Call::with_data(Op::BufferData { target: self.target, usage }, slice_to_vec(data)),
        );
        push_call(&mut calls, self.unbind());
        calls
    }

    /// The binding point that the buffer is meant for.
    #[verifier::when_used_as_spec(spec_target)]
    pub fn target(&self) -> (r: u32)
        ensures
            r == self.spec_target(),
    {
        self.target
    }

    /// The driver's identifier of the buffer.
    #[verifier::when_used_as_spec(spec_id)]
    pub fn id(&self) -> (r: u32)
        ensures
            r == self.spec_id(),
    {
        self.id.id()
    }

    /// The buffer's slot in the registry.
    pub fn slot(&self) -> (r: usize)
        ensures
            r == self.spec_slot(),
    {
        self.id.slot()
    }

    /// The call that makes the buffer current on its binding point.
    pub fn bind(&self) -> (r: Call)
        ensures
            r@ == self.bind_call(),
    {
        Call::plain(Op::BindBuffer { target: self.target, id: self.id.id() })
    }

    /// The call that leaves the buffer's binding point without a buffer.
    pub fn unbind(&self) -> (r: Call)
        ensures
            r@ == self.unbind_call(),
    {
        Call::plain(Op::BindBuffer { target: self.target, id: 0 })
    }

    /// One more owner of the same buffer.
    pub fn share(&self, registry: &mut Registry) -> (r: Buffer)
        requires
            live(old(registry)@, self.spec_slot()) ==> old(registry)@[self.spec_slot()]
                < usize::MAX,
        ensures
            r == *self,
            final(registry)@ == shared(old(registry)@, self.spec_slot()),
    {
        Buffer { target: self.target, id: self.id.share(registry) }
    }

    /// Gives up this owner. Where it was the last one, the result is the call
    /// that deletes the buffer.
    pub fn release(self, registry: &mut Registry) -> (r: Option<Call>)
        ensures
            final(registry)@ == released(old(registry)@, self.spec_slot()),
            r is Some <==> frees(old(registry)@, self.spec_slot()),
            r matches Some(call) ==> call@ == plain(Op::DeleteBuffers { id: self.spec_id() }),
    {
        self.id.release::<Buffer>(registry)
    }
}

/// The owner counts after a buffer, if there is one, got one more owner.
pub open spec fn joined(buffer: Option<Buffer>, owners: Seq<nat>) -> Seq<nat> {
    match buffer {
        Some(buffer) => shared(owners, buffer.spec_slot()),
        None => owners,
    }
}

/// The owner counts after a buffer that was put aside, if there was one,
/// lost its owner.
pub open spec fn without(previous: Option<Buffer>, owners: Seq<nat>) -> Seq<nat> {
    match previous {
        Some(buffer) => released(owners, buffer.spec_slot()),
        None => owners,
    }
}

/// The call that deletes a buffer that was put aside, where there was one
/// and it has no other owner.
pub open spec fn dropped(previous: Option<Buffer>, owners: Seq<nat>) -> Seq<CallView> {
    match previous {
        Some(buffer) => only_if(
            frees(owners, buffer.spec_slot()),
            plain(Op::DeleteBuffers { id: buffer.spec_id() }),
        ),
        None => Seq::empty(),
    }
}

/// Releases a buffer that was put aside, if there was one, and appends the
/// call that deletes it where it had no other owner.
pub(crate) fn release_previous(previous: Option<Buffer>, registry: &mut Registry, calls: &mut Vec<Call>)
    ensures
        final(registry)@ == without(previous, old(registry)@),
        views(final(calls)@) == views(old(calls)@) + dropped(previous, old(registry)@),
{
    if let Some(buffer) = previous {
        if let Some(call) = buffer.release(registry) {
            push_call(calls, call);
        }
    }
}

} // verus!
