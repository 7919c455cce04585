//! Calls to the graphics driver, as plain values.
//!
//! This library never reaches the driver itself. Every operation hands back
//! the calls that have to be made, in order, and where an operation depends on
//! what the driver answers it is a small state machine: it asks for calls to
//! be performed, is resumed with the answer to the last of them, and ends
//! either with its result or with a [`Fault`].

use crate::codes;
use crate::text::{decimal, to_decimal};
use vstd::prelude::*;
use vstd::string::StringExecFns;

verus! {

/// The driver's primitives that upload scalars and vectors to a uniform slot.
#[derive(Clone, Copy, Debug, PartialEq, Eq)]
pub enum Upload {
    Uniform1iv,
    Uniform2iv,
    Uniform3iv,
    Uniform4iv,
    Uniform1uiv,
    Uniform2uiv,
    Uniform3uiv,
    Uniform4uiv,
    Uniform1fv,
    Uniform2fv,
    Uniform3fv,
    Uniform4fv,
    Uniform1dv,
    Uniform2dv,
    Uniform3dv,
    Uniform4dv,
}

/// The driver's primitives that upload matrices to a uniform slot.
#[derive(Clone, Copy, Debug, PartialEq, Eq)]
pub enum MatrixUpload {
    Matrix2fv,
    Matrix3fv,
    Matrix4fv,
    Matrix2x3fv,
    Matrix2x4fv,
    Matrix3x2fv,
    Matrix3x4fv,
    Matrix4x2fv,
    Matrix4x3fv,
    Matrix2dv,
    Matrix3dv,
    Matrix4dv,
    Matrix2x3dv,
    Matrix2x4dv,
    Matrix3x2dv,
    Matrix3x4dv,
    Matrix4x2dv,
    Matrix4x3dv,
}

/// One driver primitive with its scalar arguments.
///
/// The memory that a primitive reads (buffer contents, source text, a name, a
/// uniform payload) travels beside it, in [`Call::data`]. Where the driver
/// wants the size of that memory it is the length of the data.
#[derive(Clone, Copy, Debug, PartialEq, Eq)]
pub enum Op {
    /// Allocates one buffer object; the answer is its identifier.
    CreateBuffers,
    DeleteBuffers { id: u32 },
    BindBuffer { target: u32, id: u32 },
    /// Replaces the contents of the buffer bound to `target` by the data.
    BufferData { target: u32, usage: u32 },
    /// Allocates one vertex array object; the answer is its identifier.
    CreateVertexArrays,
    DeleteVertexArrays { id: u32 },
    BindVertexArray { id: u32 },
    VertexAttribPointer { index: u32, size: i32, type_: u32, normalized: u8, stride: i32, offset: u32 },
    EnableVertexAttribArray { index: u32 },
    /// Indexed draw; `offset` is the byte offset into the bound index buffer.
    DrawElements { mode: u32, count: i32, type_: u32, offset: u32 },
    DrawArrays { mode: u32, first: i32, count: i32 },
    /// Allocates one shader stage of the given kind; the answer is its identifier.
    CreateShader { type_: u32 },
    DeleteShader { id: u32 },
    /// Submits the data, one terminated string, as the stage's source.
    ShaderSource { id: u32 },
    CompileShader { id: u32 },
    /// The answer is the value of the parameter.
    GetShaderiv { id: u32, pname: u32 },
    /// The answer is the text of the stage's log, in a buffer of `capacity` bytes.
    GetShaderInfoLog { id: u32, capacity: i32 },
    /// Allocates one program object; the answer is its identifier.
    CreateProgram,
    DeleteProgram { id: u32 },
    AttachShader { program: u32, shader: u32 },
    LinkProgram { id: u32 },
    ValidateProgram { id: u32 },
    /// The answer is the value of the parameter.
    GetProgramiv { id: u32, pname: u32 },
    /// The answer is the text of the program's log, in a buffer of `capacity` bytes.
    GetProgramInfoLog { id: u32, capacity: i32 },
    UseProgram { id: u32 },
    /// The answer describes the active attribute with that index.
    GetActiveAttrib { program: u32, index: u32, capacity: i32 },
    /// Looks up the uniform that the data, one terminated string, names; the
    /// answer is its slot, negative where there is none.
    GetUniformLocation { program: u32 },
    /// The answer describes the active uniform with that index.
    GetActiveUniform { program: u32, index: u32, capacity: i32 },
    /// Uploads `count` elements from the data to the slot `location`.
    Uniform { upload: Upload, location: i32, count: i32 },
    /// Uploads `count` matrices from the data to the slot `location`.
    UniformMatrix { matrix: MatrixUpload, location: i32, count: i32, transpose: u8 },
}

/// A call to the driver: the primitive and the memory it reads.
#[derive(Clone, Debug, PartialEq, Eq)]
pub struct Call {
    pub op: Op,
    pub data: Vec<u8>,
}

/// What a [`Call`] is, mathematically.
pub struct CallView {
    pub op: Op,
    pub data: Seq<u8>,
}

impl View for Call {
    type V = CallView;

    open spec fn view(&self) -> CallView {
        CallView { op: self.op, data: self.data@ }
    }
}

/// A call that passes no memory.
pub open spec fn plain(op: Op) -> CallView {
    CallView { op, data: Seq::empty() }
}

/// A call that passes `data`.
pub open spec fn with_data(op: Op, data: Seq<u8>) -> CallView {
    CallView { op, data }
}

/// One call, where a condition holds, and none where it does not.
pub open spec fn only_if(condition: bool, call: CallView) -> Seq<CallView> {
    if condition {
        seq![call]
    } else {
        Seq::empty()
    }
}

/// The calls of a list, each as a mathematical value.
pub open spec fn views(calls: Seq<Call>) -> Seq<CallView> {
    calls.map_values(|c: Call| c@)
}

/// The calls of a list with one more are those of the list, and that one.
pub proof fn lemma_views_push(calls: Seq<Call>, call: Call)
    ensures
        views(calls.push(call)) == views(calls).push(call@),
{
}

/// The calls of two lists on end are those of the first, then those of the
/// second.
pub proof fn lemma_views_add(a: Seq<Call>, b: Seq<Call>)
    ensures
        views(a + b) == views(a) + views(b),
{
}

impl Call {
    /// A call that passes no memory.
    pub fn plain(op: Op) -> (r: Call)
        ensures
            r@ == plain(op),
    {
        Call { op, data: Vec::new() }
    }

    /// A call that passes `data`.
    pub fn with_data(op: Op, data: Vec<u8>) -> (r: Call)
        ensures
            r@ == with_data(op, data@),
    {
        Call { op, data }
    }
}

/// An empty list of calls.
pub(crate) fn no_calls() -> (calls: Vec<Call>)
    ensures
        views(calls@) == Seq::<CallView>::empty(),
{
    Vec::new()
}

/// The list of one call.
pub(crate) fn one_call(call: Call) -> (calls: Vec<Call>)
    ensures
        views(calls@) == seq![call@],
{
    let mut calls = no_calls();
    push_call(&mut calls, call);
    calls
}

/// Appends a call without memory to a list of calls.
pub(crate) fn push_plain(calls: &mut Vec<Call>, op: Op)
    ensures
        views(final(calls)@) == views(old(calls)@).push(plain(op)),
{
    let call = Call::plain(op);
    proof {
        lemma_views_push(calls@, call);
    }
    calls.push(call);
}

/// Appends a call to a list of calls.
pub(crate) fn push_call(calls: &mut Vec<Call>, call: Call)
    ensures
        views(final(calls)@) == views(old(calls)@).push(call@),
{
    proof {
        lemma_views_push(calls@, call);
    }
    calls.push(call);
}

/// Appends a list of calls to another.
pub(crate) fn push_all(calls: &mut Vec<Call>, more: Vec<Call>)
    ensures
        views(final(calls)@) == views(old(calls)@) + views(more@),
{
    let mut more = more;
    proof {
        lemma_views_add(calls@, more@);
    }
    calls.append(&mut more);
}

/// What the driver answered to a call.
#[derive(Clone, Debug, PartialEq, Eq)]
pub enum Reply {
    /// The call has no result.
    Nothing,
    /// The identifier of the object that the call allocated.
    Id(u32),
    /// An integer: a status, a count or a slot.
    Value(i32),
    /// Text that the driver wrote into a buffer, and the length it reported.
    Text { buf: Vec<u8>, len: i32 },
    /// An active attribute or uniform: its name as the driver wrote it into a
    /// buffer, the length it reported, the array size and the type constant.
    Active { name: Vec<u8>, len: i32, size: i32, type_: u32 },
}

/// The size of the buffers that the driver writes logs and names into.
pub const TEXT_CAPACITY: i32 = 512;

/// A condition of a program that the driver can be asked about.
#[derive(Clone, Copy, Debug, PartialEq, Eq)]
pub enum Status {
    Link,
    Validate,
}

impl Status {
    /// The name of the condition in messages.
    pub open spec fn spec_name(self) -> Seq<char> {
        match self {
            Status::Link => "LinkStatus"@,
            Status::Validate => "ValidateStatus"@,
        }
    }

    /// The parameter by which the driver is asked about the condition.
    pub open spec fn spec_pname(self) -> u32 {
        match self {
            Status::Link => 0x8B82,
            Status::Validate => 0x8B83,
        }
    }

    /// The name of the condition in messages.
    pub fn name(self) -> (r: &'static str)
        ensures
            r@ == self.spec_name(),
    {
        match self {
            Status::Link => "LinkStatus",
            Status::Validate => "ValidateStatus",
        }
    }

    /// The parameter by which the driver is asked about the condition.
    pub fn pname(self) -> (r: u32)
        ensures
            r == self.spec_pname(),
    {
        match self {
            Status::Link => codes::gl_link_status(),
            Status::Validate => codes::gl_validate_status(),
        }
    }
}

/// One move of an operation that talks to the driver.
pub enum Step<M, T> {
    /// Perform the calls in order, then resume the machine with the driver's
    /// answer to the last of them.
    Ask(M, Vec<Call>),
    /// The operation is complete.
    Done(T),
    /// The operation cannot go on. What it held is given up as it is: the
    /// caller is expected to end with the fault's message.
    Abort(Fault),
}

/// What a [`Step`] is, mathematically.
pub enum Move<M, T> {
    Ask(M, Seq<CallView>),
    Done(T),
    Abort(FaultView),
}

impl<M, T> View for Step<M, T> {
    type V = Move<M, T>;

    open spec fn view(&self) -> Move<M, T> {
        match self {
            Step::Ask(machine, calls) => Move::Ask(*machine, views(calls@)),
            Step::Done(result) => Move::Done(*result),
            Step::Abort(fault) => Move::Abort(fault@),
        }
    }
}

/// Why an operation gave up.
#[derive(Clone, Debug, PartialEq, Eq)]
pub enum Fault {
    /// A stage did not compile; `log` is the driver's diagnostic.
    Compile { log: String },
    /// A check on a program failed; `log` is the driver's diagnostic.
    Status { status: Status, log: String },
    /// The driver reported a uniform type that is none of the known ones.
    UnexpectedType { code: u32 },
    /// A uniform that was asked for is not active in the program.
    Inactive { name: String },
    /// A buffer that is not meant for indices was offered as index buffer.
    NotElementBuffer,
    /// A value was offered for upload whose element type is not made of
    /// whole words.
    NotWordSized,
}

/// What a [`Fault`] is, mathematically.
pub enum FaultView {
    Compile { log: Seq<char> },
    Status { status: Status, log: Seq<char> },
    UnexpectedType { code: u32 },
    Inactive { name: Seq<char> },
    NotElementBuffer,
    NotWordSized,
}

impl View for Fault {
    type V = FaultView;

    open spec fn view(&self) -> FaultView {
        match self {
            Fault::Compile { log } => FaultView::Compile { log: log@ },
            Fault::Status { status, log } => FaultView::Status { status: *status, log: log@ },
            Fault::UnexpectedType { code } => FaultView::UnexpectedType { code: *code },
            Fault::Inactive { name } => FaultView::Inactive { name: name@ },
            Fault::NotElementBuffer => FaultView::NotElementBuffer,
            Fault::NotWordSized => FaultView::NotWordSized,
        }
    }
}

impl FaultView {
    /// The message that describes the fault to a person.
    pub open spec fn message(self) -> Seq<char> {
        match self {
            FaultView::Compile { log } => "Failed to Compile Shader: "@ + log,
            FaultView::Status { status, log } => "Check of "@ + status.spec_name()
                + " for a program failed: Error: "@ + log,
            FaultView::UnexpectedType { code } => "Unexpected value "@ + decimal(code as nat),
            FaultView::Inactive { name } => "Uniform is not active: "@ + name,
            FaultView::NotElementBuffer => "Buffer is not an element buffer!"@,
            FaultView::NotWordSized => "the size of type must be a multiple of 4"@,
        }
    }
}

impl Fault {
    /// The message that describes the fault to a person.
    pub fn message(&self) -> (r: String)
        ensures
            r@ == self@.message(),
    {
        match self {
            Fault::Compile { log } => String::from_str("Failed to Compile Shader: ").concat(
                log.as_str(),
            ),
            Fault::Status { status, log } => String::from_str("Check of ").concat(
                status.name(),
            ).concat(" for a program failed: Error: ").concat(log.as_str()),
            Fault::UnexpectedType { code } => String::from_str("Unexpected value ").concat(
                to_decimal(*code).as_str(),
            ),
            Fault::Inactive { name } => String::from_str("Uniform is not active: ").concat(
                name.as_str(),
            ),
            Fault::NotElementBuffer => String::from_str("Buffer is not an element buffer!"),
            Fault::NotWordSized => String::from_str("the size of type must be a multiple of 4"),
        }
    }
}

} // verus!
