//! Shader stages and the programs linked from them.

use crate::codes;
use crate::driver::{
    no_calls, one_call, only_if, plain, push_call, push_plain, views, with_data, Call, CallView,
    Fault, FaultView, Move, Op, Reply, Status, Step, TEXT_CAPACITY,
};
use crate::internal::{adopted, frees, live, released, shared, RawId, RawIdManager, Registry};
use crate::text::{check_fits, fits, legal, text_of, written_text};
pub use crate::uniform::{Uniform, UniformContainer, UniformType, UniformValid};
use vstd::prelude::*;
use vstd::string::{StrSliceExecFns, StringExecFns};
use vstd::utf8::encode_utf8;

verus! {

/// The bytes that reach the driver for a string: its encoding, terminated.
pub open spec fn legal_bytes(s: Seq<char>) -> Seq<u8> {
    encode_utf8(legal(s))
}

/// One owner of a shader stage, with the kind of the stage.
pub struct Shader {
    type_: u32,
    id: RawId,
}

impl RawIdManager for Shader {
    /// None: the primitive that allocates a stage wants its kind.
    open spec fn create_op() -> Option<Op> {
        None
    }

    open spec fn delete_op(id: u32) -> Op {
        Op::DeleteShader { id }
    }

    fn create_resource() -> (r: Option<Call>) {
        None
    }

    fn delete_resource(id: u32) -> (r: Call) {
        Call::plain(Op::DeleteShader { id })
    }
}

/// A compilation that waits for the driver.
#[derive(Clone, Copy, Debug, PartialEq, Eq)]
pub enum Compile {
    /// The source was submitted; the answer wanted is the compile status.
    Status { shader: u32 },
    /// The stage did not compile; the answer wanted is its log.
    Log,
}

impl Compile {
    /// Whether `reply` is an answer of the form that the compilation waits
    /// for.
    pub open spec fn expects(self, reply: Reply) -> bool {
        match self {
            Compile::Status { .. } => reply is Value,
            Compile::Log => reply matches Reply::Text { buf, len } && fits(buf@, len as int),
        }
    }

    /// What the compilation does with the driver's answer: a status of zero
    /// asks for the log, any other status ends it, and the log ends it with
    /// the fault that carries the log's text.
    pub open spec fn next(self, reply: Reply) -> Move<Compile, ()> {
        match (self, reply) {
            (Compile::Status { shader }, Reply::Value(status)) => if status == 0 {
                Move::Ask(
                    Compile::Log,
                    seq![plain(Op::GetShaderInfoLog { id: shader, capacity: TEXT_CAPACITY })],
                )
            } else {
                Move::Done(())
            },
            (Compile::Log, Reply::Text { buf, len }) => Move::Abort(
                FaultView::Compile { log: written_text(buf@, len as int) },
            ),
            _ => arbitrary(),
        }
    }

    /// Whether `reply` is an answer of the form that the compilation waits
    /// for.
    pub fn accepts(&self, reply: &Reply) -> (r: bool)
        ensures
            r == self.expects(*reply),
    {
        match (self, reply) {
            (Compile::Status { .. }, Reply::Value(_)) => true,
            (Compile::Log, Reply::Text { buf, len }) => check_fits(buf.as_slice(), *len),
            _ => false,
        }
    }

    /// Goes on with the driver's answer to the last call.
    pub fn resume(self, reply: &Reply) -> (r: Step<Compile, ()>)
        requires
            self.expects(*reply),
        ensures
            r@ == self.next(*reply),
    {
        match (self, reply) {
            (Compile::Status { shader }, Reply::Value(status)) => {
                if *status == codes::gl_false() as i32 {
                    let query = Op::GetShaderInfoLog { id: shader, capacity: TEXT_CAPACITY };
                    Step::Ask(Compile::Log, one_call(Call::plain(query)))
                } else {
                    Step::Done(())
                }
            },
            (Compile::Log, Reply::Text { buf, len }) => Step::Abort(
                Fault::Compile { log: text_of(buf.as_slice(), *len) },
            ),
            _ => vstd::pervasive::unreached(),
        }
    }
}

impl Shader {
    /// The kind of the stage.
    pub closed spec fn spec_kind(&self) -> u32 {
        self.type_
    }

    /// The driver's identifier of the stage.
    pub closed spec fn spec_id(&self) -> u32 {
        self.id.spec_id()
    }

    /// The stage's slot in the registry.
    pub closed spec fn spec_slot(&self) -> int {
        self.id.spec_slot()
    }

    /// The calls that give the stage the source `src` and compile it, the
    /// last of which asks whether that went well.
    pub open spec fn compile_calls(&self, src: Seq<char>) -> Seq<CallView> {
        seq![
            with_data(Op::ShaderSource { id: self.spec_id() }, legal_bytes(src)),
            plain(Op::CompileShader { id: self.spec_id() }),
            plain(Op::GetShaderiv { id: self.spec_id(), pname: 0x8B81 }),
        ]
    }

    /// The call whose answer is the identifier of a new stage of the kind
    /// `type_`.
    pub fn creation(type_: u32) -> (r: Call)
        ensures
            r@ == plain(Op::CreateShader { type_ }),
    {
        Call::plain(Op::CreateShader { type_ })
    }

    /// Takes in the stage `id`, which the driver allocated in answer to
    /// `Shader::creation(type_)`.
    pub fn new(registry: &mut Registry, type_: u32, id: u32) -> (r: Shader)
        ensures
            r.spec_kind() == type_,
            r.spec_id() == id,
            r.spec_slot() == old(registry)@.len(),
            final(registry)@ == adopted(old(registry)@),
    {
        Shader { type_, id: RawId::from_id(registry, id) }
    }

    /// Takes in the stage `id` and begins to compile `src` for it.
    pub fn new_from_src(registry: &mut Registry, type_: u32, id: u32, src: &str) -> (r: (
        Shader,
        Compile,
        Vec<Call>,
    ))
        ensures
            r.0.spec_kind() == type_,
            r.0.spec_id() == id,
            r.0.spec_slot() == old(registry)@.len(),
            final(registry)@ == adopted(old(registry)@),
            r.1 == (Compile::Status { shader: id }),
            views(r.2@) == r.0.compile_calls(src@),
    {
        let out = Self::new(registry, type_, id);
        let (compile, calls) = out.assign_source(src);
        (out, compile, calls)
    }

    /// Begins to compile `src` for the stage: the calls that submit the
    /// source, terminated, compile it and ask for the outcome, and the
    /// compilation that takes the answer.
    pub fn assign_source(&self, src: &str) -> (r: (Compile, Vec<Call>))
        ensures
            r.0 == (Compile::Status { shader: self.spec_id() }),
            views(r.1@) == self.compile_calls(src@),
    {
        let text = Program::create_legal_str(src);
        let id = self.id.id();
        let mut calls = no_calls();
        push_call(
            &mut calls,
            Call::with_data(Op::ShaderSource { id }, text.as_str().as_bytes_vec()),
        );
        push_plain(&mut calls, Op::CompileShader { id });
        push_plain(&mut calls, Op::GetShaderiv { id, pname: codes::gl_compile_status() });
        (Compile::Status { shader: id }, calls)
    }

    /// The driver's identifier of the stage.
    #[verifier::when_used_as_spec(spec_id)]
    pub fn id(&self) -> (r: u32)
        ensures
            r == self.spec_id(),
    {
        self.id.id()
    }

    /// The kind of the stage.
    #[verifier::when_used_as_spec(spec_kind)]
    pub fn kind(&self) -> (r: u32)
        ensures
            r == self.spec_kind(),
    {
        self.type_
    }

    /// The stage's slot in the registry.
    pub fn slot(&self) -> (r: usize)
        ensures
            r == self.spec_slot(),
    {
        self.id.slot()
    }

    /// One more owner of the same stage.
    pub fn share(&self, registry: &mut Registry) -> (r: Shader)
        requires
            live(old(registry)@, self.spec_slot()) ==> old(registry)@[self.spec_slot()]
                < usize::MAX,
        ensures
            r == *self,
            final(registry)@ == shared(old(registry)@, self.spec_slot()),
    {
        Shader { type_: self.type_, id: self.id.share(registry) }
    }

    /// Gives up this owner. Where it was the last one, the result is the call
    /// that deletes the stage.
    pub fn release(self, registry: &mut Registry) -> (r: Option<Call>)
        ensures
            final(registry)@ == released(old(registry)@, self.spec_slot()),
            r is Some <==> frees(old(registry)@, self.spec_slot()),
            r matches Some(call) ==> call@ == plain(Op::DeleteShader { id: self.spec_id() }),
    {
        self.id.release::<Shader>(registry)
    }
}

/// One owner of a linked program, and with it of the two stages that the
/// program was linked from.
pub struct Program {
    id: RawId,
    vertex_shader: Shader,
    fragment_shader: Shader,
}

impl RawIdManager for Program {
    open spec fn create_op() -> Option<Op> {
        Some(Op::CreateProgram)
    }

    open spec fn delete_op(id: u32) -> Op {
        Op::DeleteProgram { id }
    }

    fn create_resource() -> (r: Option<Call>) {
        Some(Call::plain(Op::CreateProgram))
    }

    fn delete_resource(id: u32) -> (r: Call) {
        Call::plain(Op::DeleteProgram { id })
    }
}

/// A check of a program's status that waits for the driver.
#[derive(Clone, Copy, Debug, PartialEq, Eq)]
pub enum Check {
    /// The status was asked for; the answer wanted is its value.
    Status { program: u32, status: Status },
    /// The check failed; the answer wanted is the program's log.
    Log { status: Status },
}

impl Check {
    /// Whether `reply` is an answer of the form that the check waits for.
    pub open spec fn expects(self, reply: Reply) -> bool {
        match self {
            Check::Status { .. } => reply is Value,
            Check::Log { .. } => reply matches Reply::Text { buf, len } && fits(buf@, len as int),
        }
    }

    /// What the check does with the driver's answer: a status of zero asks
    /// for the log, any other status passes, and the log ends the check with
    /// the fault that names the status and carries the log's text.
    pub open spec fn next(self, reply: Reply) -> Move<Check, ()> {
        match (self, reply) {
            (Check::Status { program, status }, Reply::Value(value)) => if value == 0 {
                Move::Ask(
                    Check::Log { status },
                    seq![plain(Op::GetProgramInfoLog { id: program, capacity: TEXT_CAPACITY })],
                )
            } else {
                Move::Done(())
            },
            (Check::Log { status }, Reply::Text { buf, len }) => Move::Abort(
                FaultView::Status { status, log: written_text(buf@, len as int) },
            ),
            _ => arbitrary(),
        }
    }

    /// Whether `reply` is an answer of the form that the check waits for.
    pub fn accepts(&self, reply: &Reply) -> (r: bool)
        ensures
            r == self.expects(*reply),
    {
        match (self, reply) {
            (Check::Status { .. }, Reply::Value(_)) => true,
            (Check::Log { .. }, Reply::Text { buf, len }) => check_fits(buf.as_slice(), *len),
            _ => false,
        }
    }

    /// Goes on with the driver's answer to the last call.
    pub fn resume(self, reply: &Reply) -> (r: Step<Check, ()>)
        requires
            self.expects(*reply),
        ensures
            r@ == self.next(*reply),
    {
        match (self, reply) {
            (Check::Status { program, status }, Reply::Value(value)) => {
                if *value == codes::gl_false() as i32 {
                    let query = Op::GetProgramInfoLog { id: program, capacity: TEXT_CAPACITY };
                    Step::Ask(Check::Log { status }, one_call(Call::plain(query)))
                } else {
                    Step::Done(())
                }
            },
            (Check::Log { status }, Reply::Text { buf, len }) => Step::Abort(
                Fault::Status { status, log: text_of(buf.as_slice(), *len) },
            ),
            _ => vstd::pervasive::unreached(),
        }
    }
}

/// The construction of a program, waiting for the driver.
pub enum Link {
    /// The stages were attached and the program linked; the link status is
    /// being checked.
    Linking { check: Check, program: Program },
    /// The program linked and was validated; the validate status is being
    /// checked.
    Validating { check: Check, program: Program },
}

impl Link {
    /// The check that is under way.
    pub open spec fn check(self) -> Check {
        match self {
            Link::Linking { check, .. } => check,
            Link::Validating { check, .. } => check,
        }
    }

    /// The program under construction.
    pub open spec fn program(self) -> Program {
        match self {
            Link::Linking { program, .. } => program,
            Link::Validating { program, .. } => program,
        }
    }

    /// Whether `reply` is an answer of the form that the construction waits
    /// for.
    pub open spec fn expects(self, reply: Reply) -> bool {
        self.check().expects(reply)
    }

    /// What the construction does with the driver's answer. A check that
    /// fails ends it with the check's fault. Once the link status passes,
    /// the program is validated and the validate status checked; once that
    /// passes too, the program is complete.
    pub open spec fn next(self, reply: Reply) -> Move<Link, Program> {
        match self {
            Link::Linking { check, program } => match check.next(reply) {
                Move::Ask(check, calls) => Move::Ask(Link::Linking { check, program }, calls),
                Move::Abort(fault) => Move::Abort(fault),
                Move::Done(_) => Move::Ask(
                    Link::Validating {
                        check: Check::Status { program: program.spec_id(), status: Status::Validate },
                        program,
                    },
                    seq![
                        plain(Op::ValidateProgram { id: program.spec_id() }),
                        plain(
                            Op::GetProgramiv {
                                id: program.spec_id(),
                                pname: Status::Validate.spec_pname(),
                            },
                        ),
                    ],
                ),
            },
            Link::Validating { check, program } => match check.next(reply) {
                Move::Ask(check, calls) => Move::Ask(Link::Validating { check, program }, calls),
                Move::Abort(fault) => Move::Abort(fault),
                Move::Done(_) => Move::Done(program),
            },
        }
    }

    /// A program is complete only once its validate status was asked for and
    /// came back other than zero, and it is then the program that was under
    /// construction. A construction is given up only over a log, with the
    /// fault of the check that was under way.
    pub proof fn lemma_complete_only_when_validated(self, reply: Reply)
        requires
            self.expects(reply),
        ensures
            self.next(reply) matches Move::Done(program) ==> {
                &&& self is Validating
                &&& self.check() is Status
                &&& reply matches Reply::Value(value) && value != 0
                &&& program == self.program()
            },
            self.next(reply) matches Move::Abort(fault) ==> {
                &&& self.check() matches Check::Log { status }
                &&& reply matches Reply::Text { buf, len }
                &&& fault == (FaultView::Status { status, log: written_text(buf@, len as int) })
            },
            self.next(reply) matches Move::Ask(link, _) ==> link.program() == self.program(),
    {
    }

    /// Whether `reply` is an answer of the form that the construction waits
    /// for.
    pub fn accepts(&self, reply: &Reply) -> (r: bool)
        ensures
            r == self.expects(*reply),
    {
        match self {
            Link::Linking { check, .. } => check.accepts(reply),
            Link::Validating { check, .. } => check.accepts(reply),
        }
    }

    /// Goes on with the driver's answer to the last call.
    pub fn resume(self, reply: &Reply) -> (r: Step<Link, Program>)
        requires
            self.expects(*reply),
        ensures
            r@ == self.next(*reply),
    {
        match self {
            Link::Linking { check, program } => match check.resume(reply) {
                Step::Ask(check, calls) => Step::Ask(Link::Linking { check, program }, calls),
                Step::Abort(fault) => Step::Abort(fault),
                Step::Done(_) => {
                    let id = program.id.id();
                    let mut calls = no_calls();
                    push_plain(&mut calls, Op::ValidateProgram { id });
                    let (check, query) = Program::check_status(id, Status::Validate);
                    push_call(&mut calls, query);
                    assert(views(calls@) =~= seq![
                        plain(Op::ValidateProgram { id }),
                        plain(Op::GetProgramiv { id, pname: Status::Validate.spec_pname() }),
                    ]);
                    Step::Ask(Link::Validating { check, program }, calls)
                },
            },
            Link::Validating { check, program } => match check.resume(reply) {
                Step::Ask(check, calls) => Step::Ask(Link::Validating { check, program }, calls),
                Step::Abort(fault) => Step::Abort(fault),
                Step::Done(_) => Step::Done(program),
            },
        }
    }
}

/// The lookup of a uniform, waiting for the driver.
#[derive(Clone, Copy, Debug, PartialEq, Eq)]
pub enum Lookup {
    /// The name was handed to the driver; the answer wanted is the slot.
    Location { program: u32 },
    /// There is a slot; the answer wanted describes what is in it.
    Active { location: i32 },
}

impl Lookup {
    /// Whether `reply` is an answer of the form that the lookup waits for.
    pub open spec fn expects(self, reply: Reply) -> bool {
        match self {
            Lookup::Location { .. } => reply is Value,
            Lookup::Active { .. } => reply is Active,
        }
    }

    /// What the lookup does with the driver's answer. A negative slot ends
    /// it without a uniform; any other slot asks what is in it. The
    /// description ends the lookup with the uniform in that slot, of the size
    /// and type described, or with a fault where the type is none that the
    /// library knows.
    pub open spec fn next(self, reply: Reply) -> Move<Lookup, Option<Uniform>> {
        match (self, reply) {
            (Lookup::Location { program }, Reply::Value(location)) => if location < 0 {
                Move::Done(None)
            } else {
                Move::Ask(
                    Lookup::Active { location },
                    seq![
                        plain(
                            Op::GetActiveUniform {
                                program,
                                index: location as u32,
                                capacity: TEXT_CAPACITY,
                            },
                        ),
                    ],
                )
            },
            (Lookup::Active { location }, Reply::Active { size, type_, .. }) => {
                match UniformType::of(type_) {
                    Some(kind) => Move::Done(Some(Uniform::of(location, size, kind))),
                    None => Move::Abort(FaultView::UnexpectedType { code: type_ }),
                }
            },
            _ => arbitrary(),
        }
    }

    /// Whether `reply` is an answer of the form that the lookup waits for.
    pub fn accepts(&self, reply: &Reply) -> (r: bool)
        ensures
            r == self.expects(*reply),
    {
        match (self, reply) {
            (Lookup::Location { .. }, Reply::Value(_)) => true,
            (Lookup::Active { .. }, Reply::Active { .. }) => true,
            _ => false,
        }
    }

    /// Goes on with the driver's answer to the last call.
    pub fn resume(self, reply: &Reply) -> (r: Step<Lookup, Option<Uniform>>)
        requires
            self.expects(*reply),
        ensures
            r@ == self.next(*reply),
    {
        match (self, reply) {
            (Lookup::Location { program }, Reply::Value(location)) => {
                if *location < 0 {
                    Step::Done(None)
                } else {
                    let op = Op::GetActiveUniform {
                        program,
                        index: *location as u32,
                        capacity: TEXT_CAPACITY,
                    };
                    Step::Ask(Lookup::Active { location: *location }, one_call(Call::plain(op)))
                }
            },
            (Lookup::Active { location }, Reply::Active { size, type_, .. }) => {
                match UniformType::recognize(*type_) {
                    Some(kind) => Step::Done(Some(Uniform::new(location, *size, kind))),
                    None => Step::Abort(Fault::UnexpectedType { code: *type_ }),
                }
            },
            _ => vstd::pervasive::unreached(),
        }
    }
}

/// The names of attributes, each with its index.
pub open spec fn named(found: Seq<(String, i32)>) -> Seq<(Seq<char>, i32)> {
    found.map_values(|pair: (String, i32)| (pair.0@, pair.1))
}

/// The listing of a program's active attributes, waiting for the driver.
///
/// At first the number of attributes is asked for. Once it is known, the
/// attributes are asked for one by one, from index zero up.
pub struct Reflect {
    program: u32,
    count: Option<i32>,
    found: Vec<(String, i32)>,
}

/// What a [`Reflect`] is, mathematically.
pub enum ReflectView {
    /// The number of attributes was asked for.
    Count { program: u32 },
    /// There are `count` attributes, those in `found` are known, and the
    /// next one was asked for.
    Name { program: u32, count: i32, found: Seq<(Seq<char>, i32)> },
}

impl View for Reflect {
    type V = ReflectView;

    closed spec fn view(&self) -> ReflectView {
        match self.count {
            None => ReflectView::Count { program: self.program },
            Some(count) => ReflectView::Name {
                program: self.program,
                count,
                found: named(self.found@),
            },
        }
    }
}

/// A move of a listing, with the listing and its result as mathematical
/// values.
pub open spec fn listing_move(step: Step<Reflect, Vec<(String, i32)>>) -> Move<
    ReflectView,
    Seq<(Seq<char>, i32)>,
> {
    match step {
        Step::Ask(machine, calls) => Move::Ask(machine@, views(calls@)),
        Step::Done(found) => Move::Done(named(found@)),
        Step::Abort(fault) => Move::Abort(fault@),
    }
}

/// Whether every attribute stands at its index.
pub open spec fn in_order(found: Seq<(Seq<char>, i32)>) -> bool {
    forall|i: int| 0 <= i < found.len() ==> (#[trigger] found[i]).1 == i
}

impl ReflectView {
    /// Whether the listing is one that can come about: some attribute is
    /// still missing, and those known stand at their indices.
    pub open spec fn wf(self) -> bool {
        match self {
            ReflectView::Count { .. } => true,
            ReflectView::Name { count, found, .. } => found.len() < count && in_order(found),
        }
    }

    /// Whether `reply` is an answer of the form that the listing waits for.
    pub open spec fn expects(self, reply: Reply) -> bool {
        match self {
            ReflectView::Count { .. } => reply is Value,
            ReflectView::Name { .. } => reply matches Reply::Active { name, len, .. } && fits(
                name@,
                len as int,
            ),
        }
    }

    /// What the listing does with the driver's answer. A count that is not
    /// positive ends it with nothing; any other count asks for the first
    /// attribute. A description adds the attribute's name at the next index,
    /// and either asks for the attribute after it or, where that was the
    /// last, ends the listing with all of them.
    pub open spec fn next(self, reply: Reply) -> Move<ReflectView, Seq<(Seq<char>, i32)>> {
        match (self, reply) {
            (ReflectView::Count { program }, Reply::Value(count)) => if count <= 0 {
                Move::Done(Seq::empty())
            } else {
                Move::Ask(
                    ReflectView::Name { program, count, found: Seq::empty() },
                    seq![
                        plain(Op::GetActiveAttrib { program, index: 0, capacity: TEXT_CAPACITY }),
                    ],
                )
            },
            (ReflectView::Name { program, count, found }, Reply::Active { name, len, .. }) => {
                let all = found.push((written_text(name@, len as int), found.len() as i32));
                if all.len() == count {
                    Move::Done(all)
                } else {
                    Move::Ask(
                        ReflectView::Name { program, count, found: all },
                        seq![
                            plain(
                                Op::GetActiveAttrib {
                                    program,
                                    index: all.len() as u32,
                                    capacity: TEXT_CAPACITY,
                                },
                            ),
                        ],
                    )
                }
            },
            _ => arbitrary(),
        }
    }

    /// A listing that can come about stays one, and ends with one attribute
    /// for every index below the count, each at its index.
    pub proof fn lemma_next_keeps_order(self, reply: Reply)
        requires
            self.wf(),
            self.expects(reply),
        ensures
            match self.next(reply) {
                Move::Ask(machine, _) => machine.wf(),
                Move::Done(found) => in_order(found) && match self {
                    ReflectView::Count { .. } => found.len() == 0,
                    ReflectView::Name { count, .. } => found.len() == count,
                },
                Move::Abort(_) => false,
            },
    {
    }
}

impl Reflect {
    #[verifier::type_invariant]
    spec fn can_come_about(&self) -> bool {
        self@.wf() && (self.count is None ==> self.found@.len() == 0)
    }

    /// Whether `reply` is an answer of the form that the listing waits for.
    pub fn accepts(&self, reply: &Reply) -> (r: bool)
        ensures
            r == self@.expects(*reply),
    {
        match (&self.count, reply) {
            (None, Reply::Value(_)) => true,
            (Some(_), Reply::Active { name, len, .. }) => check_fits(name.as_slice(), *len),
            _ => false,
        }
    }

    /// Goes on with the driver's answer to the last call.
    pub fn resume(self, reply: &Reply) -> (r: Step<Reflect, Vec<(String, i32)>>)
        requires
            self@.expects(*reply),
        ensures
            listing_move(r) == self@.next(*reply),
            r matches Step::Done(found) ==> in_order(named(found@)),
    {
        proof {
            use_type_invariant(&self);
            self@.lemma_next_keeps_order(*reply);
        }
        let Reflect { program, count, found } = self;
        match (count, reply) {
            (None, Reply::Value(count)) => {
                assert(named(found@) =~= Seq::<(Seq<char>, i32)>::empty());
                if *count <= 0 {
                    Step::Done(found)
                } else {
                    let op = Op::GetActiveAttrib { program, index: 0, capacity: TEXT_CAPACITY };
                    let calls = one_call(Call::plain(op));
                    Step::Ask(Reflect { program, count: Some(*count), found }, calls)
                }
            },
            (Some(count), Reply::Active { name, len, .. }) => {
                let mut found = found;
                let ghost before = named(found@);
                let index = found.len() as i32;
                let text = text_of(name.as_slice(), *len);
                found.push((text, index));
                assert(named(found@) =~= before.push(
                    (written_text(name@, *len as int), before.len() as i32),
                ));
                if found.len() == count as usize {
                    Step::Done(found)
                } else {
                    let op = Op::GetActiveAttrib {
                        program,
                        index: found.len() as u32,
                        capacity: TEXT_CAPACITY,
                    };
                    let calls = one_call(Call::plain(op));
                    Step::Ask(Reflect { program, count: Some(count), found }, calls)
                }
            },
            _ => vstd::pervasive::unreached(),
        }
    }
}

impl Program {
    /// The driver's identifier of the program.
    pub closed spec fn spec_id(&self) -> u32 {
        self.id.spec_id()
    }

    /// The program's slot in the registry.
    pub closed spec fn spec_slot(&self) -> int {
        self.id.spec_slot()
    }

    /// The vertex stage that the program owns.
    pub closed spec fn vertex_shader(&self) -> Shader {
        self.vertex_shader
    }

    /// The fragment stage that the program owns.
    pub closed spec fn fragment_shader(&self) -> Shader {
        self.fragment_shader
    }

    /// The calls that attach the two stages and link, the last of which asks
    /// whether that went well.
    pub open spec fn link_calls(&self) -> Seq<CallView> {
        seq![
            plain(
                Op::AttachShader { program: self.spec_id(), shader: self.vertex_shader().spec_id() },
            ),
            plain(
                Op::AttachShader {
                    program: self.spec_id(),
                    shader: self.fragment_shader().spec_id(),
                },
            ),
            plain(Op::LinkProgram { id: self.spec_id() }),
            plain(Op::GetProgramiv { id: self.spec_id(), pname: Status::Link.spec_pname() }),
        ]
    }

    /// Takes in the program `id`, which the driver allocated in answer to
    /// `Program::create_resource()`, and begins to build it from the two
    /// stages, which it owns from now on: the calls that attach them, link
    /// and ask for the link status, and the construction that takes the
    /// answer.
    pub fn new(
        registry: &mut Registry,
        id: u32,
        vertex_shader: Shader,
        fragment_shader: Shader,
    ) -> (r: (Link, Vec<Call>))
        ensures
            final(registry)@ == adopted(old(registry)@),
            r.0 matches Link::Linking { check, program } && check == (Check::Status {
                program: id,
                status: Status::Link,
            }) && program.spec_id() == id && program.spec_slot() == old(registry)@.len()
                && program.vertex_shader() == vertex_shader && program.fragment_shader()
                == fragment_shader,
            views(r.1@) == r.0.program().link_calls(),
    {
        let handle = RawId::new::<Program>(registry, id);
        let mut calls = no_calls();
        push_plain(&mut calls, Op::AttachShader { program: id, shader: vertex_shader.id() });
        push_plain(&mut calls, Op::AttachShader { program: id, shader: fragment_shader.id() });
        push_plain(&mut calls, Op::LinkProgram { id });
        let (check, query) = Self::check_status(id, Status::Link);
        push_call(&mut calls, query);
        let program = Program { fragment_shader, vertex_shader, id: handle };
        (Link::Linking { check, program }, calls)
    }

    /// The call that makes the program the one that draws.
    pub fn bind(&self) -> (r: Call)
        ensures
            r@ == plain(Op::UseProgram { id: self.spec_id() }),
    {
        Call::plain(Op::UseProgram { id: self.id.id() })
    }

    /// Begins to list the program's active vertex attributes: the call that
    /// asks how many there are, and the listing that takes the answer.
    pub fn get_attributes(&self) -> (r: (Reflect, Vec<Call>))
        ensures
            r.0@ == (ReflectView::Count { program: self.spec_id() }),
            views(r.1@) == seq![
                plain(Op::GetProgramiv { id: self.spec_id(), pname: 0x8B89 }),
            ],
    {
        let id = self.id.id();
        let op = Op::GetProgramiv { id, pname: codes::gl_active_attributes() };
        let calls = one_call(Call::plain(op));
        let found: Vec<(String, i32)> = Vec::new();
        (Reflect { program: id, count: None, found }, calls)
    }

    /// Begins to look up the uniform `name`: the call that hands the name,
    /// terminated, to the driver, and the lookup that takes the answer.
    pub fn get_uniform(&self, name: &str) -> (r: (Lookup, Vec<Call>))
        ensures
            r.0 == (Lookup::Location { program: self.spec_id() }),
            views(r.1@) == seq![
                with_data(Op::GetUniformLocation { program: self.spec_id() }, legal_bytes(name@)),
            ],
    {
        let text = Self::create_legal_str(name);
        let id = self.id.id();
        let call = Call::with_data(
            Op::GetUniformLocation { program: id },
            text.as_str().as_bytes_vec(),
        );
        (Lookup::Location { program: id }, one_call(call))
    }

    /// Begins to check a status of the program `program`: the call that asks
    /// for it, and the check that takes the answer.
    pub fn check_status(program: u32, status: Status) -> (r: (Check, Call))
        ensures
            r.0 == (Check::Status { program, status }),
            r.1@ == plain(Op::GetProgramiv { id: program, pname: status.spec_pname() }),
    {
        (
            Check::Status { program, status },
            Call::plain(Op::GetProgramiv { id: program, pname: status.pname() }),
        )
    }

    /// The string with a terminator at its end: a copy of `value` where it
    /// ends in one, else a copy with one appended.
    pub fn create_legal_str(value: &str) -> (r: String)
        ensures
            r@ == legal(value@),
    {
        let n = value.unicode_len();
        if n > 0 && value.get_char(n - 1) == '\0' {
            String::from_str(value)
        } else {
            proof {
                reveal_strlit("\0");
            }
            String::from_str(value).concat("\0")
        }
    }

    /// The driver's identifier of the program.
    #[verifier::when_used_as_spec(spec_id)]
    pub fn id(&self) -> (r: u32)
        ensures
            r == self.spec_id(),
    {
        self.id.id()
    }

    /// The counts of a registry after the program and then its two stages
    /// lost one owner each.
    pub open spec fn released_from(&self, owners: Seq<nat>) -> Seq<nat> {
        released(
            released(released(owners, self.spec_slot()), self.vertex_shader().spec_slot()),
            self.fragment_shader().spec_slot(),
        )
    }

    /// The calls that delete what has no owner left once the program and
    /// then its two stages lost one owner each.
    pub open spec fn release_calls(&self, owners: Seq<nat>) -> Seq<CallView> {
        let first = released(owners, self.spec_slot());
        let second = released(first, self.vertex_shader().spec_slot());
        only_if(frees(owners, self.spec_slot()), plain(Op::DeleteProgram { id: self.spec_id() }))
            + only_if(
            frees(first, self.vertex_shader().spec_slot()),
            plain(Op::DeleteShader { id: self.vertex_shader().spec_id() }),
        ) + only_if(
            frees(second, self.fragment_shader().spec_slot()),
            plain(Op::DeleteShader { id: self.fragment_shader().spec_id() }),
        )
    }

    /// Gives up this owner of the program and with it one owner of each of
    /// the two stages. The result holds the calls that delete what is left
    /// without an owner.
    pub fn release(self, registry: &mut Registry) -> (r: Vec<Call>)
        ensures
            final(registry)@ == self.released_from(old(registry)@),
            views(r@) == self.release_calls(old(registry)@),
    {
        let mut calls = no_calls();
        let Program { id, vertex_shader, fragment_shader } = self;
        if let Some(call) = id.release::<Program>(registry) {
            push_call(&mut calls, call);
        }
        if let Some(call) = vertex_shader.release(registry) {
            push_call(&mut calls, call);
        }
        if let Some(call) = fragment_shader.release(registry) {
            push_call(&mut calls, call);
        }
        calls
    }
}

} // verus!
