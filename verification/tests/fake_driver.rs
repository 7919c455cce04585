use gl_objects::buffer::Buffer;
use gl_objects::driver::{Call, Fault, Op, Reply, Step};
use gl_objects::internal::{RawIdManager, Registry};
use gl_objects::shader::{Compile, Link, Lookup, Program, Reflect, Shader};
use gl_objects::uniform::{Container, Uniform, UniformType};
use gl_objects::vao::VertexArray;
use std::collections::HashMap;

/// A driver that keeps what it was told and answers from what it was given.
#[derive(Default)]
struct Fake {
    log: Vec<Call>,
    next: u32,
    created: Vec<u32>,
    deleted: Vec<u32>,
    bound: HashMap<u32, u32>,
    contents: HashMap<u32, Vec<u8>>,
    broken_source: Option<Vec<u8>>,
    compiled: HashMap<u32, bool>,
    uniforms: Vec<(Vec<u8>, i32, u32)>,
    attributes: Vec<Vec<u8>>,
}

fn written(text: &[u8]) -> Vec<u8> {
    let mut buf = vec![0u8; 512];
    buf[..text.len()].copy_from_slice(text);
    buf
}

impl Fake {
    fn create(&mut self) -> Reply {
        self.next += 1;
        self.created.push(self.next);
        Reply::Id(self.next)
    }

    fn delete(&mut self, id: u32) -> Reply {
        assert!(self.created.contains(&id), "{} was never created", id);
        assert!(!self.deleted.contains(&id), "{} is deleted twice", id);
        self.deleted.push(id);
        Reply::Nothing
    }

    fn perform(&mut self, call: &Call) -> Reply {
        self.log.push(call.clone());
        match call.op {
            Op::CreateBuffers | Op::CreateVertexArrays | Op::CreateProgram => self.create(),
            Op::CreateShader { .. } => self.create(),
            Op::DeleteBuffers { id }
            | Op::DeleteVertexArrays { id }
            | Op::DeleteShader { id }
            | Op::DeleteProgram { id } => self.delete(id),
            Op::BindBuffer { target, id } => {
                self.bound.insert(target, id);
                Reply::Nothing
            }
            Op::BufferData { target, .. } => {
                let id = self.bound[&target];
                assert_ne!(id, 0, "no buffer is bound");
                self.contents.insert(id, call.data.clone());
                Reply::Nothing
            }
            Op::ShaderSource { id } => {
                assert_eq!(call.data.last(), Some(&0));
                let ok = self.broken_source.as_ref() != Some(&call.data);
                self.compiled.insert(id, ok);
                Reply::Nothing
            }
            Op::GetShaderiv { id, pname } => {
                assert_eq!(pname, gl::COMPILE_STATUS);
                Reply::Value(self.compiled[&id] as i32)
            }
            Op::GetShaderInfoLog { capacity, .. } => {
                assert_eq!(capacity, 512);
                Reply::Text { buf: written(b"0:1: unexpected end"), len: 19 }
            }
            Op::GetProgramiv { pname, .. } => {
                if pname == gl::ACTIVE_ATTRIBUTES {
                    Reply::Value(self.attributes.len() as i32)
                } else {
                    Reply::Value(1)
                }
            }
            Op::GetUniformLocation { .. } => {
                let found = self.uniforms.iter().position(|(name, _, _)| {
                    call.data[..call.data.len() - 1] == name[..]
                });
                Reply::Value(found.map_or(-1, |i| i as i32))
            }
            Op::GetActiveUniform { index, .. } => {
                let (name, size, type_) = &self.uniforms[index as usize];
                Reply::Active { name: written(name), len: name.len() as i32, size: *size, type_: *type_ }
            }
            Op::GetActiveAttrib { index, .. } => {
                let name = &self.attributes[index as usize];
                Reply::Active { name: written(name), len: name.len() as i32, size: 1, type_: gl::FLOAT }
            }
            _ => Reply::Nothing,
        }
    }

    fn perform_all(&mut self, calls: &[Call]) -> Reply {
        let mut last = Reply::Nothing;
        for call in calls {
            last = self.perform(call);
        }
        last
    }

    fn allocate(&mut self, call: Call) -> u32 {
        match self.perform(&call) {
            Reply::Id(id) => id,
            _ => panic!("nothing was allocated"),
        }
    }

    fn buffer(&mut self, registry: &mut Registry, target: u32) -> Buffer {
        let id = self.allocate(Buffer::create_resource().unwrap());
        Buffer::new(registry, target, id)
    }

    fn vertex_array(&mut self, registry: &mut Registry) -> VertexArray {
        let id = self.allocate(VertexArray::create_resource().unwrap());
        VertexArray::new(registry, id)
    }

    fn compile(&mut self, mut compile: Compile, mut calls: Vec<Call>) -> Result<(), Fault> {
        loop {
            let reply = self.perform_all(&calls);
            assert!(compile.accepts(&reply));
            match compile.resume(&reply) {
                Step::Ask(next, more) => {
                    compile = next;
                    calls = more;
                }
                Step::Done(()) => return Ok(()),
                Step::Abort(fault) => return Err(fault),
            }
        }
    }

    fn shader(&mut self, registry: &mut Registry, kind: u32, src: &str) -> Result<Shader, Fault> {
        let id = self.allocate(Shader::creation(kind));
        let (shader, compile, calls) = Shader::new_from_src(registry, kind, id, src);
        self.compile(compile, calls).map(|_| shader)
    }

    fn program(&mut self, registry: &mut Registry, vertex: Shader, fragment: Shader) -> Program {
        let id = self.allocate(Program::create_resource().unwrap());
        let (mut link, mut calls) = Program::new(registry, id, vertex, fragment);
        loop {
            let reply = self.perform_all(&calls);
            assert!(link.accepts(&reply));
            match link.resume(&reply) {
                Step::Ask(next, more) => {
                    link = next;
                    calls = more;
                }
                Step::Done(program) => return program,
                Step::Abort(fault) => panic!("{}", fault.message()),
            }
        }
    }

    fn uniform(&mut self, program: &Program, name: &str) -> Result<Option<Uniform>, Fault> {
        let (mut lookup, mut calls): (Lookup, Vec<Call>) = program.get_uniform(name);
        loop {
            let reply = self.perform_all(&calls);
            assert!(lookup.accepts(&reply));
            match lookup.resume(&reply) {
                Step::Ask(next, more) => {
                    lookup = next;
                    calls = more;
                }
                Step::Done(found) => return Ok(found),
                Step::Abort(fault) => return Err(fault),
            }
        }
    }

    fn attributes(&mut self, program: &Program) -> Vec<(String, i32)> {
        let (mut reflect, mut calls): (Reflect, Vec<Call>) = program.get_attributes();
        loop {
            let reply = self.perform_all(&calls);
            assert!(reflect.accepts(&reply));
            match reflect.resume(&reply) {
                Step::Ask(next, more) => {
                    reflect = next;
                    calls = more;
                }
                Step::Done(found) => return found,
                Step::Abort(fault) => panic!("{}", fault.message()),
            }
        }
    }
}

fn bytes_of_floats(values: &[f32]) -> Vec<u8> {
    values.iter().flat_map(|v| v.to_ne_bytes()).collect()
}

fn bytes_of_shorts(values: &[u16]) -> Vec<u8> {
    values.iter().flat_map(|v| v.to_ne_bytes()).collect()
}

const VERTEX: &str = "#version 450\nin vec2 position;\nvoid main() { gl_Position = vec4(position, 0.0, 1.0); }";
const FRAGMENT: &str = "#version 450\nout vec4 colour;\nvoid main() { colour = vec4(1.0); }";

#[test]
fn every_allocation_is_released_once_and_not_before_its_last_owner() {
    let mut fake = Fake::default();
    let mut registry = Registry::new();
    let shared = fake.buffer(&mut registry, gl::ARRAY_BUFFER);
    let alone = fake.buffer(&mut registry, gl::ARRAY_BUFFER);
    let indices = fake.buffer(&mut registry, gl::ELEMENT_ARRAY_BUFFER);
    let mut first = fake.vertex_array(&mut registry);
    let mut second = fake.vertex_array(&mut registry);
    let shared_id = shared.id();
    let in_second = shared.share(&mut registry);
    let calls = first.set_pointer(&mut registry, 0, shared, 2, gl::FLOAT, false, 0, 0);
    fake.perform_all(&calls);
    let calls = first.set_pointer(&mut registry, 1, alone, 2, gl::FLOAT, false, 0, 0);
    fake.perform_all(&calls);
    let calls = second.set_pointer(&mut registry, 0, in_second, 2, gl::FLOAT, false, 0, 0);
    fake.perform_all(&calls);
    let calls = second.add_indices(&mut registry, indices, 3);
    fake.perform_all(&calls);
    assert!(fake.deleted.is_empty());

    let calls = first.release(&mut registry);
    fake.perform_all(&calls);
    assert_eq!(fake.deleted.len(), 2);
    assert!(!fake.deleted.contains(&shared_id));

    let calls = second.release(&mut registry);
    fake.perform_all(&calls);
    assert!(fake.deleted.contains(&shared_id));

    let mut created = fake.created.clone();
    let mut deleted = fake.deleted.clone();
    created.sort();
    deleted.sort();
    assert_eq!(created.len(), 5);
    assert_eq!(created, deleted);
    for slot in 0..registry.len() {
        assert_eq!(registry.owners(slot), 0);
    }
}

#[test]
fn what_set_data_uploads_reads_back_byte_for_byte() {
    let mut fake = Fake::default();
    let mut registry = Registry::new();
    let buffer = fake.buffer(&mut registry, gl::ARRAY_BUFFER);

    let floats = [0.0f32, -1.5, 3.25, f32::MAX, f32::MIN_POSITIVE];
    fake.perform_all(&buffer.set_data(&bytes_of_floats(&floats), gl::STATIC_DRAW));
    let back: Vec<f32> = fake.contents[&buffer.id()]
        .chunks(4)
        .map(|c| f32::from_ne_bytes([c[0], c[1], c[2], c[3]]))
        .collect();
    assert_eq!(back, floats);
    assert_eq!(fake.bound[&gl::ARRAY_BUFFER], 0);

    let shorts = [0u16, 1, 2, 65535, 256];
    fake.perform_all(&buffer.set_data(&bytes_of_shorts(&shorts), gl::STATIC_DRAW));
    assert_eq!(fake.contents[&buffer.id()], bytes_of_shorts(&shorts));
    let back: Vec<u16> =
        fake.contents[&buffer.id()].chunks(2).map(|c| u16::from_ne_bytes([c[0], c[1]])).collect();
    assert_eq!(back, shorts);

    let longs = [i64::MIN, -1, 0, 1, i64::MAX];
    let bytes: Vec<u8> = longs.iter().flat_map(|v| v.to_ne_bytes()).collect();
    fake.perform_all(&buffer.set_data(&bytes, gl::DYNAMIC_DRAW));
    assert_eq!(fake.contents[&buffer.id()], bytes);
    assert_eq!(fake.contents[&buffer.id()].len(), 5 * 8);

    let all: Vec<u8> = (0..=255u8).collect();
    fake.perform_all(&buffer.set_data(&all, gl::STATIC_DRAW));
    assert_eq!(fake.contents[&buffer.id()], all);
}

#[test]
fn a_source_that_does_not_compile_stops_with_the_drivers_log() {
    let mut fake = Fake::default();
    let mut registry = Registry::new();
    fake.broken_source = Some(b"void main() {\0".to_vec());
    assert!(fake.shader(&mut registry, gl::VERTEX_SHADER, VERTEX).is_ok());
    match fake.shader(&mut registry, gl::VERTEX_SHADER, "void main() {") {
        Err(fault) => assert_eq!(fault.message(), "Failed to Compile Shader: 0:1: unexpected end"),
        Ok(_) => panic!("a broken source compiled"),
    }
    let asked = fake.log.iter().filter(|c| matches!(c.op, Op::GetShaderInfoLog { .. })).count();
    assert_eq!(asked, 1);
}

#[test]
fn uniforms_are_found_by_name_with_the_type_the_driver_reports() {
    let mut fake = Fake::default();
    let mut registry = Registry::new();
    fake.uniforms = vec![
        (b"scale".to_vec(), 1, gl::FLOAT),
        (b"lights".to_vec(), 8, gl::FLOAT_VEC4),
        (b"view".to_vec(), 1, gl::DOUBLE_MAT3x4),
        (b"atlas".to_vec(), 1, gl::SAMPLER_2D_ARRAY),
        (b"odd".to_vec(), 1, gl::TEXTURE_2D),
    ];
    let vertex = fake.shader(&mut registry, gl::VERTEX_SHADER, VERTEX).unwrap();
    let fragment = fake.shader(&mut registry, gl::FRAGMENT_SHADER, FRAGMENT).unwrap();
    let program = fake.program(&mut registry, vertex, fragment);

    assert_eq!(fake.uniform(&program, "missing"), Ok(None));
    assert_eq!(fake.uniform(&program, ""), Ok(None));
    let lights = fake.uniform(&program, "lights").unwrap().unwrap();
    assert_eq!((lights.location(), lights.size(), lights.kind()), (1, 8, UniformType::FloatVec4));
    let view = fake.uniform(&program, "view\0").unwrap().unwrap();
    assert_eq!((view.location(), view.size(), view.kind()), (2, 1, UniformType::DoubleMat3x4));
    let atlas = fake.uniform(&program, "atlas").unwrap().unwrap();
    assert_eq!(atlas.kind(), UniformType::Sampler2DArray);
    assert_eq!(fake.uniform(&program, "odd"), Err(Fault::UnexpectedType { code: gl::TEXTURE_2D }));
}

#[test]
fn attributes_are_listed_with_their_indices() {
    let mut fake = Fake::default();
    let mut registry = Registry::new();
    let vertex = fake.shader(&mut registry, gl::VERTEX_SHADER, VERTEX).unwrap();
    let fragment = fake.shader(&mut registry, gl::FRAGMENT_SHADER, FRAGMENT).unwrap();
    let program = fake.program(&mut registry, vertex, fragment);
    assert!(fake.attributes(&program).is_empty());
    fake.attributes = vec![b"position".to_vec(), b"normal".to_vec(), b"uv".to_vec()];
    assert_eq!(
        fake.attributes(&program),
        vec![("position".to_string(), 0), ("normal".to_string(), 1), ("uv".to_string(), 2)]
    );
}

#[test]
fn a_triangle_is_drawn_with_one_call_of_each_kind_in_order() {
    let mut fake = Fake::default();
    let mut registry = Registry::new();

    let vertices = fake.buffer(&mut registry, gl::ARRAY_BUFFER);
    let positions = [-1.0f32, -1.0, 1.0, -1.0, 0.0, 1.0];
    fake.perform_all(&vertices.set_data(&bytes_of_floats(&positions), gl::STATIC_DRAW));
    let indices = fake.buffer(&mut registry, gl::ELEMENT_ARRAY_BUFFER);
    fake.perform_all(&indices.set_data(&bytes_of_shorts(&[0, 1, 2]), gl::STATIC_DRAW));
    let index_buffer = indices.id();

    let mut array = fake.vertex_array(&mut registry);
    let calls = array.set_pointer(&mut registry, 0, vertices, 2, gl::FLOAT, false, 0, 0);
    fake.perform_all(&calls);
    assert!(VertexArray::check_indices(&indices).is_ok());
    let calls = array.add_indices(&mut registry, indices, 3);
    fake.perform_all(&calls);

    let vertex = fake.shader(&mut registry, gl::VERTEX_SHADER, VERTEX).unwrap();
    let fragment = fake.shader(&mut registry, gl::FRAGMENT_SHADER, FRAGMENT).unwrap();
    let program = fake.program(&mut registry, vertex, fragment);

    array.set_draw_mode(gl::TRIANGLES);
    array.set_count(3);
    fake.log.clear();
    fake.perform_all(&array.draw(&program, &Container::new()));

    assert_eq!(
        fake.log,
        vec![
            Call::plain(Op::UseProgram { id: program.id() }),
            Call::plain(Op::BindVertexArray { id: array.id() }),
            Call::plain(Op::BindBuffer { target: gl::ELEMENT_ARRAY_BUFFER, id: index_buffer }),
            Call::plain(Op::DrawElements {
                mode: gl::TRIANGLES,
                count: 3,
                type_: gl::UNSIGNED_SHORT,
                offset: 0,
            }),
            Call::plain(Op::BindBuffer { target: gl::ELEMENT_ARRAY_BUFFER, id: 0 }),
        ]
    );
    let count = |wanted: fn(&Op) -> bool| fake.log.iter().filter(|c| wanted(&c.op)).count();
    assert_eq!(count(|op| matches!(op, Op::UseProgram { .. })), 1);
    assert_eq!(count(|op| matches!(op, Op::BindVertexArray { .. })), 1);
    assert_eq!(count(|op| matches!(op, Op::BindBuffer { id, .. } if *id != 0)), 1);
    assert_eq!(count(|op| matches!(op, Op::DrawElements { .. })), 1);
    assert_eq!(count(|op| matches!(op, Op::DrawArrays { .. })), 0);
}
