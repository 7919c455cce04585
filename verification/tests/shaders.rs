use gl_objects::driver::{Call, Fault, Op, Reply, Status, Step};
use gl_objects::internal::Registry;
use gl_objects::shader::{Check, Compile, Link, Lookup, Program, Reflect, Shader};
use gl_objects::uniform::UniformType;

fn buffer_with(text: &[u8]) -> Vec<u8> {
    let mut buf = vec![0u8; 512];
    buf[..text.len()].copy_from_slice(text);
    buf
}

fn text(bytes: &[u8]) -> Reply {
    Reply::Text { buf: buffer_with(bytes), len: bytes.len() as i32 }
}

fn active(name: &[u8], size: i32, type_: u32) -> Reply {
    Reply::Active { name: buffer_with(name), len: name.len() as i32, size, type_ }
}

fn stages(registry: &mut Registry) -> (Shader, Shader) {
    let vertex = Shader::new(registry, gl::VERTEX_SHADER, 1);
    let fragment = Shader::new(registry, gl::FRAGMENT_SHADER, 2);
    (vertex, fragment)
}

fn linked(registry: &mut Registry, id: u32) -> Program {
    let (vertex, fragment) = stages(registry);
    let (link, _) = Program::new(registry, id, vertex, fragment);
    let link = match link.resume(&Reply::Value(1)) {
        Step::Ask(link, _) => link,
        _ => panic!("the program is not validated"),
    };
    match link.resume(&Reply::Value(1)) {
        Step::Done(program) => program,
        _ => panic!("the program is not complete"),
    }
}

fn listing(id: u32) -> Reflect {
    linked(&mut Registry::new(), id).get_attributes().0
}

#[test]
fn a_string_without_terminator_gets_one() {
    assert_eq!(Program::create_legal_str("abc"), "abc\0");
    assert_eq!(Program::create_legal_str(""), "\0");
    assert_eq!(Program::create_legal_str("a\0b"), "a\0b\0");
    assert_eq!(Program::create_legal_str("gr\u{fc}n"), "gr\u{fc}n\0");
}

#[test]
fn a_terminated_string_stays_as_it_is() {
    assert_eq!(Program::create_legal_str("abc\0"), "abc\0");
    assert_eq!(Program::create_legal_str("\0"), "\0");
    assert_eq!(Program::create_legal_str("abc\0\0"), "abc\0\0");
}

#[test]
fn assign_source_submits_compiles_and_asks() {
    let mut registry = Registry::new();
    let stage = Shader::new(&mut registry, gl::VERTEX_SHADER, 4);
    let (compile, calls) = stage.assign_source("void main() {}");
    assert_eq!(compile, Compile::Status { shader: 4 });
    assert_eq!(
        calls,
        vec![
            Call::with_data(Op::ShaderSource { id: 4 }, b"void main() {}\0".to_vec()),
            Call::plain(Op::CompileShader { id: 4 }),
            Call::plain(Op::GetShaderiv { id: 4, pname: gl::COMPILE_STATUS }),
        ]
    );
}

#[test]
fn assign_source_leaves_a_terminated_source_alone() {
    let mut registry = Registry::new();
    let stage = Shader::new(&mut registry, gl::VERTEX_SHADER, 4);
    let (_, calls) = stage.assign_source("void main() {}\0");
    assert_eq!(calls[0].data, b"void main() {}\0".to_vec());
}

#[test]
fn new_from_src_takes_the_stage_in_and_compiles() {
    let mut registry = Registry::new();
    let (stage, compile, calls) =
        Shader::new_from_src(&mut registry, gl::FRAGMENT_SHADER, 8, "void main() {}");
    assert_eq!(stage.id(), 8);
    assert_eq!(stage.kind(), gl::FRAGMENT_SHADER);
    assert_eq!(registry.owners(stage.slot()), 1);
    assert_eq!(compile, Compile::Status { shader: 8 });
    assert_eq!(calls.len(), 3);
    assert_eq!(calls[0], Call::with_data(Op::ShaderSource { id: 8 }, b"void main() {}\0".to_vec()));
    assert_eq!(calls[2], Call::plain(Op::GetShaderiv { id: 8, pname: gl::COMPILE_STATUS }));
}

#[test]
fn a_stage_that_compiled_is_done() {
    let compile = Compile::Status { shader: 4 };
    assert!(compile.accepts(&Reply::Value(gl::TRUE as i32)));
    assert!(matches!(compile.resume(&Reply::Value(gl::TRUE as i32)), Step::Done(())));
    assert!(matches!(compile.resume(&Reply::Value(-1)), Step::Done(())));
}

#[test]
fn a_stage_that_did_not_compile_aborts_with_its_log() {
    let compile = Compile::Status { shader: 4 };
    let compile = match compile.resume(&Reply::Value(gl::FALSE as i32)) {
        Step::Ask(compile, calls) => {
            assert_eq!(calls, vec![Call::plain(Op::GetShaderInfoLog { id: 4, capacity: 512 })]);
            compile
        }
        _ => panic!("the log was not asked for"),
    };
    assert_eq!(compile, Compile::Log);
    let reply = text(b"0:1: syntax error");
    assert!(compile.accepts(&reply));
    match compile.resume(&reply) {
        Step::Abort(fault) => {
            assert_eq!(fault, Fault::Compile { log: "0:1: syntax error".to_string() });
            assert_eq!(fault.message(), "Failed to Compile Shader: 0:1: syntax error");
        }
        _ => panic!("the compilation went on"),
    }
}

#[test]
fn a_log_that_is_no_text_is_read_with_replacements() {
    match Compile::Log.resume(&text(b"bad \xff byte")) {
        Step::Abort(fault) => assert_eq!(fault.message(), "Failed to Compile Shader: bad \u{fffd} byte"),
        _ => panic!("the compilation went on"),
    }
    match Compile::Log.resume(&text(b"")) {
        Step::Abort(fault) => assert_eq!(fault.message(), "Failed to Compile Shader: "),
        _ => panic!("the compilation went on"),
    }
}

#[test]
fn a_compilation_takes_only_the_answer_it_waits_for() {
    let status = Compile::Status { shader: 4 };
    assert!(!status.accepts(&Reply::Nothing));
    assert!(!status.accepts(&Reply::Id(4)));
    assert!(!status.accepts(&text(b"log")));
    assert!(!Compile::Log.accepts(&Reply::Value(0)));
    assert!(!Compile::Log.accepts(&Reply::Text { buf: vec![0; 512], len: 513 }));
    assert!(!Compile::Log.accepts(&Reply::Text { buf: vec![0; 512], len: -1 }));
    assert!(Compile::Log.accepts(&Reply::Text { buf: vec![0; 512], len: 512 }));
    assert!(Compile::Log.accepts(&Reply::Text { buf: vec![], len: 0 }));
}

#[test]
fn check_status_asks_for_the_status() {
    let (check, call) = Program::check_status(3, Status::Link);
    assert_eq!(check, Check::Status { program: 3, status: Status::Link });
    assert_eq!(call, Call::plain(Op::GetProgramiv { id: 3, pname: gl::LINK_STATUS }));
    let (check, call) = Program::check_status(3, Status::Validate);
    assert_eq!(check, Check::Status { program: 3, status: Status::Validate });
    assert_eq!(call, Call::plain(Op::GetProgramiv { id: 3, pname: gl::VALIDATE_STATUS }));
    assert_eq!(Status::Link.name(), "LinkStatus");
    assert_eq!(Status::Validate.name(), "ValidateStatus");
}

#[test]
fn a_check_that_fails_aborts_with_the_log() {
    let (check, _) = Program::check_status(3, Status::Validate);
    assert!(matches!(check.resume(&Reply::Value(1)), Step::Done(())));
    let check = match check.resume(&Reply::Value(0)) {
        Step::Ask(check, calls) => {
            assert_eq!(calls, vec![Call::plain(Op::GetProgramInfoLog { id: 3, capacity: 512 })]);
            check
        }
        _ => panic!("the log was not asked for"),
    };
    assert_eq!(check, Check::Log { status: Status::Validate });
    assert!(!check.accepts(&Reply::Value(0)));
    assert!(!check.accepts(&Reply::Text { buf: vec![0; 4], len: 5 }));
    match check.resume(&text(b"no vertex array")) {
        Step::Abort(fault) => {
            assert_eq!(
                fault,
                Fault::Status { status: Status::Validate, log: "no vertex array".to_string() }
            );
            assert_eq!(
                fault.message(),
                "Check of ValidateStatus for a program failed: Error: no vertex array"
            );
        }
        _ => panic!("the check went on"),
    }
}

#[test]
fn a_program_is_linked_then_validated() {
    let mut registry = Registry::new();
    let (vertex, fragment) = stages(&mut registry);
    let (link, calls) = Program::new(&mut registry, 3, vertex, fragment);
    assert_eq!(registry.len(), 3);
    assert_eq!(registry.owners(2), 1);
    assert_eq!(
        calls,
        vec![
            Call::plain(Op::AttachShader { program: 3, shader: 1 }),
            Call::plain(Op::AttachShader { program: 3, shader: 2 }),
            Call::plain(Op::LinkProgram { id: 3 }),
            Call::plain(Op::GetProgramiv { id: 3, pname: gl::LINK_STATUS }),
        ]
    );
    assert!(link.accepts(&Reply::Value(1)));
    assert!(!link.accepts(&Reply::Nothing));
    let link = match link.resume(&Reply::Value(gl::TRUE as i32)) {
        Step::Ask(link, calls) => {
            assert_eq!(
                calls,
                vec![
                    Call::plain(Op::ValidateProgram { id: 3 }),
                    Call::plain(Op::GetProgramiv { id: 3, pname: gl::VALIDATE_STATUS }),
                ]
            );
            link
        }
        _ => panic!("the program was not validated"),
    };
    assert!(matches!(link, Link::Validating { .. }));
    match link.resume(&Reply::Value(gl::TRUE as i32)) {
        Step::Done(program) => {
            assert_eq!(program.id(), 3);
            assert_eq!(program.bind(), Call::plain(Op::UseProgram { id: 3 }));
        }
        _ => panic!("the program is not complete"),
    }
}

#[test]
fn a_program_that_does_not_link_aborts() {
    let mut registry = Registry::new();
    let (vertex, fragment) = stages(&mut registry);
    let (link, _) = Program::new(&mut registry, 3, vertex, fragment);
    let link = match link.resume(&Reply::Value(gl::FALSE as i32)) {
        Step::Ask(link, calls) => {
            assert_eq!(calls, vec![Call::plain(Op::GetProgramInfoLog { id: 3, capacity: 512 })]);
            link
        }
        _ => panic!("the log was not asked for"),
    };
    assert!(matches!(link, Link::Linking { .. }));
    match link.resume(&text(b"undefined symbol")) {
        Step::Abort(fault) => assert_eq!(
            fault.message(),
            "Check of LinkStatus for a program failed: Error: undefined symbol"
        ),
        _ => panic!("the construction went on"),
    }
}

#[test]
fn a_program_that_does_not_validate_aborts() {
    let mut registry = Registry::new();
    let (vertex, fragment) = stages(&mut registry);
    let (link, _) = Program::new(&mut registry, 3, vertex, fragment);
    let link = match link.resume(&Reply::Value(1)) {
        Step::Ask(link, _) => link,
        _ => panic!("the program was not validated"),
    };
    let link = match link.resume(&Reply::Value(0)) {
        Step::Ask(link, calls) => {
            assert_eq!(calls, vec![Call::plain(Op::GetProgramInfoLog { id: 3, capacity: 512 })]);
            link
        }
        _ => panic!("the log was not asked for"),
    };
    match link.resume(&text(b"sampler clash")) {
        Step::Abort(fault) => assert_eq!(
            fault.message(),
            "Check of ValidateStatus for a program failed: Error: sampler clash"
        ),
        _ => panic!("the construction went on"),
    }
}

#[test]
fn a_program_releases_itself_and_then_its_stages() {
    let mut registry = Registry::new();
    let program = linked(&mut registry, 3);
    assert_eq!(
        program.release(&mut registry),
        vec![
            Call::plain(Op::DeleteProgram { id: 3 }),
            Call::plain(Op::DeleteShader { id: 1 }),
            Call::plain(Op::DeleteShader { id: 2 }),
        ]
    );
    assert_eq!(registry.owners(0), 0);
    assert_eq!(registry.owners(1), 0);
    assert_eq!(registry.owners(2), 0);
}

#[test]
fn a_stage_that_is_shared_outlives_its_program() {
    let mut registry = Registry::new();
    let (vertex, fragment) = stages(&mut registry);
    let kept = vertex.share(&mut registry);
    let (link, _) = Program::new(&mut registry, 3, vertex, fragment);
    let link = match link.resume(&Reply::Value(1)) {
        Step::Ask(link, _) => link,
        _ => panic!("the program was not validated"),
    };
    let program = match link.resume(&Reply::Value(1)) {
        Step::Done(program) => program,
        _ => panic!("the program is not complete"),
    };
    assert_eq!(
        program.release(&mut registry),
        vec![
            Call::plain(Op::DeleteProgram { id: 3 }),
            Call::plain(Op::DeleteShader { id: 2 }),
        ]
    );
    assert_eq!(kept.release(&mut registry), Some(Call::plain(Op::DeleteShader { id: 1 })));
}

#[test]
fn get_uniform_hands_the_terminated_name_to_the_driver() {
    let mut registry = Registry::new();
    let program = linked(&mut registry, 3);
    let (lookup, calls) = program.get_uniform("scale");
    assert_eq!(lookup, Lookup::Location { program: 3 });
    assert_eq!(calls, vec![Call::with_data(Op::GetUniformLocation { program: 3 }, b"scale\0".to_vec())]);
    let (_, calls) = program.get_uniform("scale\0");
    assert_eq!(calls[0].data, b"scale\0".to_vec());
}

#[test]
fn a_name_that_is_not_active_is_not_found() {
    let lookup = Lookup::Location { program: 3 };
    assert!(matches!(lookup.resume(&Reply::Value(-1)), Step::Done(None)));
    assert!(matches!(lookup.resume(&Reply::Value(i32::MIN)), Step::Done(None)));
}

#[test]
fn a_name_that_is_active_is_found_with_size_and_type() {
    let lookup = Lookup::Location { program: 3 };
    let lookup = match lookup.resume(&Reply::Value(5)) {
        Step::Ask(lookup, calls) => {
            assert_eq!(
                calls,
                vec![Call::plain(Op::GetActiveUniform { program: 3, index: 5, capacity: 512 })]
            );
            lookup
        }
        _ => panic!("the slot was not looked at"),
    };
    assert_eq!(lookup, Lookup::Active { location: 5 });
    match lookup.resume(&active(b"scale", 4, gl::FLOAT_VEC3)) {
        Step::Done(Some(uniform)) => {
            assert_eq!(uniform.location(), 5);
            assert_eq!(uniform.size(), 4);
            assert_eq!(uniform.kind(), UniformType::FloatVec3);
        }
        _ => panic!("the uniform was not found"),
    }
}

#[test]
fn slot_zero_is_a_slot() {
    let lookup = Lookup::Location { program: 3 };
    match lookup.resume(&Reply::Value(0)) {
        Step::Ask(lookup, calls) => {
            assert_eq!(lookup, Lookup::Active { location: 0 });
            assert_eq!(calls[0].op, Op::GetActiveUniform { program: 3, index: 0, capacity: 512 });
        }
        _ => panic!("the slot was not looked at"),
    }
}

#[test]
fn a_type_that_is_not_known_aborts_the_lookup() {
    let lookup = Lookup::Active { location: 5 };
    match lookup.resume(&active(b"odd", 1, gl::UNSIGNED_SHORT)) {
        Step::Abort(fault) => {
            assert_eq!(fault, Fault::UnexpectedType { code: gl::UNSIGNED_SHORT });
            assert_eq!(fault.message(), "Unexpected value 5123");
        }
        _ => panic!("the lookup went on"),
    }
}

#[test]
fn a_lookup_takes_only_the_answer_it_waits_for() {
    assert!(Lookup::Location { program: 3 }.accepts(&Reply::Value(0)));
    assert!(!Lookup::Location { program: 3 }.accepts(&active(b"a", 1, gl::FLOAT)));
    assert!(Lookup::Active { location: 3 }.accepts(&active(b"a", 1, gl::FLOAT)));
    assert!(Lookup::Active { location: 3 }
        .accepts(&Reply::Active { name: vec![], len: 77, size: 1, type_: gl::FLOAT }));
    assert!(!Lookup::Active { location: 3 }.accepts(&Reply::Value(0)));
}

#[test]
fn get_attributes_asks_how_many_there_are() {
    let mut registry = Registry::new();
    let program = linked(&mut registry, 3);
    let (reflect, calls) = program.get_attributes();
    assert!(reflect.accepts(&Reply::Value(2)));
    assert!(!reflect.accepts(&active(b"position", 1, gl::FLOAT_VEC2)));
    assert_eq!(calls, vec![Call::plain(Op::GetProgramiv { id: 3, pname: gl::ACTIVE_ATTRIBUTES })]);
}

#[test]
fn a_program_without_attributes_lists_none() {
    for count in [0, -1, i32::MIN] {
        match listing(3).resume(&Reply::Value(count)) {
            Step::Done(found) => assert!(found.is_empty()),
            _ => panic!("the listing went on"),
        }
    }
}

#[test]
fn attributes_are_listed_by_index() {
    let reflect = match listing(3).resume(&Reply::Value(3)) {
        Step::Ask(reflect, calls) => {
            assert_eq!(
                calls,
                vec![Call::plain(Op::GetActiveAttrib { program: 3, index: 0, capacity: 512 })]
            );
            reflect
        }
        _ => panic!("the first attribute was not asked for"),
    };
    assert!(reflect.accepts(&active(b"position", 1, gl::FLOAT_VEC2)));
    assert!(!reflect.accepts(&Reply::Value(1)));
    assert!(!reflect.accepts(&Reply::Active { name: vec![0; 8], len: 9, size: 1, type_: gl::FLOAT }));
    let reflect = match reflect.resume(&active(b"position", 1, gl::FLOAT_VEC2)) {
        Step::Ask(reflect, calls) => {
            assert_eq!(
                calls,
                vec![Call::plain(Op::GetActiveAttrib { program: 3, index: 1, capacity: 512 })]
            );
            reflect
        }
        _ => panic!("the second attribute was not asked for"),
    };
    let reflect = match reflect.resume(&active(b"colour", 1, gl::FLOAT_VEC4)) {
        Step::Ask(reflect, calls) => {
            assert_eq!(
                calls,
                vec![Call::plain(Op::GetActiveAttrib { program: 3, index: 2, capacity: 512 })]
            );
            reflect
        }
        _ => panic!("the third attribute was not asked for"),
    };
    match reflect.resume(&active(b"", 1, gl::FLOAT)) {
        Step::Done(found) => assert_eq!(
            found,
            vec![("position".to_string(), 0), ("colour".to_string(), 1), (String::new(), 2)]
        ),
        _ => panic!("the listing went on"),
    }
}

#[test]
fn one_attribute_is_listed_at_once() {
    let reflect = match listing(9).resume(&Reply::Value(1)) {
        Step::Ask(reflect, _) => reflect,
        _ => panic!("the first attribute was not asked for"),
    };
    match reflect.resume(&active(b"p\xc3\xa4", 1, gl::FLOAT)) {
        Step::Done(found) => assert_eq!(found, vec![("p\u{e4}".to_string(), 0)]),
        _ => panic!("the listing went on"),
    }
}
