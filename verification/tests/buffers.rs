use gl_objects::buffer::Buffer;
use gl_objects::driver::{Call, Op};
use gl_objects::internal::Registry;

#[test]
fn a_buffer_keeps_its_target() {
    let mut registry = Registry::new();
    let vertices = Buffer::new(&mut registry, gl::ARRAY_BUFFER, 1);
    let indices = Buffer::new(&mut registry, gl::ELEMENT_ARRAY_BUFFER, 2);
    assert_eq!(vertices.target(), gl::ARRAY_BUFFER);
    assert_eq!(indices.target(), gl::ELEMENT_ARRAY_BUFFER);
    assert_eq!(vertices.id(), 1);
    assert_eq!(indices.id(), 2);
    assert_eq!(vertices.slot(), 0);
    assert_eq!(indices.slot(), 1);
}

#[test]
fn bind_and_unbind_name_the_target() {
    let mut registry = Registry::new();
    let buffer = Buffer::new(&mut registry, gl::ARRAY_BUFFER, 9);
    assert_eq!(buffer.bind(), Call::plain(Op::BindBuffer { target: gl::ARRAY_BUFFER, id: 9 }));
    assert_eq!(buffer.unbind(), Call::plain(Op::BindBuffer { target: gl::ARRAY_BUFFER, id: 0 }));
}

#[test]
fn set_data_binds_uploads_and_unbinds() {
    let mut registry = Registry::new();
    let buffer = Buffer::new(&mut registry, gl::ARRAY_BUFFER, 9);
    let calls = buffer.set_data(&[1, 2, 3, 4, 5], gl::STATIC_DRAW);
    assert_eq!(
        calls,
        vec![
            Call::plain(Op::BindBuffer { target: gl::ARRAY_BUFFER, id: 9 }),
            Call::with_data(
                Op::BufferData { target: gl::ARRAY_BUFFER, usage: gl::STATIC_DRAW },
                vec![1, 2, 3, 4, 5]
            ),
            Call::plain(Op::BindBuffer { target: gl::ARRAY_BUFFER, id: 0 }),
        ]
    );
}

#[test]
fn set_data_of_nothing_uploads_nothing() {
    let mut registry = Registry::new();
    let buffer = Buffer::new(&mut registry, gl::ELEMENT_ARRAY_BUFFER, 3);
    let calls = buffer.set_data(&[], gl::DYNAMIC_DRAW);
    assert_eq!(calls.len(), 3);
    assert_eq!(
        calls[1],
        Call::with_data(
            Op::BufferData { target: gl::ELEMENT_ARRAY_BUFFER, usage: gl::DYNAMIC_DRAW },
            vec![]
        )
    );
}

#[test]
fn set_data_passes_the_usage_hint_through() {
    let mut registry = Registry::new();
    let buffer = Buffer::new(&mut registry, gl::ARRAY_BUFFER, 3);
    for usage in [gl::STATIC_DRAW, gl::STREAM_READ, 0, u32::MAX] {
        let calls = buffer.set_data(&[0], usage);
        assert_eq!(calls[1].op, Op::BufferData { target: gl::ARRAY_BUFFER, usage });
    }
}
