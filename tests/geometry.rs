use gloom::bindable::Bindable;
use gloom::gl_state::{Bindings, BufferTarget, GlCall};
use gloom::triangle::Triangle;

#[test]
fn init_counts_indices_and_uploads_both_arrays() {
    let indices: Vec<u32> = vec![0, 1, 2];
    let (t, calls) = Triangle::init(1, [2, 3], 9, &indices);
    assert_eq!(t.count, 3);
    assert_eq!(
        calls,
        vec![
            GlCall::BindVertexArray(1),
            GlCall::BindBuffer(BufferTarget::Array, 2),
            GlCall::UploadBuffer(BufferTarget::Array, 36),
            GlCall::BindBuffer(BufferTarget::ElementArray, 3),
            GlCall::UploadBuffer(BufferTarget::ElementArray, 12),
            GlCall::EnableAttribute(0),
            GlCall::AttributeLayout { index: 0, components: 3, stride: 12 },
            GlCall::BindBuffer(BufferTarget::Array, 0),
            GlCall::BindBuffer(BufferTarget::ElementArray, 0),
            GlCall::BindVertexArray(0),
        ]
    );
    let mut b = Bindings::neutral();
    b.apply_all(&calls);
    assert_eq!(b, Bindings::neutral());
}

#[test]
fn bind_then_unbind_leaves_neutral_bindings() {
    let indices: Vec<u32> = vec![0, 1, 2];
    let (t, _) = Triangle::init(1, [2, 3], 9, &indices);
    let mut b = Bindings::neutral();
    b.apply_all(&t.bind());
    assert_eq!((b.vertex_array, b.array_buffer, b.element_buffer), (1, 2, 3));
    b.apply_all(&t.unbind());
    assert_eq!(b, Bindings::neutral());
}

#[test]
fn unbind_order_is_buffers_then_array() {
    let (t, _) = Triangle::init(4, [5, 6], 0, &Vec::new());
    assert_eq!(t.count, 0);
    assert_eq!(
        t.unbind(),
        vec![
            GlCall::BindBuffer(BufferTarget::Array, 0),
            GlCall::BindBuffer(BufferTarget::ElementArray, 0),
            GlCall::BindVertexArray(0),
        ]
    );
}

#[test]
fn repeated_init_and_release_frees_every_handle() {
    let indices: Vec<u32> = vec![0, 1, 2];
    let mut freed_buffers: Vec<u32> = Vec::new();
    let mut freed_arrays: Vec<u32> = Vec::new();
    for n in 0..4u32 {
        let (t, _) = Triangle::init(100 + n, [200 + 2 * n, 201 + 2 * n], 9, &indices);
        for c in t.release() {
            match c {
                GlCall::DeleteBuffers(a, b) => {
                    freed_buffers.push(a);
                    freed_buffers.push(b);
                }
                GlCall::DeleteVertexArray(v) => freed_arrays.push(v),
                other => panic!("unexpected call {:?}", other),
            }
        }
    }
    assert_eq!(freed_arrays, vec![100, 101, 102, 103]);
    assert_eq!(freed_buffers, vec![200, 201, 202, 203, 204, 205, 206, 207]);
}
