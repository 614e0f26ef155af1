use vstd::prelude::*;
use crate::bindable::Bindable;
use crate::gl_state::{
    deleted_arrays, deleted_buffers, lemma_deleted_concat, lemma_run_concat, run, BufferTarget,
    Bindings, GlCall,
};
use crate::helpers;

verus! {

broadcast use vstd::layout::layout_of_primitives;

/// Bytes in one 32-bit float.
pub const FLOAT_BYTES: i32 = 4;

/// Floats per vertex position.
pub const COMPONENTS: i32 = 3;

/// The calls that upload geometry and describe its layout: bind the vertex
/// array, upload the vertices and the indices through their buffers, enable
/// attribute 0 as tightly packed 3-component floats, then unbind all three.
pub open spec fn init_calls(vertex_array: u32, buffers: [u32; 2], vertex_bytes: isize, index_bytes: isize) -> Seq<GlCall> {
    seq![
        GlCall::BindVertexArray(vertex_array),
        GlCall::BindBuffer(BufferTarget::Array, buffers@[0]),
        GlCall::UploadBuffer(BufferTarget::Array, vertex_bytes),
        GlCall::BindBuffer(BufferTarget::ElementArray, buffers@[1]),
        GlCall::UploadBuffer(BufferTarget::ElementArray, index_bytes),
        GlCall::EnableAttribute(0),
        GlCall::AttributeLayout { index: 0, components: 3, stride: 12 },
        GlCall::BindBuffer(BufferTarget::Array, 0),
        GlCall::BindBuffer(BufferTarget::ElementArray, 0),
        GlCall::BindVertexArray(0),
    ]
}

/// No vertex array and no buffer bound.
pub open spec fn geometry_neutral(b: Bindings) -> bool {
    b.vertex_array == 0 && b.array_buffer == 0 && b.element_buffer == 0
}

/// Geometry held by the GPU: a vertex array and its vertex and index buffers.
pub struct Triangle {
    id: u32,
    b_ids: [u32; 2],
    pub count: i32,
}

impl Triangle {
    pub const VERT_INDX: usize = 0;
    pub const INDC_INDX: usize = 1;

    /// The number of indices that a draw call reads.
    pub closed spec fn element_count(&self) -> int {
        self.count as int
    }

    /// The vertex array's handle.
    pub closed spec fn vertex_array(&self) -> u32 {
        self.id
    }

    /// The vertex buffer's and the index buffer's handles.
    pub closed spec fn buffers(&self) -> [u32; 2] {
        self.b_ids
    }

    /// Geometry on the freshly generated vertex array `vertex_array` and
    /// buffers `buffers` (vertex buffer, then index buffer), for `vertex_len`
    /// floats of vertex data and the given indices; with the calls that upload
    /// both and leave every binding neutral.
    pub fn init(vertex_array: u32, buffers: [u32; 2], vertex_len: usize, indices: &Vec<u32>) -> (r: (Triangle, Vec<GlCall>))
        requires
            vertex_len * 4 <= isize::MAX,
            indices@.len() <= i32::MAX,
            indices@.len() * 4 <= isize::MAX,
        ensures
            r.0.element_count() == indices@.len(),
            r.0.vertex_array() == vertex_array,
            r.0.buffers() == buffers,
            r.1@ == init_calls(vertex_array, buffers, (vertex_len * 4) as isize, (indices@.len() * 4) as isize),
    {
        let vertex_bytes = (vertex_len * 4) as isize;
        assert(vstd::layout::size_of::<u32>() == 4);
        let index_bytes = helpers::byte_size_of_array(indices.as_slice());
        let stride = COMPONENTS * FLOAT_BYTES;
        let calls = vec![
            GlCall::BindVertexArray(vertex_array),
            GlCall::BindBuffer(BufferTarget::Array, buffers[Triangle::VERT_INDX]),
            GlCall::UploadBuffer(BufferTarget::Array, vertex_bytes),
            GlCall::BindBuffer(BufferTarget::ElementArray, buffers[Triangle::INDC_INDX]),
            GlCall::UploadBuffer(BufferTarget::ElementArray, index_bytes),
            GlCall::EnableAttribute(0),
            GlCall::AttributeLayout { index: 0, components: COMPONENTS, stride },
            GlCall::BindBuffer(BufferTarget::Array, 0),
            GlCall::BindBuffer(BufferTarget::ElementArray, 0),
            GlCall::BindVertexArray(0),
        ];
        assert(calls@ =~= init_calls(vertex_array, buffers, (vertex_len * 4) as isize, (indices@.len() * 4) as isize));
        (Triangle { id: vertex_array, b_ids: buffers, count: indices.len() as i32 }, calls)
    }

    /// The calls that release both buffers and the vertex array. Taking the
    /// geometry by value makes this happen at most once.
    pub fn release(self) -> (r: Vec<GlCall>)
        ensures
            r@ == release_calls(self),
    {
        let r = vec![
            GlCall::DeleteBuffers(self.b_ids[Triangle::VERT_INDX], self.b_ids[Triangle::INDC_INDX]),
            GlCall::DeleteVertexArray(self.id),
        ];
        assert(r@ =~= release_calls(self));
        r
    }
}

impl Bindable for Triangle {
    open spec fn bind_calls(&self) -> Seq<GlCall> {
        seq![
            GlCall::BindVertexArray(self.vertex_array()),
            GlCall::BindBuffer(BufferTarget::Array, self.buffers()@[0]),
            GlCall::BindBuffer(BufferTarget::ElementArray, self.buffers()@[1]),
        ]
    }

    open spec fn unbind_calls(&self) -> Seq<GlCall> {
        seq![
            GlCall::BindBuffer(BufferTarget::Array, 0),
            GlCall::BindBuffer(BufferTarget::ElementArray, 0),
            GlCall::BindVertexArray(0),
        ]
    }

    fn bind(&self) -> (r: Vec<GlCall>) {
        let r = vec![
            GlCall::BindVertexArray(self.id),
            GlCall::BindBuffer(BufferTarget::Array, self.b_ids[Triangle::VERT_INDX]),
            GlCall::BindBuffer(BufferTarget::ElementArray, self.b_ids[Triangle::INDC_INDX]),
        ];
        assert(r@ =~= self.bind_calls());
        r
    }

    fn unbind(&self) -> (r: Vec<GlCall>) {
        let r = vec![
            GlCall::BindBuffer(BufferTarget::Array, 0),
            GlCall::BindBuffer(BufferTarget::ElementArray, 0),
            GlCall::BindVertexArray(0),
        ];
        assert(r@ =~= self.unbind_calls());
        r
    }
}

/// Binding geometry makes its vertex array and both buffers current; unbinding
/// it afterwards leaves every geometry binding point at the neutral handle.
pub proof fn lemma_bind_unbind_neutral(t: Triangle, b: Bindings)
    ensures
        run(b, t.bind_calls()).vertex_array == t.vertex_array(),
        run(b, t.bind_calls()).array_buffer == t.buffers()@[0],
        run(b, t.bind_calls()).element_buffer == t.buffers()@[1],
        geometry_neutral(run(b, t.bind_calls() + t.unbind_calls())),
        run(b, t.bind_calls() + t.unbind_calls()).program == b.program,
{
    reveal_with_fuel(run, 4);
    let bc = t.bind_calls();
    let uc = t.unbind_calls();
    assert(bc.drop_last().drop_last().drop_last() =~= Seq::<GlCall>::empty());
    assert(uc.drop_last().drop_last().drop_last() =~= Seq::<GlCall>::empty());
    lemma_run_concat(b, bc, uc);
}

/// The upload calls leave every geometry binding point at the neutral handle,
/// whatever was bound before.
pub proof fn lemma_init_leaves_neutral(vertex_array: u32, buffers: [u32; 2], vertex_bytes: isize, index_bytes: isize, b: Bindings)
    ensures
        geometry_neutral(run(b, init_calls(vertex_array, buffers, vertex_bytes, index_bytes))),
{
    let c = init_calls(vertex_array, buffers, vertex_bytes, index_bytes);
    let tail = seq![
        GlCall::BindBuffer(BufferTarget::Array, 0),
        GlCall::BindBuffer(BufferTarget::ElementArray, 0),
        GlCall::BindVertexArray(0),
    ];
    assert(c =~= c.take(7) + tail);
    lemma_run_concat(b, c.take(7), tail);
    reveal_with_fuel(run, 4);
    assert(tail.drop_last().drop_last().drop_last() =~= Seq::<GlCall>::empty());
}

/// Uploading geometry and then releasing it deletes exactly its two buffers
/// and its vertex array, each once, and nothing else.
pub proof fn lemma_init_release_frees_all(t: Triangle, vertex_bytes: isize, index_bytes: isize)
    ensures
        ({
            let calls = init_calls(t.vertex_array(), t.buffers(), vertex_bytes, index_bytes) + release_calls(t);
            deleted_buffers(calls) == seq![t.buffers()@[0], t.buffers()@[1]]
                && deleted_arrays(calls) == seq![t.vertex_array()]
        }),
{
    let c = init_calls(t.vertex_array(), t.buffers(), vertex_bytes, index_bytes);
    let d = release_calls(t);
    lemma_deleted_concat(c, d);
    reveal_with_fuel(deleted_buffers, 11);
    reveal_with_fuel(deleted_arrays, 11);
    assert(deleted_buffers(c) =~= Seq::<u32>::empty());
    assert(deleted_arrays(c) =~= Seq::<u32>::empty());
    assert(d.drop_last().drop_last() =~= Seq::<GlCall>::empty());
    assert(deleted_buffers(d) =~= seq![t.buffers()@[0], t.buffers()@[1]]);
    assert(deleted_arrays(d) =~= seq![t.vertex_array()]);
    assert(deleted_buffers(c) + deleted_buffers(d) =~= deleted_buffers(d));
    assert(deleted_arrays(c) + deleted_arrays(d) =~= deleted_arrays(d));
}

/// The calls that release geometry (those of `Triangle::release`).
pub open spec fn release_calls(t: Triangle) -> Seq<GlCall> {
    seq![
        GlCall::DeleteBuffers(t.buffers()@[0], t.buffers()@[1]),
        GlCall::DeleteVertexArray(t.vertex_array()),
    ]
}

/// Geometry uploaded and then released, once for each element of `ts`, in order.
pub open spec fn cycle_calls(ts: Seq<Triangle>, vertex_bytes: isize, index_bytes: isize) -> Seq<GlCall>
    decreases ts.len(),
{
    if ts.len() == 0 {
        Seq::empty()
    } else {
        let t = ts.last();
        cycle_calls(ts.drop_last(), vertex_bytes, index_bytes)
            + init_calls(t.vertex_array(), t.buffers(), vertex_bytes, index_bytes) + release_calls(t)
    }
}

/// The buffer handles of each geometry, in order.
pub open spec fn all_buffers(ts: Seq<Triangle>) -> Seq<u32>
    decreases ts.len(),
{
    if ts.len() == 0 {
        Seq::empty()
    } else {
        all_buffers(ts.drop_last()).push(ts.last().buffers()@[0]).push(ts.last().buffers()@[1])
    }
}

/// Uploading and releasing geometry any number of times deletes every buffer
/// and every vertex array that was handed to an upload, each exactly once,
/// and nothing else.
pub proof fn lemma_repeated_cycles_free_all(ts: Seq<Triangle>, vertex_bytes: isize, index_bytes: isize)
    ensures
        deleted_buffers(cycle_calls(ts, vertex_bytes, index_bytes)) == all_buffers(ts),
        deleted_arrays(cycle_calls(ts, vertex_bytes, index_bytes)) == ts.map_values(|t: Triangle| t.vertex_array()),
    decreases ts.len(),
{
    if ts.len() == 0 {
        assert(ts.map_values(|t: Triangle| t.vertex_array()) =~= Seq::<u32>::empty());
    } else {
        let t = ts.last();
        let rest = ts.drop_last();
        let prev = cycle_calls(rest, vertex_bytes, index_bytes);
        let one = init_calls(t.vertex_array(), t.buffers(), vertex_bytes, index_bytes) + release_calls(t);
        lemma_repeated_cycles_free_all(rest, vertex_bytes, index_bytes);
        lemma_init_release_frees_all(t, vertex_bytes, index_bytes);
        assert(prev + init_calls(t.vertex_array(), t.buffers(), vertex_bytes, index_bytes) + release_calls(t) =~= prev + one);
        lemma_deleted_concat(prev, one);
        assert(all_buffers(rest) + seq![t.buffers()@[0], t.buffers()@[1]] =~= all_buffers(ts));
        assert(rest.map_values(|t: Triangle| t.vertex_array()) + seq![t.vertex_array()]
            =~= ts.map_values(|t: Triangle| t.vertex_array()));
    }
}

} // verus!
