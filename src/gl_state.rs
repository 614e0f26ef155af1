use vstd::prelude::*;

verus! {

/// The two buffer binding points that geometry uses.
#[derive(Clone, Copy, Debug, PartialEq, Eq, Structural)]
pub enum BufferTarget {
    /// Per-vertex attribute data.
    Array,
    /// Indices of an indexed draw.
    ElementArray,
}

/// One call into the graphics driver. The library decides which calls are made
/// and in what order; whoever owns the GPU context performs them in sequence.
#[derive(Clone, Copy, Debug, PartialEq, Eq, Structural)]
pub enum GlCall {
    /// Make the given program active (0: none).
    UseProgram(u32),
    /// Query the active program and keep its handle in the executor's save slot.
    SaveProgram,
    /// Make the program in the save slot active again.
    RestoreProgram,
    /// Assign the caller's value to the uniform at `location` of the active
    /// program; a matrix is passed with a count of 1 and not transposed.
    AssignUniform { location: i32, matrix: bool },
    /// Read the driver's error code; the caller hands it back to the library.
    ReadError,
    /// Bind a vertex array (0: none).
    BindVertexArray(u32),
    /// Bind a buffer to a binding point (0: none).
    BindBuffer(BufferTarget, u32),
    /// Upload the caller's data for that binding point, of the given byte size,
    /// as static data.
    UploadBuffer(BufferTarget, isize),
    /// Enable the generic vertex attribute with this index.
    EnableAttribute(u32),
    /// Describe an attribute as `components` 32-bit floats, not normalized,
    /// `stride` bytes apart, starting at offset 0 of the bound array buffer.
    AttributeLayout { index: u32, components: i32, stride: i32 },
    /// Attach a compiled shader stage to a program.
    AttachShader { program: u32, shader: u32 },
    /// Link a program.
    LinkProgram(u32),
    /// Release a compiled shader stage.
    DeleteShader(u32),
    /// Release two buffers.
    DeleteBuffers(u32, u32),
    /// Release a vertex array.
    DeleteVertexArray(u32),
    /// Release a program.
    DeleteProgram(u32),
}

/// The driver's binding points that the library's calls touch, plus the
/// executor's save slot for the active program.
#[derive(Clone, Copy, Debug, PartialEq, Eq, Structural)]
pub struct Bindings {
    pub program: u32,
    pub saved_program: u32,
    pub vertex_array: u32,
    pub array_buffer: u32,
    pub element_buffer: u32,
}

/// The bindings after one call.
pub open spec fn step(b: Bindings, c: GlCall) -> Bindings {
    match c {
        GlCall::UseProgram(p) => Bindings { program: p, ..b },
        GlCall::SaveProgram => Bindings { saved_program: b.program, ..b },
        GlCall::RestoreProgram => Bindings { program: b.saved_program, ..b },
        GlCall::BindVertexArray(v) => Bindings { vertex_array: v, ..b },
        GlCall::BindBuffer(BufferTarget::Array, h) => Bindings { array_buffer: h, ..b },
        GlCall::BindBuffer(BufferTarget::ElementArray, h) => Bindings { element_buffer: h, ..b },
        _ => b,
    }
}

/// The bindings after a sequence of calls, performed in order.
pub open spec fn run(b: Bindings, calls: Seq<GlCall>) -> Bindings
    decreases calls.len(),
{
    if calls.len() == 0 {
        b
    } else {
        step(run(b, calls.drop_last()), calls.last())
    }
}

/// Every buffer handle that the calls release, in order.
pub open spec fn deleted_buffers(calls: Seq<GlCall>) -> Seq<u32>
    decreases calls.len(),
{
    if calls.len() == 0 {
        Seq::empty()
    } else {
        let rest = deleted_buffers(calls.drop_last());
        match calls.last() {
            GlCall::DeleteBuffers(a, b) => rest.push(a).push(b),
            _ => rest,
        }
    }
}

/// Every vertex-array handle that the calls release, in order.
pub open spec fn deleted_arrays(calls: Seq<GlCall>) -> Seq<u32>
    decreases calls.len(),
{
    if calls.len() == 0 {
        Seq::empty()
    } else {
        let rest = deleted_arrays(calls.drop_last());
        match calls.last() {
            GlCall::DeleteVertexArray(v) => rest.push(v),
            _ => rest,
        }
    }
}

/// Every shader-stage handle that the calls release, in order.
pub open spec fn deleted_shaders(calls: Seq<GlCall>) -> Seq<u32>
    decreases calls.len(),
{
    if calls.len() == 0 {
        Seq::empty()
    } else {
        let rest = deleted_shaders(calls.drop_last());
        match calls.last() {
            GlCall::DeleteShader(s) => rest.push(s),
            _ => rest,
        }
    }
}

/// Performing two sequences one after the other is performing their concatenation.
pub proof fn lemma_run_concat(b: Bindings, s1: Seq<GlCall>, s2: Seq<GlCall>)
    ensures
        run(b, s1 + s2) == run(run(b, s1), s2),
    decreases s2.len(),
{
    if s2.len() == 0 {
        assert(s1 + s2 =~= s1);
    } else {
        assert((s1 + s2).drop_last() =~= s1 + s2.drop_last());
        lemma_run_concat(b, s1, s2.drop_last());
    }
}

/// Releases named by a concatenation are those of the first part, then those of the second.
pub proof fn lemma_deleted_concat(s1: Seq<GlCall>, s2: Seq<GlCall>)
    ensures
        deleted_buffers(s1 + s2) == deleted_buffers(s1) + deleted_buffers(s2),
        deleted_arrays(s1 + s2) == deleted_arrays(s1) + deleted_arrays(s2),
        deleted_shaders(s1 + s2) == deleted_shaders(s1) + deleted_shaders(s2),
    decreases s2.len(),
{
    if s2.len() == 0 {
        assert(s1 + s2 =~= s1);
        assert(deleted_buffers(s1) + deleted_buffers(s2) =~= deleted_buffers(s1));
        assert(deleted_arrays(s1) + deleted_arrays(s2) =~= deleted_arrays(s1));
        assert(deleted_shaders(s1) + deleted_shaders(s2) =~= deleted_shaders(s1));
    } else {
        assert((s1 + s2).drop_last() =~= s1 + s2.drop_last());
        assert((s1 + s2).last() == s2.last());
        lemma_deleted_concat(s1, s2.drop_last());
        let r = deleted_buffers(s2.drop_last());
        let a = deleted_arrays(s2.drop_last());
        let h = deleted_shaders(s2.drop_last());
        match s2.last() {
            GlCall::DeleteBuffers(x, y) => {
                assert(deleted_buffers(s1) + r.push(x).push(y) =~= (deleted_buffers(s1) + r).push(x).push(y));
            },
            GlCall::DeleteVertexArray(v) => {
                assert(deleted_arrays(s1) + a.push(v) =~= (deleted_arrays(s1) + a).push(v));
            },
            GlCall::DeleteShader(s) => {
                assert(deleted_shaders(s1) + h.push(s) =~= (deleted_shaders(s1) + h).push(s));
            },
            _ => {},
        }
    }
}

impl Bindings {
    /// Nothing bound, nothing saved.
    pub fn neutral() -> (r: Bindings)
        ensures
            r == (Bindings { program: 0, saved_program: 0, vertex_array: 0, array_buffer: 0, element_buffer: 0 }),
    {
        Bindings { program: 0, saved_program: 0, vertex_array: 0, array_buffer: 0, element_buffer: 0 }
    }

    /// Track the effect of one call on the binding points.
    pub fn apply(&mut self, c: GlCall)
        ensures
            *final(self) == step(*old(self), c),
    {
        match c {
            GlCall::UseProgram(p) => { self.program = p; },
            GlCall::SaveProgram => { self.saved_program = self.program; },
            GlCall::RestoreProgram => { self.program = self.saved_program; },
            GlCall::BindVertexArray(v) => { self.vertex_array = v; },
            GlCall::BindBuffer(BufferTarget::Array, h) => { self.array_buffer = h; },
            GlCall::BindBuffer(BufferTarget::ElementArray, h) => { self.element_buffer = h; },
            _ => {},
        }
    }

    /// Track the effect of a sequence of calls, performed in order.
    pub fn apply_all(&mut self, calls: &Vec<GlCall>)
        ensures
            *final(self) == run(*old(self), calls@),
    {
        let ghost start = *self;
        let mut i: usize = 0;
        while i < calls.len()
            invariant
                i <= calls@.len(),
                *self == run(start, calls@.subrange(0, i as int)),
            decreases calls@.len() - i,
        {
            let c = calls[i];
            assert(calls@.subrange(0, i + 1).drop_last() =~= calls@.subrange(0, i as int));
            self.apply(c);
            i = i + 1;
        }
        assert(calls@.subrange(0, i as int) =~= calls@);
    }
}

} // verus!
