use vstd::prelude::*;
use vstd::string::StringSliceAdditionalSpecFns;
use crate::bindable::Bindable;
use crate::errors::{BuildError, GlUniformError, ShaderProgramError, NO_ERROR};
use crate::gl_state::{deleted_shaders, lemma_deleted_concat, run, Bindings, GlCall};

verus! {

/// The driver's value for a true status flag.
pub const GL_TRUE: i32 = 1;

/// The location that the most recent entry for `k` records, if any.
pub open spec fn lookup(s: Seq<(String, i32)>, k: Seq<char>) -> Option<i32>
    decreases s.len(),
{
    if s.len() == 0 {
        None
    } else if s.last().0@ == k {
        Some(s.last().1)
    } else {
        lookup(s.drop_last(), k)
    }
}

/// The first position of a nul byte, if any.
pub open spec fn first_nul(b: Seq<u8>) -> Option<int> {
    if exists|i: int| 0 <= i < b.len() && b[i] == 0 {
        Some(choose|i: int| 0 <= i < b.len() && b[i] == 0 && forall|j: int| 0 <= j < i ==> b[j] != 0)
    } else {
        None
    }
}

/// Whether a location query must be issued for `name`: not when it is cached,
/// and not when it cannot be encoded.
pub open spec fn query_needed(cache: Map<Seq<char>, i32>, name: Seq<char>, bytes: Seq<u8>) -> Result<bool, ShaderProgramError> {
    if cache.contains_key(name) {
        Ok(false)
    } else if first_nul(bytes) is Some {
        Err(ShaderProgramError::CStr(first_nul(bytes)->Some_0 as usize))
    } else {
        Ok(true)
    }
}

/// The outcome of resolving `name`, given what the location query returned,
/// and the cache afterwards.
pub open spec fn located(
    cache: Map<Seq<char>, i32>,
    name: Seq<char>,
    bytes: Seq<u8>,
    location: i32,
    error: u32,
) -> (Result<(), ShaderProgramError>, Map<Seq<char>, i32>) {
    if cache.contains_key(name) {
        (Ok(()), cache)
    } else if first_nul(bytes) is Some {
        (Err(ShaderProgramError::CStr(first_nul(bytes)->Some_0 as usize)), cache)
    } else if error != NO_ERROR {
        (Err(ShaderProgramError::GlUniform(GlUniformError { error_code: error })), cache)
    } else if location < 0 {
        (Err(ShaderProgramError::UniformNotFound), cache)
    } else {
        (Ok(()), cache.insert(name, location))
    }
}

/// The calls that assign a value to a uniform: save the active program, make
/// this one active, assign, read the error code, restore the saved program.
pub open spec fn uniform_calls(program_id: u32, location: i32, matrix: bool) -> Seq<GlCall> {
    seq![
        GlCall::SaveProgram,
        GlCall::UseProgram(program_id),
        GlCall::AssignUniform { location, matrix },
        GlCall::ReadError,
        GlCall::RestoreProgram,
    ]
}

/// A linked shader program and the locations of the uniforms resolved so far.
pub struct Program {
    pub program_id: u32,
    uniforms: Vec<(String, i32)>,
}

impl Program {
    /// Uniform name to resolved location.
    pub closed spec fn cache(&self) -> Map<Seq<char>, i32> {
        Map::new(|k: Seq<char>| lookup(self.uniforms@, k) is Some, |k: Seq<char>| lookup(self.uniforms@, k)->Some_0)
    }

    /// The driver's handle of this program.
    pub closed spec fn handle(&self) -> u32 {
        self.program_id
    }

    /// Only valid (non-negative) locations are cached.
    pub open spec fn wf(&self) -> bool {
        forall|k: Seq<char>| #[trigger] self.cache().contains_key(k) ==> self.cache()[k] >= 0
    }

    /// The cached location of `name`.
    fn cached(&self, name: &str) -> (r: Option<i32>)
        ensures
            r == (if self.cache().contains_key(name@) { Some(self.cache()[name@]) } else { None::<i32> }),
    {
        let key = name.to_owned();
        let mut i: usize = self.uniforms.len();
        assert(self.uniforms@.subrange(0, i as int) =~= self.uniforms@);
        while i > 0
            invariant
                i <= self.uniforms@.len(),
                key@ == name@,
                lookup(self.uniforms@, name@) == lookup(self.uniforms@.subrange(0, i as int), name@),
            decreases i,
        {
            let ghost sub = self.uniforms@.subrange(0, i as int);
            assert(sub.drop_last() =~= self.uniforms@.subrange(0, i - 1));
            if self.uniforms[i - 1].0 == key {
                return Some(self.uniforms[i - 1].1);
            }
            i = i - 1;
        }
        assert(self.uniforms@.subrange(0, 0) =~= Seq::<(String, i32)>::empty());
        None
    }

    /// Whether a location query must be issued before `locate_uniform`: not
    /// for a cached name, and never for one that holds a nul byte.
    pub fn uniform_query(&self, name: &str) -> (r: Result<bool, ShaderProgramError>)
        ensures
            r == query_needed(self.cache(), name@, name.spec_bytes()),
    {
        if self.cached(name).is_some() {
            return Ok(false);
        }
        match nul_position(name) {
            Some(p) => Err(ShaderProgramError::CStr(p)),
            None => Ok(true),
        }
    }

    /// Resolve `name`, given the location and error code that the driver's
    /// location query returned for it. A cached name is left as it is, and
    /// only a valid location is cached.
    pub fn locate_uniform(&mut self, name: &str, location: i32, error: u32) -> (r: Result<(), ShaderProgramError>)
        ensures
            (r, final(self).cache()) == located(old(self).cache(), name@, name.spec_bytes(), location, error),
            final(self).handle() == old(self).handle(),
            old(self).wf() ==> final(self).wf(),
    {
        if self.cached(name).is_some() {
            return Ok(());
        }
        if let Some(p) = nul_position(name) {
            return Err(ShaderProgramError::CStr(p));
        }
        if error != NO_ERROR {
            return Err(ShaderProgramError::GlUniform(GlUniformError::new(error)));
        }
        if location < 0 {
            return Err(ShaderProgramError::UniformNotFound);
        }
        let ghost before = self.cache();
        self.uniforms.push((name.to_owned(), location));
        assert(self.uniforms@.drop_last() == old(self).uniforms@);
        assert(self.cache() =~= before.insert(name@, location));
        Ok(())
    }

    /// The calls that assign a scalar or vector value to a located uniform.
    /// Performing them leaves the active program as it was before.
    pub fn set_uniform1(&self, name: &str) -> (r: Result<Vec<GlCall>, ShaderProgramError>)
        ensures
            !self.cache().contains_key(name@) ==> r == Err::<Vec<GlCall>, ShaderProgramError>(ShaderProgramError::UniformNotFound),
            self.cache().contains_key(name@) ==> r is Ok
                && r->Ok_0@ == uniform_calls(self.handle(), self.cache()[name@], false),
    {
        self.uniform_assignment(name, false)
    }

    /// The calls that assign a matrix value to a located uniform (one matrix,
    /// not transposed). Performing them leaves the active program as it was before.
    pub fn set_uniform_matrix(&self, name: &str) -> (r: Result<Vec<GlCall>, ShaderProgramError>)
        ensures
            !self.cache().contains_key(name@) ==> r == Err::<Vec<GlCall>, ShaderProgramError>(ShaderProgramError::UniformNotFound),
            self.cache().contains_key(name@) ==> r is Ok
                && r->Ok_0@ == uniform_calls(self.handle(), self.cache()[name@], true),
    {
        self.uniform_assignment(name, true)
    }

    fn uniform_assignment(&self, name: &str, matrix: bool) -> (r: Result<Vec<GlCall>, ShaderProgramError>)
        ensures
            !self.cache().contains_key(name@) ==> r == Err::<Vec<GlCall>, ShaderProgramError>(ShaderProgramError::UniformNotFound),
            self.cache().contains_key(name@) ==> r is Ok
                && r->Ok_0@ == uniform_calls(self.handle(), self.cache()[name@], matrix),
    {
        match self.cached(name) {
            None => Err(ShaderProgramError::UniformNotFound),
            Some(location) => {
                let calls = vec![
                    GlCall::SaveProgram,
                    GlCall::UseProgram(self.program_id),
                    GlCall::AssignUniform { location, matrix },
                    GlCall::ReadError,
                    GlCall::RestoreProgram,
                ];
                assert(calls@ =~= uniform_calls(self.program_id, location, matrix));
                Ok(calls)
            },
        }
    }

    /// The call that releases the program. Taking the program by value makes
    /// this happen at most once.
    pub fn release(self) -> (r: Vec<GlCall>)
        ensures
            r@ == seq![GlCall::DeleteProgram(self.handle())],
    {
        let r = vec![GlCall::DeleteProgram(self.program_id)];
        assert(r@ =~= seq![GlCall::DeleteProgram(self.handle())]);
        r
    }

    /// The outcome of a uniform assignment, from the error code that its
    /// `ReadError` call read.
    pub fn check_uniform_error(error: u32) -> (r: Result<(), ShaderProgramError>)
        ensures
            error == NO_ERROR ==> r is Ok,
            error != NO_ERROR ==> r == Err::<(), ShaderProgramError>(ShaderProgramError::GlUniform(GlUniformError { error_code: error })),
    {
        if error != NO_ERROR {
            Err(ShaderProgramError::GlUniform(GlUniformError::new(error)))
        } else {
            Ok(())
        }
    }
}

impl Bindable for Program {
    open spec fn bind_calls(&self) -> Seq<GlCall> {
        seq![GlCall::UseProgram(self.handle())]
    }

    open spec fn unbind_calls(&self) -> Seq<GlCall> {
        seq![GlCall::UseProgram(0)]
    }

    fn bind(&self) -> (r: Vec<GlCall>) {
        let r = vec![GlCall::UseProgram(self.program_id)];
        assert(r@ =~= self.bind_calls());
        r
    }

    fn unbind(&self) -> (r: Vec<GlCall>) {
        let r = vec![GlCall::UseProgram(0)];
        assert(r@ =~= self.unbind_calls());
        r
    }
}

/// The calls that attach each compiled stage to the program.
pub open spec fn attach_calls(program_id: u32, shaders: Seq<u32>) -> Seq<GlCall> {
    shaders.map_values(|h: u32| GlCall::AttachShader { program: program_id, shader: h })
}

/// The calls that release each compiled stage.
pub open spec fn release_calls(shaders: Seq<u32>) -> Seq<GlCall> {
    shaders.map_values(|h: u32| GlCall::DeleteShader(h))
}

/// The calls of a link: attach every stage, link, then release every stage.
pub open spec fn link_calls(program_id: u32, shaders: Seq<u32>) -> Seq<GlCall> {
    attach_calls(program_id, shaders) + seq![GlCall::LinkProgram(program_id)] + release_calls(shaders)
}

/// A program under construction: a fresh program handle and the stages
/// compiled so far, in order.
pub struct ProgramBuilder {
    program_id: u32,
    shaders: Vec<u32>,
}

impl ProgramBuilder {
    /// The program's handle.
    pub closed spec fn handle(&self) -> u32 {
        self.program_id
    }

    /// The compiled stages, in the order they were added.
    pub closed spec fn stages(&self) -> Seq<u32> {
        self.shaders@
    }

    /// A builder for the freshly created program `program_id`, with no stages.
    pub fn new(program_id: u32) -> (r: ProgramBuilder)
        ensures
            r.handle() == program_id,
            r.stages() == Seq::<u32>::empty(),
    {
        ProgramBuilder { program_id, shaders: Vec::new() }
    }

    /// Keep the stage `shader` once the driver reports its compile status:
    /// it is added when the status is true; otherwise the build stops.
    pub fn compile_shader(self, shader: u32, compile_status: i32) -> (r: Result<ProgramBuilder, BuildError>)
        ensures
            compile_status == GL_TRUE ==> r is Ok && r->Ok_0.handle() == self.handle()
                && r->Ok_0.stages() == self.stages().push(shader),
            compile_status != GL_TRUE ==> r == Err::<ProgramBuilder, BuildError>(BuildError::CompileFailed(shader)),
    {
        if compile_status != GL_TRUE {
            return Err(BuildError::CompileFailed(shader));
        }
        let mut b = self;
        b.shaders.push(shader);
        Ok(b)
    }

    /// Finish the build: the linked program, with no uniform resolved, and the
    /// calls that attach every stage, link, and release every stage.
    pub fn link(self) -> (r: (Program, Vec<GlCall>))
        ensures
            r.0.handle() == self.handle(),
            r.0.cache() == Map::<Seq<char>, i32>::empty(),
            r.0.wf(),
            r.1@ == link_calls(self.handle(), self.stages()),
            deleted_shaders(r.1@) == self.stages(),
    {
        let mut calls: Vec<GlCall> = Vec::new();
        let mut i: usize = 0;
        while i < self.shaders.len()
            invariant
                i <= self.shaders@.len(),
                calls@ == attach_calls(self.program_id, self.shaders@.subrange(0, i as int)),
            decreases self.shaders@.len() - i,
        {
            calls.push(GlCall::AttachShader { program: self.program_id, shader: self.shaders[i] });
            i = i + 1;
            assert(calls@ =~= attach_calls(self.program_id, self.shaders@.subrange(0, i as int)));
        }
        calls.push(GlCall::LinkProgram(self.program_id));
        let ghost head = calls@;
        let mut j: usize = 0;
        while j < self.shaders.len()
            invariant
                j <= self.shaders@.len(),
                calls@ == head + release_calls(self.shaders@.subrange(0, j as int)),
            decreases self.shaders@.len() - j,
        {
            calls.push(GlCall::DeleteShader(self.shaders[j]));
            j = j + 1;
            assert(calls@ =~= head + release_calls(self.shaders@.subrange(0, j as int)));
        }
        assert(self.shaders@.subrange(0, i as int) =~= self.shaders@);
        assert(calls@ =~= link_calls(self.program_id, self.shaders@));
        proof {
            lemma_link_releases(self.program_id, self.shaders@);
        }
        let p = Program { program_id: self.program_id, uniforms: Vec::new() };
        assert(p.cache() =~= Map::<Seq<char>, i32>::empty());
        (p, calls)
    }
}

/// A link releases exactly the stages that were compiled, each once, in order.
pub proof fn lemma_link_releases(program_id: u32, shaders: Seq<u32>)
    ensures
        deleted_shaders(link_calls(program_id, shaders)) == shaders,
{
    lemma_no_deletes_in_attach(program_id, shaders);
    lemma_release_calls_delete(shaders);
    let a = attach_calls(program_id, shaders) + seq![GlCall::LinkProgram(program_id)];
    lemma_deleted_concat(attach_calls(program_id, shaders), seq![GlCall::LinkProgram(program_id)]);
    lemma_deleted_concat(a, release_calls(shaders));
    assert(seq![GlCall::LinkProgram(program_id)].drop_last() =~= Seq::<GlCall>::empty());
    reveal_with_fuel(deleted_shaders, 2);
    assert(deleted_shaders(seq![GlCall::LinkProgram(program_id)]) =~= Seq::<u32>::empty());
    assert(deleted_shaders(a) =~= Seq::<u32>::empty());
    assert(deleted_shaders(a) + shaders =~= shaders);
}

proof fn lemma_no_deletes_in_attach(program_id: u32, shaders: Seq<u32>)
    ensures
        deleted_shaders(attach_calls(program_id, shaders)) == Seq::<u32>::empty(),
    decreases shaders.len(),
{
    if shaders.len() > 0 {
        assert(attach_calls(program_id, shaders).drop_last() =~= attach_calls(program_id, shaders.drop_last()));
        lemma_no_deletes_in_attach(program_id, shaders.drop_last());
    }
}

proof fn lemma_release_calls_delete(shaders: Seq<u32>)
    ensures
        deleted_shaders(release_calls(shaders)) == shaders,
    decreases shaders.len(),
{
    if shaders.len() > 0 {
        assert(release_calls(shaders).drop_last() =~= release_calls(shaders.drop_last()));
        lemma_release_calls_delete(shaders.drop_last());
        assert(shaders.drop_last().push(shaders.last()) =~= shaders);
    } else {
        assert(release_calls(shaders) =~= Seq::<GlCall>::empty());
    }
}

/// Once a name has been resolved, resolving it again issues no query and
/// leaves the cache unchanged, whatever a query would have returned.
pub proof fn lemma_locate_idempotent(
    cache: Map<Seq<char>, i32>,
    name: Seq<char>,
    bytes: Seq<u8>,
    location: i32,
    error: u32,
    location2: i32,
    error2: u32,
)
    requires
        located(cache, name, bytes, location, error).0 is Ok,
    ensures
        query_needed(located(cache, name, bytes, location, error).1, name, bytes) == Ok::<bool, ShaderProgramError>(false),
        located(located(cache, name, bytes, location, error).1, name, bytes, location2, error2)
            == (Ok::<(), ShaderProgramError>(()), located(cache, name, bytes, location, error).1),
{
}

/// A uniform assignment's calls make the program active while the value is
/// assigned, and leave the active program as it was before them.
pub proof fn lemma_uniform_calls_restore(b: Bindings, program_id: u32, location: i32, matrix: bool)
    ensures
        run(b, uniform_calls(program_id, location, matrix)).program == b.program,
        run(b, uniform_calls(program_id, location, matrix).take(3)).program == program_id,
{
    let c = uniform_calls(program_id, location, matrix);
    reveal_with_fuel(run, 6);
    assert(c.take(3).drop_last() =~= c.take(2));
    assert(c.take(2).drop_last() =~= c.take(1));
    assert(c.take(1).drop_last() =~= Seq::<GlCall>::empty());
    assert(c.drop_last() =~= c.take(4));
    assert(c.take(4).drop_last() =~= c.take(3));
}

/// Position of the first nul byte of `s`.
fn nul_position(s: &str) -> (r: Option<usize>)
    ensures
        r == (match first_nul(s.spec_bytes()) {
            Some(p) => Some(p as usize),
            None => None::<usize>,
        }),
{
    let b = s.as_bytes();
    let mut i: usize = 0;
    while i < b.len()
        invariant
            b@ == s.spec_bytes(),
            i <= b@.len(),
            forall|j: int| 0 <= j < i ==> b@[j] != 0,
        decreases b@.len() - i,
    {
        if b[i] == 0 {
            assert(0 <= i < b@.len() && b@[i as int] == 0);
            let ghost p = first_nul(b@)->Some_0;
            assert(p == i) by {
                if p < i {
                    assert(b@[p] != 0);
                } else if p > i {
                    assert(b@[i as int] != 0);
                }
            }
            return Some(i);
        }
        i = i + 1;
    }
    None
}

} // verus!
