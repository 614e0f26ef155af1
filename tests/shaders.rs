use gloom::errors::{BuildError, GlUniformError, ShaderProgramError};
use gloom::gl_state::{Bindings, GlCall};
use gloom::program::{Program, ProgramBuilder};
use gloom::shader_type::ShaderType;
use gloom::bindable::Bindable;

fn linked(program_id: u32) -> (Program, Vec<GlCall>) {
    ProgramBuilder::new(program_id)
        .compile_shader(11, 1)
        .unwrap()
        .compile_shader(12, 1)
        .unwrap()
        .link()
}

#[test]
fn stage_from_each_extension() {
    assert_eq!(ShaderType::from_ext("vert"), Ok(ShaderType::Vertex));
    assert_eq!(ShaderType::from_ext("frag"), Ok(ShaderType::Fragment));
    assert_eq!(ShaderType::from_ext("tcs"), Ok(ShaderType::TessellationControl));
    assert_eq!(ShaderType::from_ext("tes"), Ok(ShaderType::TessellationEvaluation));
    assert_eq!(ShaderType::from_ext("geom"), Ok(ShaderType::Geometry));
    assert_eq!(ShaderType::from_ext("Vert"), Err("Vert".to_string()));
}

#[test]
fn unknown_extension_stops_before_compiling() {
    assert_eq!(
        ShaderType::for_file(Some("xyz")),
        Err(BuildError::UnknownExtension("xyz".to_string()))
    );
    assert_eq!(ShaderType::for_file(None), Err(BuildError::MissingExtension));
    assert_eq!(ShaderType::for_file(Some("frag")), Ok(ShaderType::Fragment));
}

#[test]
fn failed_compile_stops_the_build() {
    let r = ProgramBuilder::new(3).compile_shader(9, 0);
    assert!(matches!(r, Err(BuildError::CompileFailed(9))));
}

#[test]
fn link_attaches_links_and_releases_every_stage() {
    let (program, calls) = linked(5);
    assert_eq!(program.program_id, 5);
    assert_eq!(
        calls,
        vec![
            GlCall::AttachShader { program: 5, shader: 11 },
            GlCall::AttachShader { program: 5, shader: 12 },
            GlCall::LinkProgram(5),
            GlCall::DeleteShader(11),
            GlCall::DeleteShader(12),
        ]
    );
}

#[test]
fn link_without_stages() {
    let (_, calls) = ProgramBuilder::new(2).link();
    assert_eq!(calls, vec![GlCall::LinkProgram(2)]);
}

#[test]
fn locate_and_set_elapsed_uniform() {
    let (mut program, _) = linked(5);
    assert_eq!(program.uniform_query("elapsed"), Ok(true));
    assert_eq!(program.locate_uniform("elapsed", 2, 0), Ok(()));
    let calls = program.set_uniform1("elapsed").unwrap();
    assert_eq!(
        calls,
        vec![
            GlCall::SaveProgram,
            GlCall::UseProgram(5),
            GlCall::AssignUniform { location: 2, matrix: false },
            GlCall::ReadError,
            GlCall::RestoreProgram,
        ]
    );
    assert_eq!(Program::check_uniform_error(0), Ok(()));
}

#[test]
fn located_uniform_is_not_queried_again() {
    let (mut program, _) = linked(5);
    assert_eq!(program.locate_uniform("elapsed", 2, 0), Ok(()));
    assert_eq!(program.uniform_query("elapsed"), Ok(false));
    assert_eq!(program.locate_uniform("elapsed", 9, 0x0502), Ok(()));
    let calls = program.set_uniform1("elapsed").unwrap();
    assert_eq!(calls[2], GlCall::AssignUniform { location: 2, matrix: false });
}

#[test]
fn unresolved_uniform_is_not_found() {
    let (program, _) = linked(5);
    assert_eq!(program.set_uniform1("elapsed"), Err(ShaderProgramError::UniformNotFound));
    assert_eq!(program.set_uniform_matrix("view"), Err(ShaderProgramError::UniformNotFound));
}

#[test]
fn missing_uniform_is_not_cached() {
    let (mut program, _) = linked(5);
    assert_eq!(program.locate_uniform("gone", -1, 0), Err(ShaderProgramError::UniformNotFound));
    assert_eq!(program.uniform_query("gone"), Ok(true));
    assert_eq!(program.set_uniform1("gone"), Err(ShaderProgramError::UniformNotFound));
}

#[test]
fn driver_error_on_query_is_reported() {
    let (mut program, _) = linked(5);
    assert_eq!(
        program.locate_uniform("elapsed", 0, 0x0502),
        Err(ShaderProgramError::GlUniform(GlUniformError::new(0x0502)))
    );
    assert_eq!(program.uniform_query("elapsed"), Ok(true));
}

#[test]
fn name_with_nul_byte_is_rejected() {
    let (mut program, _) = linked(5);
    assert_eq!(program.uniform_query("ab\0c"), Err(ShaderProgramError::CStr(2)));
    assert_eq!(program.locate_uniform("ab\0c", 1, 0), Err(ShaderProgramError::CStr(2)));
    assert_eq!(program.set_uniform1("ab\0c"), Err(ShaderProgramError::UniformNotFound));
}

#[test]
fn driver_error_on_assignment_is_reported() {
    assert_eq!(
        Program::check_uniform_error(0x0501),
        Err(ShaderProgramError::GlUniform(GlUniformError { error_code: 0x0501 }))
    );
}

#[test]
fn matrix_assignment_restores_active_program() {
    let (mut program, _) = linked(5);
    program.locate_uniform("view", 4, 0).unwrap();
    let calls = program.set_uniform_matrix("view").unwrap();
    assert_eq!(calls[2], GlCall::AssignUniform { location: 4, matrix: true });
    let mut b = Bindings::neutral();
    b.program = 8;
    let mut during = b;
    for c in &calls[..3] {
        during.apply(*c);
    }
    assert_eq!(during.program, 5);
    b.apply_all(&calls);
    assert_eq!(b.program, 8);
}

#[test]
fn program_bind_and_unbind() {
    let (program, _) = linked(6);
    let mut b = Bindings::neutral();
    b.apply_all(&program.bind());
    assert_eq!(b.program, 6);
    b.apply_all(&program.unbind());
    assert_eq!(b.program, 0);
}

#[test]
fn program_release_deletes_its_handle() {
    let (program, _) = linked(9);
    assert_eq!(program.release(), vec![GlCall::DeleteProgram(9)]);
}
