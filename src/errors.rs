use vstd::prelude::*;

verus! {

/// The driver's code for "no error".
pub const NO_ERROR: u32 = 0;

/// An error code that the driver reported on a uniform operation.
#[derive(Clone, Copy, Debug, PartialEq, Eq, Structural)]
pub struct GlUniformError {
    pub error_code: u32,
}

impl GlUniformError {
    pub fn new(error_code: u32) -> (r: GlUniformError)
        ensures
            r.error_code == error_code,
    {
        GlUniformError { error_code }
    }
}

/// Why an operation on a linked program's uniforms failed.
#[derive(Clone, Copy, Debug, PartialEq, Eq, Structural)]
pub enum ShaderProgramError {
    /// The driver reported an error code.
    GlUniform(GlUniformError),
    /// The uniform does not exist in the program, or has not been located yet.
    UniformNotFound,
    /// The uniform's name holds a nul byte at this byte position, so it cannot
    /// be handed to the driver as a C string.
    CStr(usize),
}

/// Why building a shader program stopped.
#[derive(Debug, PartialEq, Eq)]
pub enum BuildError {
    /// The source file's path has no extension.
    MissingExtension,
    /// The extension names no shader stage.
    UnknownExtension(String),
    /// The stage with this handle did not compile.
    CompileFailed(u32),
}

} // verus!
