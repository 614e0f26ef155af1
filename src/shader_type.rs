use vstd::prelude::*;
use crate::errors::BuildError;

verus! {

/// The pipeline stage of a compiled shader unit.
#[derive(Clone, Copy, Debug, PartialEq, Eq, Structural)]
pub enum ShaderType {
    Vertex,
    Fragment,
    TessellationControl,
    TessellationEvaluation,
    Geometry,
}

/// The stage that a file extension names, if any.
pub open spec fn stage_of(ext: Seq<char>) -> Option<ShaderType> {
    if ext == "vert"@ {
        Some(ShaderType::Vertex)
    } else if ext == "frag"@ {
        Some(ShaderType::Fragment)
    } else if ext == "tcs"@ {
        Some(ShaderType::TessellationControl)
    } else if ext == "tes"@ {
        Some(ShaderType::TessellationEvaluation)
    } else if ext == "geom"@ {
        Some(ShaderType::Geometry)
    } else {
        None
    }
}

impl ShaderType {
    /// The stage named by a source file's extension; an unknown extension is
    /// handed back as the error.
    pub fn from_ext(ext: &str) -> (r: Result<ShaderType, String>)
        ensures
            stage_of(ext@) is Some ==> r == Ok::<ShaderType, String>(stage_of(ext@)->Some_0),
            stage_of(ext@) is None ==> r is Err && r->Err_0@ == ext@,
    {
        let e = ext.to_owned();
        if e == "vert".to_owned() {
            Ok(ShaderType::Vertex)
        } else if e == "frag".to_owned() {
            Ok(ShaderType::Fragment)
        } else if e == "tcs".to_owned() {
            Ok(ShaderType::TessellationControl)
        } else if e == "tes".to_owned() {
            Ok(ShaderType::TessellationEvaluation)
        } else if e == "geom".to_owned() {
            Ok(ShaderType::Geometry)
        } else {
            Err(e)
        }
    }

    /// The stage of a shader source file, from its extension (`None`: the path
    /// has none). Any other extension stops the build before anything is compiled.
    pub fn for_file(extension: Option<&str>) -> (r: Result<ShaderType, BuildError>)
        ensures
            extension is None ==> r == Err::<ShaderType, BuildError>(BuildError::MissingExtension),
            extension is Some && stage_of(extension->Some_0@) is Some
                ==> r == Ok::<ShaderType, BuildError>(stage_of(extension->Some_0@)->Some_0),
            extension is Some && stage_of(extension->Some_0@) is None
                ==> r is Err && r->Err_0 is UnknownExtension
                    && r->Err_0->UnknownExtension_0@ == extension->Some_0@,
    {
        match extension {
            None => Err(BuildError::MissingExtension),
            Some(ext) => match ShaderType::from_ext(ext) {
                Ok(t) => Ok(t),
                Err(e) => Err(BuildError::UnknownExtension(e)),
            },
        }
    }
}

} // verus!
