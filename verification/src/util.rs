use vstd::prelude::*;

use crate::types::{Bool, Shader};

verus! {

/// A failed shader build, carrying the API's info log text.
#[derive(Debug)]
pub enum ShaderError {
    FailedToCompile(String),
    FailedToLinkProgram(String),
}

/// The decision at the heart of shader creation: the fresh shader is handed
/// on exactly when the queried compile status is true; otherwise the build
/// fails, reporting the shader's info log word for word.
pub fn compile_outcome(shader: Shader, status: Bool, info_log: String) -> (r: Result<
    Shader,
    ShaderError,
>)
    ensures
        status == Bool::True <==> r is Ok,
        r matches Ok(s) ==> s == shader,
        r matches Err(e) ==> (e matches ShaderError::FailedToCompile(log) && log@ == info_log@),
{
    match status {
        Bool::True => Ok(shader),
        Bool::False => Err(ShaderError::FailedToCompile(info_log)),
    }
}

} // verus!
