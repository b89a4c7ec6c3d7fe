//! Errors reported while a shader is loaded.
use vstd::prelude::*;

verus! {

/// Why a shader could not be loaded.
#[derive(Clone, Debug, PartialEq, Eq)]
pub enum ShaderError {
    /// A shader file was named that does not exist; holds the name given.
    MissingFile(String),
    /// Shader files were found, but the shader failed to compile.
    CompileFailed,
    /// Shader code given as text failed to compile.
    CompileFailedFromMemory,
}

impl ShaderError {
    /// The message that describes an error of this kind.
    pub open spec fn spec_message(self) -> Seq<char> {
        match self {
            ShaderError::MissingFile(_) => "shader file does not exist"@,
            ShaderError::CompileFailed => "shader failed to compile"@,
            ShaderError::CompileFailedFromMemory => "shader failed to compile from memory"@,
        }
    }

    /// The message that describes this error.
    pub fn message(&self) -> (m: &'static str)
        ensures
            m@ == self.spec_message(),
            self is MissingFile ==> m@ == "shader file does not exist"@,
            self is CompileFailed ==> m@ == "shader failed to compile"@,
            self is CompileFailedFromMemory ==> m@ == "shader failed to compile from memory"@,
    {
        match self {
            ShaderError::MissingFile(_) => "shader file does not exist",
            ShaderError::CompileFailed => "shader failed to compile",
            ShaderError::CompileFailedFromMemory => "shader failed to compile from memory",
        }
    }

    /// The full text of this error: the message, followed for a missing file
    /// by `": "` and the file name (this joining is the library's own form).
    pub fn describe(&self) -> (d: String)
        ensures
            match self {
                ShaderError::MissingFile(name) => d@ == self.spec_message() + ": "@ + name@,
                _ => d@ == self.spec_message(),
            },
    {
        let mut d = String::from_str(self.message());
        if let ShaderError::MissingFile(name) = self {
            d.append(": ");
            d.append(name.as_str());
        }
        d
    }

    /// The file name that the error is about, where there is one.
    pub fn path(&self) -> (p: Option<&str>)
        ensures
            match self {
                ShaderError::MissingFile(name) => p matches Some(s) && s@ == name@,
                _ => p is None,
            },
    {
        match self {
            ShaderError::MissingFile(name) => Some(name.as_str()),
            _ => None,
        }
    }
}

} // verus!
