use vstd::prelude::*;
use crate::kind::ShaderType;

verus! {

/// `GL_NO_ERROR`.
pub const NO_ERROR: u32 = 0;
/// `GL_INVALID_ENUM`.
pub const INVALID_ENUM: u32 = 0x0500;
/// `GL_INVALID_VALUE`.
pub const INVALID_VALUE: u32 = 0x0501;
/// `GL_INVALID_OPERATION`.
pub const INVALID_OPERATION: u32 = 0x0502;

/// Why a shader could not be created.
#[derive(Debug, Copy, Clone, PartialEq, Eq, Structural)]
pub enum ShaderCreationError {
    /// The driver rejected the kind's code as an invalid enumerant.
    InvalidEnum(ShaderType),
    /// The driver reported an error this library does not know for the call.
    Unknown,
}

/// Why a shader could not be compiled.
#[derive(Debug, Clone, PartialEq, Eq)]
pub enum ShaderCompileError {
    /// The source holds a nul byte at `nul_position`, so it cannot be handed
    /// to the driver as a nul-terminated string.
    InvalidUTF8Source { nul_position: usize },
    /// The driver rejected the source; the driver's compile log.
    CompilationError(String),
    /// The compile log was not terminated by a single, final nul byte.
    MissingNullByte,
    /// The compile log was not valid UTF-8.
    InvalidUTF8LogSource,
    /// Uploading the source: the identifier is not one the driver created.
    NotAnOpenGLValue,
    /// Uploading the source: the identifier names a driver object that is not a shader.
    NotAShader,
    /// Uploading the source: the driver reported an error this library does not know.
    Unknown,
    /// Compiling: the identifier is not one the driver created.
    CompileNotAnOpenGLValue,
    /// Compiling: the identifier names a driver object that is not a shader.
    CompileNotAShader,
    /// Compiling: the driver reported an error this library does not know.
    CompileUnknown,
}

/// Why the length of a compiled shader's source could not be read.
#[derive(Debug, Copy, Clone, PartialEq, Eq, Structural, PartialOrd, Ord, Hash)]
pub enum SourceLenRetrievalError {
    /// The identifier is not one the driver created.
    NotAnOpenGLValue,
    /// The identifier names a driver object that is not a shader.
    NotAShader,
    /// The driver did not accept the source-length query.
    InvalidEnum,
    /// The driver reported an error this library does not know for the call.
    Unknown,
}

/// Why a compiled shader's source could not be read.
#[derive(Debug, Copy, Clone, PartialEq, Eq, Structural)]
pub enum SourceRetrievalError {
    /// The length needed to size the buffer could not be read.
    UnableToRetrieveSourceLength { source: SourceLenRetrievalError },
    /// The source was not terminated by a single, final nul byte.
    MissingNullByte,
    /// The source was not valid UTF-8.
    InvalidUTF8LogSource,
    /// The identifier is not one the driver created.
    NotAnOpenGLValue,
    /// The identifier names a driver object that is not a shader.
    NotAShader,
    /// The driver reported an error this library does not know for the call.
    Unknown,
}

/// What a failed creation call reported as `code` means.
pub open spec fn creation_error_spec(kind: ShaderType, code: u32) -> ShaderCreationError {
    if code == INVALID_ENUM {
        ShaderCreationError::InvalidEnum(kind)
    } else {
        ShaderCreationError::Unknown
    }
}

/// What the driver's code after a source upload means.
pub open spec fn upload_call_spec(code: u32) -> Result<(), ShaderCompileError> {
    if code == NO_ERROR {
        Ok(())
    } else if code == INVALID_VALUE {
        Err(ShaderCompileError::NotAnOpenGLValue)
    } else if code == INVALID_OPERATION {
        Err(ShaderCompileError::NotAShader)
    } else {
        Err(ShaderCompileError::Unknown)
    }
}

/// What the driver's code after a compile call means.
pub open spec fn compile_call_spec(code: u32) -> Result<(), ShaderCompileError> {
    if code == NO_ERROR {
        Ok(())
    } else if code == INVALID_VALUE {
        Err(ShaderCompileError::CompileNotAnOpenGLValue)
    } else if code == INVALID_OPERATION {
        Err(ShaderCompileError::CompileNotAShader)
    } else {
        Err(ShaderCompileError::CompileUnknown)
    }
}

/// What the driver's code after the source-length query means.
pub open spec fn source_len_call_spec(code: u32) -> Result<(), SourceLenRetrievalError> {
    if code == NO_ERROR {
        Ok(())
    } else if code == INVALID_VALUE {
        Err(SourceLenRetrievalError::NotAnOpenGLValue)
    } else if code == INVALID_OPERATION {
        Err(SourceLenRetrievalError::NotAShader)
    } else if code == INVALID_ENUM {
        Err(SourceLenRetrievalError::InvalidEnum)
    } else {
        Err(SourceLenRetrievalError::Unknown)
    }
}

/// What the driver's code after the source fetch means.
pub open spec fn source_fetch_call_spec(code: u32) -> Result<(), SourceRetrievalError> {
    if code == NO_ERROR {
        Ok(())
    } else if code == INVALID_VALUE {
        Err(SourceRetrievalError::NotAnOpenGLValue)
    } else if code == INVALID_OPERATION {
        Err(SourceRetrievalError::NotAShader)
    } else {
        Err(SourceRetrievalError::Unknown)
    }
}

/// Translates the error code that follows a failed creation call.
pub fn creation_error(kind: ShaderType, code: u32) -> (r: ShaderCreationError)
    ensures
        r == creation_error_spec(kind, code),
{
    if code == INVALID_ENUM {
        ShaderCreationError::InvalidEnum(kind)
    } else {
        ShaderCreationError::Unknown
    }
}

/// Translates the error code that follows a source upload.
pub fn upload_call_result(code: u32) -> (r: Result<(), ShaderCompileError>)
    ensures
        r == upload_call_spec(code),
{
    if code == NO_ERROR {
        Ok(())
    } else if code == INVALID_VALUE {
        Err(ShaderCompileError::NotAnOpenGLValue)
    } else if code == INVALID_OPERATION {
        Err(ShaderCompileError::NotAShader)
    } else {
        Err(ShaderCompileError::Unknown)
    }
}

/// Translates the error code that follows a compile call.
pub fn compile_call_result(code: u32) -> (r: Result<(), ShaderCompileError>)
    ensures
        r == compile_call_spec(code),
{
    if code == NO_ERROR {
        Ok(())
    } else if code == INVALID_VALUE {
        Err(ShaderCompileError::CompileNotAnOpenGLValue)
    } else if code == INVALID_OPERATION {
        Err(ShaderCompileError::CompileNotAShader)
    } else {
        Err(ShaderCompileError::CompileUnknown)
    }
}

/// Translates the error code that follows the source-length query.
pub fn source_len_call_result(code: u32) -> (r: Result<(), SourceLenRetrievalError>)
    ensures
        r == source_len_call_spec(code),
{
    if code == NO_ERROR {
        Ok(())
    } else if code == INVALID_VALUE {
        Err(SourceLenRetrievalError::NotAnOpenGLValue)
    } else if code == INVALID_OPERATION {
        Err(SourceLenRetrievalError::NotAShader)
    } else if code == INVALID_ENUM {
        Err(SourceLenRetrievalError::InvalidEnum)
    } else {
        Err(SourceLenRetrievalError::Unknown)
    }
}

/// Translates the error code that follows the source fetch.
pub fn source_fetch_call_result(code: u32) -> (r: Result<(), SourceRetrievalError>)
    ensures
        r == source_fetch_call_spec(code),
{
    if code == NO_ERROR {
        Ok(())
    } else if code == INVALID_VALUE {
        Err(SourceRetrievalError::NotAnOpenGLValue)
    } else if code == INVALID_OPERATION {
        Err(SourceRetrievalError::NotAShader)
    } else {
        Err(SourceRetrievalError::Unknown)
    }
}

impl From<SourceLenRetrievalError> for SourceRetrievalError {
    fn from(source: SourceLenRetrievalError) -> (r: SourceRetrievalError) {
        SourceRetrievalError::UnableToRetrieveSourceLength { source }
    }
}

impl vstd::std_specs::convert::FromSpecImpl<SourceLenRetrievalError> for SourceRetrievalError {
    open spec fn obeys_from_spec() -> bool {
        true
    }

    open spec fn from_spec(source: SourceLenRetrievalError) -> SourceRetrievalError {
        SourceRetrievalError::UnableToRetrieveSourceLength { source }
    }
}

} // verus!
