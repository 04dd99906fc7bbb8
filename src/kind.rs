use vstd::prelude::*;

verus! {

/// `GL_COMPUTE_SHADER`.
pub const COMPUTE_SHADER: u32 = 0x91B9;
/// `GL_FRAGMENT_SHADER`.
pub const FRAGMENT_SHADER: u32 = 0x8B30;
/// `GL_GEOMETRY_SHADER`.
pub const GEOMETRY_SHADER: u32 = 0x8DD9;
/// `GL_TESS_CONTROL_SHADER`.
pub const TESS_CONTROL_SHADER: u32 = 0x8E88;
/// `GL_TESS_EVALUATION_SHADER`.
pub const TESS_EVALUATION_SHADER: u32 = 0x8E87;
/// `GL_VERTEX_SHADER`.
pub const VERTEX_SHADER: u32 = 0x8B31;

/// The pipeline stage a shader targets.
#[derive(Debug, Copy, Clone, PartialEq, Eq, Structural, PartialOrd, Ord, Hash)]
pub enum ShaderType {
    /// A compute shader.
    Compute,
    /// A fragment shader.
    FragmentShader,
    /// A geometry shader.
    GeometryShader,
    /// A tessellation control shader.
    TessControl,
    /// A tessellation evaluation shader.
    TessEvaluation,
    /// A vertex shader.
    Vertex,
}

/// The driver's numeric code for each kind of shader.
pub open spec fn kind_code(kind: ShaderType) -> u32 {
    match kind {
        ShaderType::Compute => COMPUTE_SHADER,
        ShaderType::FragmentShader => FRAGMENT_SHADER,
        ShaderType::GeometryShader => GEOMETRY_SHADER,
        ShaderType::TessControl => TESS_CONTROL_SHADER,
        ShaderType::TessEvaluation => TESS_EVALUATION_SHADER,
        ShaderType::Vertex => VERTEX_SHADER,
    }
}

/// The kind whose driver code is `code`, if any.
pub open spec fn kind_of_code(code: u32) -> Option<ShaderType> {
    if code == COMPUTE_SHADER {
        Some(ShaderType::Compute)
    } else if code == FRAGMENT_SHADER {
        Some(ShaderType::FragmentShader)
    } else if code == GEOMETRY_SHADER {
        Some(ShaderType::GeometryShader)
    } else if code == TESS_CONTROL_SHADER {
        Some(ShaderType::TessControl)
    } else if code == TESS_EVALUATION_SHADER {
        Some(ShaderType::TessEvaluation)
    } else if code == VERTEX_SHADER {
        Some(ShaderType::Vertex)
    } else {
        None
    }
}

/// The name of each kind, as it is printed.
pub open spec fn kind_name(kind: ShaderType) -> Seq<char> {
    match kind {
        ShaderType::Compute => "Compute"@,
        ShaderType::FragmentShader => "FragmentShader"@,
        ShaderType::GeometryShader => "GeometryShader"@,
        ShaderType::TessControl => "TessControl"@,
        ShaderType::TessEvaluation => "TessEvaluation"@,
        ShaderType::Vertex => "Vertex"@,
    }
}

impl ShaderType {
    /// The driver's numeric code for this kind.
    pub fn code(self) -> (r: u32)
        ensures
            r == kind_code(self),
    {
        match self {
            ShaderType::Compute => COMPUTE_SHADER,
            ShaderType::FragmentShader => FRAGMENT_SHADER,
            ShaderType::GeometryShader => GEOMETRY_SHADER,
            ShaderType::TessControl => TESS_CONTROL_SHADER,
            ShaderType::TessEvaluation => TESS_EVALUATION_SHADER,
            ShaderType::Vertex => VERTEX_SHADER,
        }
    }

    /// The kind whose driver code is `code`, if any.
    pub fn from_code(code: u32) -> (r: Option<ShaderType>)
        ensures
            r == kind_of_code(code),
    {
        if code == COMPUTE_SHADER {
            Some(ShaderType::Compute)
        } else if code == FRAGMENT_SHADER {
            Some(ShaderType::FragmentShader)
        } else if code == GEOMETRY_SHADER {
            Some(ShaderType::GeometryShader)
        } else if code == TESS_CONTROL_SHADER {
            Some(ShaderType::TessControl)
        } else if code == TESS_EVALUATION_SHADER {
            Some(ShaderType::TessEvaluation)
        } else if code == VERTEX_SHADER {
            Some(ShaderType::Vertex)
        } else {
            None
        }
    }

    /// The variant's name, as it is printed.
    pub fn name(self) -> (r: String)
        ensures
            r@ == kind_name(self),
    {
        let s = match self {
            ShaderType::Compute => "Compute",
            ShaderType::FragmentShader => "FragmentShader",
            ShaderType::GeometryShader => "GeometryShader",
            ShaderType::TessControl => "TessControl",
            ShaderType::TessEvaluation => "TessEvaluation",
            ShaderType::Vertex => "Vertex",
        };
        s.to_string()
    }
}

/// Each kind maps to a distinct driver code, and that code maps back to it.
pub proof fn lemma_kind_code_round_trip(kind: ShaderType)
    ensures
        kind_of_code(kind_code(kind)) == Some(kind),
{
}

} // verus!
