use graphene::driver::{Driver, ShaderDriver, COMPILE_STATUS, SHADER_SOURCE_LENGTH};
use graphene::error::{
    ShaderCompileError, ShaderCreationError, SourceLenRetrievalError, SourceRetrievalError,
    INVALID_ENUM, INVALID_OPERATION, INVALID_VALUE, NO_ERROR,
};
use graphene::kind::ShaderType;
use graphene::shader::{CompiledShader, Shader, LOG_CAPACITY};

const ALL_KINDS: [ShaderType; 6] = [
    ShaderType::Compute,
    ShaderType::FragmentShader,
    ShaderType::GeometryShader,
    ShaderType::TessControl,
    ShaderType::TessEvaluation,
    ShaderType::Vertex,
];

struct FakeShader {
    source: Vec<u8>,
    compiled: bool,
    log: Vec<u8>,
}

/// An in-memory driver: ids count up from 1, and a source compiles when its
/// braces balance.
#[derive(Default)]
struct FakeDriver {
    shaders: Vec<FakeShader>,
    error: u32,
    rejected_kind: Option<u32>,
    reject_with: Option<u32>,
    fail_upload_with: Option<u32>,
    fail_compile_with: Option<u32>,
    fail_length_query_with: Option<u32>,
    releases: Vec<u32>,
}

impl FakeDriver {
    fn shader(&mut self, id: u32) -> Option<&mut FakeShader> {
        if id == 0 {
            return None;
        }
        self.shaders.get_mut(id as usize - 1)
    }
}

fn braces_balance(src: &[u8]) -> bool {
    let mut depth: i64 = 0;
    for &b in src {
        if b == b'{' {
            depth += 1;
        } else if b == b'}' {
            depth -= 1;
            if depth < 0 {
                return false;
            }
        }
    }
    depth == 0
}

impl ShaderDriver for FakeDriver {
    fn create_shader(&mut self, kind_code: u32) -> u32 {
        if self.rejected_kind == Some(kind_code) {
            self.error = self.reject_with.unwrap_or(INVALID_ENUM);
            return 0;
        }
        self.shaders.push(FakeShader { source: Vec::new(), compiled: false, log: Vec::new() });
        self.shaders.len() as u32
    }

    fn get_error(&mut self) -> u32 {
        let e = self.error;
        self.error = NO_ERROR;
        e
    }

    fn shader_source(&mut self, id: u32, source: &Vec<u8>) {
        if let Some(code) = self.fail_upload_with {
            self.error = code;
            return;
        }
        match self.shader(id) {
            Some(s) => s.source = source.clone(),
            None => self.error = INVALID_VALUE,
        }
    }

    fn compile_shader(&mut self, id: u32) {
        if let Some(code) = self.fail_compile_with {
            self.error = code;
            return;
        }
        match self.shader(id) {
            Some(s) => {
                let body = &s.source[..s.source.len() - 1];
                s.compiled = braces_balance(body);
                s.log = if s.compiled { Vec::new() } else { b"0:1: error: unmatched brace".to_vec() };
            }
            None => self.error = INVALID_VALUE,
        }
    }

    fn get_shader_param(&mut self, id: u32, param: u32) -> i32 {
        if param == SHADER_SOURCE_LENGTH {
            if let Some(code) = self.fail_length_query_with {
                self.error = code;
                return 0;
            }
        }
        match self.shader(id) {
            Some(s) if param == COMPILE_STATUS => s.compiled as i32,
            Some(s) if param == SHADER_SOURCE_LENGTH => s.source.len() as i32,
            Some(_) => {
                self.error = INVALID_ENUM;
                0
            }
            None => {
                self.error = INVALID_VALUE;
                0
            }
        }
    }

    fn shader_info_log(&mut self, id: u32, capacity: usize) -> (i32, Vec<u8>) {
        let s = self.shader(id).expect("shader exists");
        let mut buf = vec![0xAAu8; capacity];
        let n = s.log.len().min(capacity - 1);
        buf[..n].copy_from_slice(&s.log[..n]);
        buf[n] = 0;
        (n as i32, buf)
    }

    fn shader_source_text(&mut self, id: u32, capacity: usize) -> Vec<u8> {
        let s = self.shader(id).expect("shader exists");
        let mut buf = s.source.clone();
        buf.truncate(capacity);
        buf
    }

    fn delete_shader(&mut self, id: u32) {
        self.releases.push(id);
    }
}

#[test]
fn create_gives_kind_and_nonzero_id_for_every_kind() {
    let mut d = Driver::new(FakeDriver::default());
    for kind in ALL_KINDS {
        let s = Shader::new(&mut d, kind).expect("created");
        assert_eq!(s.get_type(), kind);
        assert_ne!(s.get_id(), 0);
        assert_eq!(s.inner().kind, kind);
        assert_eq!(s.inner().id, s.get_id());
    }
}

#[test]
fn vertex_shader_compiles_and_returns_its_source() {
    let mut d = Driver::new(FakeDriver::default());
    let s = Shader::new(&mut d, ShaderType::Vertex).expect("created");
    assert_eq!(s.get_id(), 1);
    let c = s.compile(&mut d, "void main(){}").expect("compiled");
    assert_eq!(c.get_id(), 1);
    assert_eq!(c.get_type(), ShaderType::Vertex);
    assert_eq!(c.inner().shader.get_id(), 1);
    assert_eq!(c.get_source(&mut d), Ok("void main(){}".to_string()));
}

#[test]
fn malformed_compute_source_gives_its_log() {
    let mut d = Driver::new(FakeDriver::default());
    let s = Shader::new(&mut d, ShaderType::Compute).expect("created");
    match s.compile(&mut d, "void main(){") {
        Err(ShaderCompileError::CompilationError(log)) => {
            assert_eq!(log, "0:1: error: unmatched brace");
            assert!(!log.is_empty());
        }
        other => panic!("unexpected {:?}", other.map(|c| c.get_id())),
    }
    assert_eq!(d.device().releases, vec![1]);
}

#[test]
fn rejected_kind_code_gives_invalid_enum() {
    let mut d = Driver::new(FakeDriver { rejected_kind: Some(ShaderType::GeometryShader.code()), ..FakeDriver::default() });
    let r = Shader::new(&mut d, ShaderType::GeometryShader);
    assert_eq!(r.err(), Some(ShaderCreationError::InvalidEnum(ShaderType::GeometryShader)));
}

#[test]
fn creation_failure_with_other_code_is_unknown() {
    let kind = ShaderType::Vertex;
    let mut d = Driver::new(FakeDriver { rejected_kind: Some(kind.code()), reject_with: Some(INVALID_VALUE), ..FakeDriver::default() });
    assert_eq!(Shader::new(&mut d, kind).err(), Some(ShaderCreationError::Unknown));
    let mut d = Driver::new(FakeDriver { rejected_kind: Some(kind.code()), ..FakeDriver::default() });
    assert_eq!(Shader::new(&mut d, kind).err(), Some(ShaderCreationError::InvalidEnum(kind)));
    // Only the kind whose code the driver rejects fails.
    let s = Shader::new(&mut d, ShaderType::TessControl).expect("created");
    assert_eq!(s.get_id(), 1);
    assert_eq!(s.get_type(), ShaderType::TessControl);
}

#[test]
fn source_with_nul_byte_is_refused_before_upload() {
    let mut d = Driver::new(FakeDriver::default());
    let s = Shader::new(&mut d, ShaderType::FragmentShader).expect("created");
    let r = s.compile(&mut d, "void\0main(){}");
    assert_eq!(r.err(), Some(ShaderCompileError::InvalidUTF8Source { nul_position: 4 }));
    assert!(d.device().shaders[0].source.is_empty());
    assert_eq!(d.device().releases, vec![1]);
}

#[test]
fn upload_errors_are_translated() {
    let mut d = Driver::new(FakeDriver { fail_upload_with: Some(INVALID_OPERATION), ..FakeDriver::default() });
    let s = Shader::new(&mut d, ShaderType::Vertex).expect("created");
    assert_eq!(s.compile(&mut d, "void main(){}").err(), Some(ShaderCompileError::NotAShader));
    let mut d = Driver::new(FakeDriver { fail_upload_with: Some(INVALID_VALUE), ..FakeDriver::default() });
    let s = Shader::new(&mut d, ShaderType::Vertex).expect("created");
    assert_eq!(s.compile(&mut d, "void main(){}").err(), Some(ShaderCompileError::NotAnOpenGLValue));
    let mut d = Driver::new(FakeDriver { fail_upload_with: Some(0x0505), ..FakeDriver::default() });
    let s = Shader::new(&mut d, ShaderType::Vertex).expect("created");
    assert_eq!(s.compile(&mut d, "void main(){}").err(), Some(ShaderCompileError::Unknown));
}

#[test]
fn source_length_counts_the_nul_byte() {
    let mut d = Driver::new(FakeDriver::default());
    let src = "void main(){ gl_Position = vec4(0.0); }";
    let c = Shader::new(&mut d, ShaderType::Vertex).unwrap().compile(&mut d, src).unwrap();
    let len = c.get_source_len(&mut d).expect("length");
    assert_eq!(len, src.len() + 1);
    let text = c.get_source(&mut d).expect("source");
    assert_eq!(text.len() + 1, len);
}

#[test]
fn non_ascii_source_round_trips() {
    let mut d = Driver::new(FakeDriver::default());
    let src = "void main(){} // héllo ✓";
    let c = Shader::new(&mut d, ShaderType::TessEvaluation).unwrap().compile(&mut d, src).unwrap();
    assert_eq!(c.get_source(&mut d).unwrap(), src);
}

#[test]
fn length_query_errors_are_wrapped_by_source() {
    let mut d = Driver::new(FakeDriver { fail_length_query_with: Some(INVALID_ENUM), ..FakeDriver::default() });
    let c = Shader::new(&mut d, ShaderType::Vertex).unwrap().compile(&mut d, "void main(){}").unwrap();
    assert_eq!(c.get_source_len(&mut d), Err(SourceLenRetrievalError::InvalidEnum));
    assert_eq!(
        c.get_source(&mut d),
        Err(SourceRetrievalError::UnableToRetrieveSourceLength { source: SourceLenRetrievalError::InvalidEnum })
    );
}

#[test]
fn each_release_calls_the_driver_once() {
    let mut d = Driver::new(FakeDriver::default());
    let a = Shader::new(&mut d, ShaderType::Vertex).unwrap();
    let b = Shader::new(&mut d, ShaderType::FragmentShader).unwrap();
    let c = b.compile(&mut d, "void main(){}").unwrap();
    a.release(&mut d);
    c.release(&mut d);
    assert_eq!(d.device().releases, vec![1, 2]);
}

#[test]
fn source_length_outcomes() {
    assert_eq!(CompiledShader::source_len_of(NO_ERROR, 14), Ok(14));
    assert_eq!(CompiledShader::source_len_of(INVALID_VALUE, 14), Err(SourceLenRetrievalError::NotAnOpenGLValue));
    assert_eq!(CompiledShader::source_len_of(INVALID_OPERATION, 14), Err(SourceLenRetrievalError::NotAShader));
    assert_eq!(CompiledShader::source_len_of(INVALID_ENUM, 14), Err(SourceLenRetrievalError::InvalidEnum));
    assert_eq!(CompiledShader::source_len_of(0x0505, 14), Err(SourceLenRetrievalError::Unknown));
}

#[test]
fn source_fetch_outcomes() {
    let ok = b"void main(){}\0".to_vec();
    assert_eq!(CompiledShader::source_text(14, NO_ERROR, ok.clone()), Ok("void main(){}".to_string()));
    assert_eq!(CompiledShader::source_text(14, INVALID_VALUE, ok.clone()), Err(SourceRetrievalError::NotAnOpenGLValue));
    assert_eq!(CompiledShader::source_text(14, INVALID_OPERATION, ok.clone()), Err(SourceRetrievalError::NotAShader));
    assert_eq!(CompiledShader::source_text(14, INVALID_ENUM, ok.clone()), Err(SourceRetrievalError::Unknown));
    // A length one short cuts the nul byte off.
    assert_eq!(CompiledShader::source_text(13, NO_ERROR, ok), Err(SourceRetrievalError::MissingNullByte));
    assert_eq!(
        CompiledShader::source_text(3, NO_ERROR, vec![0xC3, 0x28, 0]),
        Err(SourceRetrievalError::InvalidUTF8LogSource)
    );
}

#[test]
fn compile_log_is_clamped_and_decoded() {
    let mut buf = b"bad token\0".to_vec();
    buf.resize(LOG_CAPACITY, 0xAA);
    assert_eq!(Shader::log_error(9, buf.clone()), ShaderCompileError::CompilationError("bad token".to_string()));
    // A written length that leaves the nul byte out of the kept bytes.
    assert_eq!(Shader::log_error(5, buf.clone()), ShaderCompileError::MissingNullByte);
    // A written length past the capacity keeps the whole buffer, which holds a
    // nul byte before its end.
    assert_eq!(Shader::log_error(5000, buf), ShaderCompileError::MissingNullByte);
    assert_eq!(Shader::log_error(2, vec![0xFF, 0xFE, 0]), ShaderCompileError::InvalidUTF8LogSource);
}

#[test]
fn shader_type_codes_and_names() {
    let codes = [0x91B9u32, 0x8B30, 0x8DD9, 0x8E88, 0x8E87, 0x8B31];
    let names = ["Compute", "FragmentShader", "GeometryShader", "TessControl", "TessEvaluation", "Vertex"];
    for i in 0..6 {
        assert_eq!(ALL_KINDS[i].code(), codes[i]);
        assert_eq!(ShaderType::from_code(codes[i]), Some(ALL_KINDS[i]));
        assert_eq!(ALL_KINDS[i].name(), names[i]);
    }
    assert_eq!(ShaderType::from_code(0), None);
}

#[test]
fn shaders_compare_by_identifier() {
    let mut d1 = Driver::new(FakeDriver::default());
    let mut d2 = Driver::new(FakeDriver::default());
    let a = Shader::new(&mut d1, ShaderType::Vertex).unwrap();
    let b = Shader::new(&mut d2, ShaderType::Compute).unwrap();
    let c = Shader::new(&mut d1, ShaderType::Vertex).unwrap();
    assert!(a == b);
    assert!(a != c);
    assert!(a.inner() == b.inner());
}

#[test]
fn compile_step_errors_are_their_own_and_release_the_shader() {
    for (code, expected) in [
        (INVALID_VALUE, ShaderCompileError::CompileNotAnOpenGLValue),
        (INVALID_OPERATION, ShaderCompileError::CompileNotAShader),
        (0x0505, ShaderCompileError::CompileUnknown),
    ] {
        let mut d = Driver::new(FakeDriver { fail_compile_with: Some(code), ..FakeDriver::default() });
        let s = Shader::new(&mut d, ShaderType::GeometryShader).expect("created");
        assert_eq!(s.compile(&mut d, "void main(){}").err(), Some(expected));
        assert_eq!(d.device().releases, vec![1]);
    }
}

#[test]
fn upload_failure_releases_the_shader() {
    let mut d = Driver::new(FakeDriver { fail_upload_with: Some(INVALID_VALUE), ..FakeDriver::default() });
    let s = Shader::new(&mut d, ShaderType::Vertex).expect("created");
    assert!(s.compile(&mut d, "void main(){}").is_err());
    assert_eq!(d.into_device().releases, vec![1]);
}

#[test]
fn status_decides_the_compile_transition() {
    let mut d = Driver::new(FakeDriver::default());
    let s = Shader::new(&mut d, ShaderType::Vertex).unwrap();
    let c = s.compile(&mut d, "void main(){ }").expect("non-zero status compiles");
    assert_eq!(c.get_id(), 1);
    assert_eq!(c.get_type(), ShaderType::Vertex);
    assert!(d.device().releases.is_empty());
    let s = Shader::new(&mut d, ShaderType::Compute).unwrap();
    assert!(matches!(s.compile(&mut d, "}"), Err(ShaderCompileError::CompilationError(_))));
    assert_eq!(d.device().releases, vec![2]);
}

#[test]
fn negative_length_is_cast_and_short_buffer_is_an_error() {
    assert_eq!(CompiledShader::source_len_of(NO_ERROR, -1), Ok(usize::MAX));
    assert_eq!(CompiledShader::source_len_of(NO_ERROR, 0), Ok(0));
    assert_eq!(
        CompiledShader::source_text(14, NO_ERROR, b"void\0".to_vec()),
        Err(SourceRetrievalError::Unknown)
    );
}

#[test]
fn shaders_order_by_identifier() {
    let mut d = Driver::new(FakeDriver::default());
    let a = Shader::new(&mut d, ShaderType::Vertex).unwrap();
    let b = Shader::new(&mut d, ShaderType::Compute).unwrap();
    assert!(a < b);
    assert!(b.inner() > a.inner());
    assert_eq!(a.partial_cmp(&a), Some(std::cmp::Ordering::Equal));
}
