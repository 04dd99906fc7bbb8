use vstd::prelude::*;
use vstd::string::StringSliceAdditionalSpecFns;
use vstd::utf8::{encode_utf8, decode_utf8_encode_utf8};
use crate::kind::{ShaderType, kind_code};
use crate::error::{
    NO_ERROR, ShaderCreationError, ShaderCompileError, SourceLenRetrievalError,
    SourceRetrievalError, creation_error, creation_error_spec, upload_call_result,
    upload_call_spec, compile_call_result, compile_call_spec, source_len_call_result,
    source_len_call_spec, source_fetch_call_result, source_fetch_call_spec,
};
use crate::text::{
    TextError, text_of, text_of_spec, c_string, c_string_spec, lemma_c_string_round_trip, prefix,
    clamp_len, clamp_len_spec,
};
use crate::driver::{
    ShaderDriver, Driver, DriverCall, extends, added, COMPILE_STATUS, SHADER_SOURCE_LENGTH,
};

verus! {

/// The capacity of the buffer that a compile log is read into.
pub const LOG_CAPACITY: usize = 1024;

/// The driver identifier and the kind of a shader.
#[derive(Debug)]
pub struct ShaderInner {
    /// The identifier the driver assigned to the shader.
    pub id: u32,
    /// The kind the shader was created for.
    pub kind: ShaderType,
}

/// An allocated shader that has not been compiled. Only `Shader::new` makes
/// one; compiling consumes it. A shader that is not compiled must be consumed
/// by `release`: dropping it leaves its driver object allocated.
#[derive(Debug)]
pub struct Shader {
    inner: ShaderInner,
}

/// The shader that a successful compilation consumed.
#[derive(Debug)]
pub struct CompiledShaderInner {
    /// The shader that was compiled.
    pub shader: Shader,
}

/// A shader whose source compiled. Only `Shader::compile` makes one. It must
/// be consumed by `release` (or handed on to whoever releases it): dropping
/// it leaves its driver object allocated.
#[derive(Debug)]
pub struct CompiledShader {
    inner: CompiledShaderInner,
}

/// What the source-length query answers, given the driver's error code and
/// the value it wrote, taken as a `usize` the way a cast takes it.
pub open spec fn source_len_spec(code: u32, value: i32) -> Result<usize, SourceLenRetrievalError> {
    match source_len_call_spec(code) {
        Ok(_) => Ok(value as usize),
        Err(e) => Err(e),
    }
}

/// `e` is the error that a compile log of `written` characters read into
/// `buffer` turns into: the log's text, or why it could not be read.
pub open spec fn log_error_spec(written: i32, buffer: Seq<u8>, e: ShaderCompileError) -> bool {
    match text_of_spec(buffer.subrange(0, clamp_len_spec(written, LOG_CAPACITY, buffer.len() as usize) as int)) {
        Ok(t) => e matches ShaderCompileError::CompilationError(s) && s@ == t,
        Err(TextError::MissingNul) => e == ShaderCompileError::MissingNullByte,
        Err(TextError::InvalidUtf8) => e == ShaderCompileError::InvalidUTF8LogSource,
    }
}

/// `r` is what a source fetch of `len` bytes yields, given the driver's error
/// code and the buffer it filled.
pub open spec fn source_text_spec(len: usize, code: u32, buffer: Seq<u8>, r: Result<String, SourceRetrievalError>) -> bool {
    match source_fetch_call_spec(code) {
        Err(e) => r == Err::<String, SourceRetrievalError>(e),
        Ok(_) => if buffer.len() < len {
            r == Err::<String, SourceRetrievalError>(SourceRetrievalError::Unknown)
        } else {
            match text_of_spec(buffer.subrange(0, len as int)) {
                Ok(t) => r matches Ok(s) && s@ == t,
                Err(TextError::MissingNul) => r == Err::<String, SourceRetrievalError>(SourceRetrievalError::MissingNullByte),
                Err(TextError::InvalidUtf8) => r == Err::<String, SourceRetrievalError>(SourceRetrievalError::InvalidUTF8LogSource),
            }
        },
    }
}

/// The calls `t` that creating a shader of `kind` makes, and its outcome `r`:
/// the allocation, then the error code only where the allocation returned 0.
pub open spec fn new_trace(kind: ShaderType, t: Seq<DriverCall>, r: Result<Shader, ShaderCreationError>) -> bool {
    t.len() >= 1 && match t[0] {
        DriverCall::Create { kind_code: code, id } => code == kind_code(kind) && if id != 0 {
            t.len() == 1 && (r matches Ok(s) && s.spec_id() == id && s.spec_kind() == kind)
        } else {
            t.len() == 2 && match t[1] {
                DriverCall::GetError { code: e } => r == Err::<Shader, ShaderCreationError>(creation_error_spec(kind, e)),
                _ => false,
            }
        },
        _ => false,
    }
}

/// The calls `t` from the compile status on, for shader `id` of `kind`: a
/// non-zero status gives the compiled shader; a zero status reads the log
/// once, releases the shader and fails with the log's error.
pub open spec fn status_trace(id: u32, kind: ShaderType, t: Seq<DriverCall>, r: Result<CompiledShader, ShaderCompileError>) -> bool {
    t.len() >= 1 && match t[0] {
        DriverCall::Param { id: i, param, value } => i == id && param == COMPILE_STATUS && if value != 0 {
            t.len() == 1 && (r matches Ok(c) && c.spec_id() == id && c.spec_kind() == kind)
        } else {
            t.len() == 3 && t[2] == DriverCall::Delete { id } && match t[1] {
                DriverCall::Log { id: j, capacity, written, buffer } => j == id && capacity == LOG_CAPACITY
                    && (r matches Err(e) && log_error_spec(written, buffer, e)),
                _ => false,
            }
        },
        _ => false,
    }
}

/// The calls `t` from the compile call on: an error code other than
/// `NO_ERROR` releases the shader and fails; otherwise the status decides.
pub open spec fn compile_step_trace(id: u32, kind: ShaderType, t: Seq<DriverCall>, r: Result<CompiledShader, ShaderCompileError>) -> bool {
    t.len() >= 2 && t[0] == DriverCall::Compile { id } && match t[1] {
        DriverCall::GetError { code } => match compile_call_spec(code) {
            Err(e) => t.len() == 3 && t[2] == DriverCall::Delete { id } && r == Err::<CompiledShader, ShaderCompileError>(e),
            Ok(_) => status_trace(id, kind, t.subrange(2, t.len() as int), r),
        },
        _ => false,
    }
}

/// The calls `t` that compiling shader `id` of `kind` with a source of bytes
/// `src` makes, and its outcome `r`. A source with a nul byte is refused
/// before the upload; every failure releases the shader exactly once; the
/// steps run in order, each only where the one before succeeded.
pub open spec fn compile_trace(id: u32, kind: ShaderType, src: Seq<u8>, t: Seq<DriverCall>, r: Result<CompiledShader, ShaderCompileError>) -> bool {
    match c_string_spec(src) {
        Err(p) => t == seq![DriverCall::Delete { id }]
            && r == Err::<CompiledShader, ShaderCompileError>(ShaderCompileError::InvalidUTF8Source { nul_position: p }),
        Ok(b) => t.len() >= 2 && t[0] == (DriverCall::Source { id, source: b }) && match t[1] {
            DriverCall::GetError { code } => match upload_call_spec(code) {
                Err(e) => t.len() == 3 && t[2] == DriverCall::Delete { id } && r == Err::<CompiledShader, ShaderCompileError>(e),
                Ok(_) => compile_step_trace(id, kind, t.subrange(2, t.len() as int), r),
            },
            _ => false,
        },
    }
}

/// The calls `t` that reading the source length of shader `id` makes: the
/// query, then the error code; `r` is what they answer.
pub open spec fn source_len_trace(id: u32, t: Seq<DriverCall>, r: Result<usize, SourceLenRetrievalError>) -> bool {
    t.len() == 2 && match (t[0], t[1]) {
        (DriverCall::Param { id: i, param, value }, DriverCall::GetError { code }) =>
            i == id && param == SHADER_SOURCE_LENGTH && r == source_len_spec(code, value),
        _ => false,
    }
}

/// The calls `t` that reading the source of shader `id` makes: the length,
/// then, only where it was read, one fetch of exactly that many bytes and its
/// error code.
pub open spec fn source_trace(id: u32, t: Seq<DriverCall>, r: Result<String, SourceRetrievalError>) -> bool {
    t.len() >= 2 && match (t[0], t[1]) {
        (DriverCall::Param { id: i, param, value }, DriverCall::GetError { code }) =>
            i == id && param == SHADER_SOURCE_LENGTH && match source_len_spec(code, value) {
                Err(e) => t.len() == 2
                    && r == Err::<String, SourceRetrievalError>(SourceRetrievalError::UnableToRetrieveSourceLength { source: e }),
                Ok(len) => t.len() == 4 && match (t[2], t[3]) {
                    (DriverCall::Fetch { id: j, capacity, buffer }, DriverCall::GetError { code: e2 }) =>
                        j == id && capacity == len && source_text_spec(len, e2, buffer, r),
                    _ => false,
                },
            },
        _ => false,
    }
}

impl PartialEq for ShaderInner {
    /// Two shaders are the same when their identifiers are.
    fn eq(&self, other: &ShaderInner) -> (r: bool) {
        self.id == other.id
    }
}

impl vstd::std_specs::cmp::PartialEqSpecImpl for ShaderInner {
    open spec fn obeys_eq_spec() -> bool {
        true
    }

    open spec fn eq_spec(&self, other: &ShaderInner) -> bool {
        self.id == other.id
    }
}

impl Eq for ShaderInner {}

impl PartialEq for Shader {
    /// Two shaders are the same when their identifiers are.
    fn eq(&self, other: &Shader) -> (r: bool) {
        self.inner.id == other.inner.id
    }
}

impl vstd::std_specs::cmp::PartialEqSpecImpl for Shader {
    open spec fn obeys_eq_spec() -> bool {
        true
    }

    open spec fn eq_spec(&self, other: &Shader) -> bool {
        self.spec_id() == other.spec_id()
    }
}

impl Eq for Shader {}

/// How two identifiers are ordered.
pub open spec fn id_order(a: u32, b: u32) -> Option<core::cmp::Ordering> {
    if a < b {
        Some(core::cmp::Ordering::Less)
    } else if a > b {
        Some(core::cmp::Ordering::Greater)
    } else {
        Some(core::cmp::Ordering::Equal)
    }
}

fn compare_ids(a: u32, b: u32) -> (r: Option<core::cmp::Ordering>)
    ensures
        r == id_order(a, b),
{
    if a < b {
        Some(core::cmp::Ordering::Less)
    } else if a > b {
        Some(core::cmp::Ordering::Greater)
    } else {
        Some(core::cmp::Ordering::Equal)
    }
}

impl PartialOrd for ShaderInner {
    /// Shaders are ordered by their identifiers, so that they can be kept in
    /// ordered collections.
    fn partial_cmp(&self, other: &ShaderInner) -> (r: Option<core::cmp::Ordering>) {
        compare_ids(self.id, other.id)
    }
}

impl vstd::std_specs::cmp::PartialOrdSpecImpl for ShaderInner {
    open spec fn obeys_partial_cmp_spec() -> bool {
        true
    }

    open spec fn partial_cmp_spec(&self, other: &ShaderInner) -> Option<core::cmp::Ordering> {
        id_order(self.id, other.id)
    }
}

impl PartialOrd for Shader {
    /// Shaders are ordered by their identifiers.
    fn partial_cmp(&self, other: &Shader) -> (r: Option<core::cmp::Ordering>) {
        compare_ids(self.inner.id, other.inner.id)
    }
}

impl vstd::std_specs::cmp::PartialOrdSpecImpl for Shader {
    open spec fn obeys_partial_cmp_spec() -> bool {
        true
    }

    open spec fn partial_cmp_spec(&self, other: &Shader) -> Option<core::cmp::Ordering> {
        id_order(self.spec_id(), other.spec_id())
    }
}

impl Shader {
    /// The driver identifier of the shader.
    pub closed spec fn spec_id(&self) -> u32 {
        self.inner.id
    }

    /// The kind of the shader.
    pub closed spec fn spec_kind(&self) -> ShaderType {
        self.inner.kind
    }

    /// The identifier and kind of the shader.
    pub fn inner(&self) -> (r: &ShaderInner)
        ensures
            r.id == self.spec_id(),
            r.kind == self.spec_kind(),
    {
        &self.inner
    }

    /// The identifier and kind of the shader, for change. Changing them
    /// detaches the shader from its driver object.
    pub fn inner_mut(&mut self) -> (r: &mut ShaderInner)
        ensures
            r.id == old(self).spec_id(),
            r.kind == old(self).spec_kind(),
            final(self).spec_id() == final(r).id,
            final(self).spec_kind() == final(r).kind,
    {
        &mut self.inner
    }

    /// The identifier the driver assigned to the shader.
    pub fn get_id(&self) -> (r: u32)
        ensures
            r == self.spec_id(),
    {
        self.inner.id
    }

    /// The kind of the shader.
    pub fn get_type(&self) -> (r: ShaderType)
        ensures
            r == self.spec_kind(),
    {
        self.inner.kind
    }

    /// The outcome of a creation call for `kind` that returned `id`, followed
    /// by the error code `code` (read only where `id` is 0).
    fn from_creation(kind: ShaderType, id: u32, code: u32) -> (r: Result<Shader, ShaderCreationError>)
        ensures
            id != 0 ==> (r matches Ok(s) && s.spec_id() == id && s.spec_kind() == kind),
            id == 0 ==> r == Err::<Shader, ShaderCreationError>(creation_error_spec(kind, code)),
    {
        if id == 0 {
            Err(creation_error(kind, code))
        } else {
            Ok(Shader { inner: ShaderInner { id, kind } })
        }
    }

    /// Allocates a shader of kind `kind`.
    pub fn new<D: ShaderDriver>(driver: &mut Driver<D>, kind: ShaderType) -> (r: Result<Shader, ShaderCreationError>)
        ensures
            extends(final(driver).calls(), old(driver).calls()),
            new_trace(kind, added(final(driver).calls(), old(driver).calls()), r),
            match r {
                Ok(s) => s.spec_kind() == kind && s.spec_id() != 0,
                Err(e) => e == ShaderCreationError::InvalidEnum(kind) || e == ShaderCreationError::Unknown,
            },
    {
        let ghost h = driver.calls();
        let id = driver.create_shader(kind.code());
        if id == 0 {
            let code = driver.get_error();
            proof {
                let t = added(driver.calls(), h);
                assert(t =~= seq![DriverCall::Create { kind_code: kind_code(kind), id }, DriverCall::GetError { code }]);
            }
            return Shader::from_creation(kind, id, code);
        }
        proof {
            assert(added(driver.calls(), h) =~= seq![DriverCall::Create { kind_code: kind_code(kind), id }]);
        }
        Shader::from_creation(kind, id, NO_ERROR)
    }

    /// Turns a compile log of `written` characters read into `buffer` into
    /// the error that a failed compilation reports.
    pub fn log_error(written: i32, buffer: Vec<u8>) -> (r: ShaderCompileError)
        ensures
            log_error_spec(written, buffer@, r),
    {
        let keep = clamp_len(written, LOG_CAPACITY, buffer.len());
        let bytes = prefix(&buffer, keep);
        match text_of(bytes) {
            Ok(s) => ShaderCompileError::CompilationError(s),
            Err(TextError::MissingNul) => ShaderCompileError::MissingNullByte,
            Err(TextError::InvalidUtf8) => ShaderCompileError::InvalidUTF8LogSource,
        }
    }

    /// Wraps the shader as compiled where the driver's compile status is
    /// non-zero, and hands it back otherwise.
    fn finish_compile(self, status: i32) -> (r: Result<CompiledShader, Shader>)
        ensures
            (status != 0) == r is Ok,
            r matches Ok(c) ==> c.spec_id() == self.spec_id() && c.spec_kind() == self.spec_kind(),
            r matches Err(s) ==> s.spec_id() == self.spec_id() && s.spec_kind() == self.spec_kind(),
    {
        if status != 0 {
            Ok(CompiledShader { inner: CompiledShaderInner { shader: self } })
        } else {
            Err(self)
        }
    }

    /// Uploads `src` as the shader's source and compiles it. The shader is
    /// consumed: on success it lives on inside the compiled shader, on
    /// failure its driver object is released.
    pub fn compile<D: ShaderDriver>(self, driver: &mut Driver<D>, src: &str) -> (r: Result<CompiledShader, ShaderCompileError>)
        ensures
            extends(final(driver).calls(), old(driver).calls()),
            compile_trace(self.spec_id(), self.spec_kind(), src.spec_bytes(), added(final(driver).calls(), old(driver).calls()), r),
    {
        let ghost h = driver.calls();
        let id = self.inner.id;
        let cstr = match c_string(src) {
            Ok(v) => v,
            Err(p) => {
                driver.delete_shader(id);
                proof {
                    assert(added(driver.calls(), h) =~= seq![DriverCall::Delete { id }]);
                }
                return Err(ShaderCompileError::InvalidUTF8Source { nul_position: p });
            },
        };
        driver.shader_source(id, &cstr);
        let code = driver.get_error();
        let ghost up = seq![DriverCall::Source { id, source: cstr@ }, DriverCall::GetError { code }];
        match upload_call_result(code) {
            Ok(()) => {},
            Err(e) => {
                driver.delete_shader(id);
                proof {
                    assert(added(driver.calls(), h) =~= up.push(DriverCall::Delete { id }));
                }
                return Err(e);
            },
        }
        driver.compile_shader(id);
        let code2 = driver.get_error();
        let ghost cp = seq![DriverCall::Compile { id }, DriverCall::GetError { code: code2 }];
        match compile_call_result(code2) {
            Ok(()) => {},
            Err(e) => {
                driver.delete_shader(id);
                proof {
                    let t = added(driver.calls(), h);
                    assert(t =~= up + cp.push(DriverCall::Delete { id }));
                    assert(t.subrange(2, t.len() as int) =~= cp.push(DriverCall::Delete { id }));
                }
                return Err(e);
            },
        }
        let status = driver.get_shader_param(id, COMPILE_STATUS);
        let ghost st = DriverCall::Param { id, param: COMPILE_STATUS, value: status };
        match self.finish_compile(status) {
            Ok(c) => {
                proof {
                    let t = added(driver.calls(), h);
                    assert(t =~= up + cp + seq![st]);
                    let t2 = t.subrange(2, t.len() as int);
                    assert(t2 =~= cp + seq![st]);
                    assert(t2.subrange(2, t2.len() as int) =~= seq![st]);
                }
                Ok(c)
            },
            Err(shader) => {
                let (written, buffer) = driver.shader_info_log(id, LOG_CAPACITY);
                let ghost lg = DriverCall::Log { id, capacity: LOG_CAPACITY, written, buffer: buffer@ };
                let e = Shader::log_error(written, buffer);
                shader.release(driver);
                proof {
                    let tail = seq![st, lg, DriverCall::Delete { id }];
                    let t = added(driver.calls(), h);
                    assert(t =~= up + cp + tail);
                    let t2 = t.subrange(2, t.len() as int);
                    assert(t2 =~= cp + tail);
                    assert(t2.subrange(2, t2.len() as int) =~= tail);
                }
                Err(e)
            },
        }
    }

    /// Releases the shader's driver object. The shader is consumed.
    pub fn release<D: ShaderDriver>(self, driver: &mut Driver<D>)
        ensures
            final(driver).calls() == old(driver).calls().push(DriverCall::Delete { id: self.spec_id() }),
    {
        driver.delete_shader(self.inner.id);
    }
}

impl CompiledShader {
    /// The driver identifier of the compiled shader.
    pub closed spec fn spec_id(&self) -> u32 {
        self.inner.shader.inner.id
    }

    /// The kind of the compiled shader.
    pub closed spec fn spec_kind(&self) -> ShaderType {
        self.inner.shader.inner.kind
    }

    /// The shader that was compiled.
    pub fn inner(&self) -> (r: &CompiledShaderInner)
        ensures
            r.shader.spec_id() == self.spec_id(),
            r.shader.spec_kind() == self.spec_kind(),
    {
        &self.inner
    }

    /// The compiled shader, for change. Changing it detaches the compiled
    /// shader from its driver object.
    pub fn inner_mut(&mut self) -> (r: &mut CompiledShaderInner)
        ensures
            r.shader.spec_id() == old(self).spec_id(),
            r.shader.spec_kind() == old(self).spec_kind(),
            final(self).spec_id() == final(r).shader.spec_id(),
            final(self).spec_kind() == final(r).shader.spec_kind(),
    {
        &mut self.inner
    }

    /// The identifier the driver assigned to the shader.
    pub fn get_id(&self) -> (r: u32)
        ensures
            r == self.spec_id(),
    {
        self.inner.shader.inner.id
    }

    /// The kind of the shader.
    pub fn get_type(&self) -> (r: ShaderType)
        ensures
            r == self.spec_kind(),
    {
        self.inner.shader.inner.kind
    }

    /// Reads the outcome of the source-length query: the driver's error code
    /// and the value it wrote.
    pub fn source_len_of(code: u32, value: i32) -> (r: Result<usize, SourceLenRetrievalError>)
        ensures
            r == source_len_spec(code, value),
    {
        match source_len_call_result(code) {
            Ok(()) => Ok(#[verifier::truncate] (value as usize)),
            Err(e) => Err(e),
        }
    }

    /// The length of the shader's source, nul byte included.
    pub fn get_source_len<D: ShaderDriver>(&self, driver: &mut Driver<D>) -> (r: Result<usize, SourceLenRetrievalError>)
        ensures
            extends(final(driver).calls(), old(driver).calls()),
            source_len_trace(self.spec_id(), added(final(driver).calls(), old(driver).calls()), r),
    {
        let ghost h = driver.calls();
        let id = self.get_id();
        let value = driver.get_shader_param(id, SHADER_SOURCE_LENGTH);
        let code = driver.get_error();
        proof {
            assert(added(driver.calls(), h) =~= seq![
                DriverCall::Param { id, param: SHADER_SOURCE_LENGTH, value },
                DriverCall::GetError { code },
            ]);
        }
        CompiledShader::source_len_of(code, value)
    }

    /// Reads the outcome of the source fetch into a buffer sized for `len`
    /// bytes: the driver's error code and the buffer. A buffer shorter than
    /// `len` is the driver's fault and reported as `Unknown`.
    pub fn source_text(len: usize, code: u32, buffer: Vec<u8>) -> (r: Result<String, SourceRetrievalError>)
        ensures
            source_text_spec(len, code, buffer@, r),
            r matches Ok(s) ==> !encode_utf8(s@).contains(0u8),
    {
        match source_fetch_call_result(code) {
            Ok(()) => {},
            Err(e) => return Err(e),
        }
        if buffer.len() < len {
            return Err(SourceRetrievalError::Unknown);
        }
        let ghost fetched = buffer@.subrange(0, len as int);
        let bytes = prefix(&buffer, len);
        match text_of(bytes) {
            Ok(s) => {
                proof {
                    lemma_text_has_no_nul(fetched, s@);
                }
                Ok(s)
            },
            Err(TextError::MissingNul) => Err(SourceRetrievalError::MissingNullByte),
            Err(TextError::InvalidUtf8) => Err(SourceRetrievalError::InvalidUTF8LogSource),
        }
    }

    /// Reads the shader's source back from the driver: first its length, then
    /// a buffer of exactly that many bytes.
    pub fn get_source<D: ShaderDriver>(&self, driver: &mut Driver<D>) -> (r: Result<String, SourceRetrievalError>)
        ensures
            extends(final(driver).calls(), old(driver).calls()),
            source_trace(self.spec_id(), added(final(driver).calls(), old(driver).calls()), r),
            r matches Ok(s) ==> !encode_utf8(s@).contains(0u8),
    {
        let ghost h = driver.calls();
        let len_result = self.get_source_len(driver);
        let ghost t1 = added(driver.calls(), h);
        let len = match len_result {
            Ok(n) => n,
            Err(e) => {
                proof {
                    assert(added(driver.calls(), h) =~= t1);
                }
                return Err(SourceRetrievalError::UnableToRetrieveSourceLength { source: e });
            },
        };
        let id = self.get_id();
        let buffer = driver.shader_source_text(id, len);
        let code = driver.get_error();
        let ghost fetch = DriverCall::Fetch { id, capacity: len, buffer: buffer@ };
        let r = CompiledShader::source_text(len, code, buffer);
        proof {
            assert(added(driver.calls(), h) =~= t1 + seq![fetch, DriverCall::GetError { code }]);
        }
        r
    }

    /// Releases the shader's driver object. The compiled shader is consumed.
    pub fn release<D: ShaderDriver>(self, driver: &mut Driver<D>)
        ensures
            final(driver).calls() == old(driver).calls().push(DriverCall::Delete { id: self.spec_id() }),
    {
        driver.delete_shader(self.inner.shader.inner.id);
    }
}

/// The text that a source fetch yields is one byte shorter than the length
/// the driver reported for it: the length counts the nul byte, the text does not.
pub proof fn lemma_source_len_consistent(len: usize, code: u32, buffer: Seq<u8>, r: Result<String, SourceRetrievalError>)
    requires
        source_text_spec(len, code, buffer, r),
        r is Ok,
    ensures
        encode_utf8(r->Ok_0@).len() + 1 == len,
{
    let b = buffer.subrange(0, len as int);
    decode_utf8_encode_utf8(b.drop_last());
}

/// What `compile` uploads for a text free of nul bytes, handed back by the
/// driver into a buffer of the length it reports, reads back as that text.
pub proof fn lemma_upload_fetch_round_trip(s: Seq<char>, r: Result<String, SourceRetrievalError>)
    requires
        !encode_utf8(s).contains(0u8),
        encode_utf8(s).len() < usize::MAX,
    ensures
        c_string_spec(encode_utf8(s)) matches Ok(b)
            && (source_text_spec(b.len() as usize, NO_ERROR, b, r) ==> (r matches Ok(x) && x@ == s)),
{
    lemma_c_string_round_trip(s);
    let b = encode_utf8(s).push(0);
    assert(b.subrange(0, b.len() as int) =~= b);
}

/// Text read from nul-terminated bytes holds no nul byte.
pub proof fn lemma_text_has_no_nul(b: Seq<u8>, t: Seq<char>)
    requires
        text_of_spec(b) == Ok::<Seq<char>, TextError>(t),
    ensures
        !encode_utf8(t).contains(0u8),
{
    decode_utf8_encode_utf8(b.drop_last());
    assert(encode_utf8(t) == b.drop_last());
    if encode_utf8(t).contains(0u8) {
        let i = choose|i: int| 0 <= i < encode_utf8(t).len() && encode_utf8(t)[i] == 0u8;
        assert(b[i] == 0);
    }
}

} // verus!
