use vstd::prelude::*;

verus! {

/// `GL_COMPILE_STATUS`.
pub const COMPILE_STATUS: u32 = 0x8B81;
/// `GL_SHADER_SOURCE_LENGTH`.
pub const SHADER_SOURCE_LENGTH: u32 = 0x8B88;

/// The graphics driver's shader entry points, as the handles use them.
///
/// Nothing is assumed of what a driver returns: every operation of the
/// handles states what holds for any answer, and hands each answer to a
/// function whose result is stated for every value of it.
pub trait ShaderDriver {
    /// Allocates a shader object for the kind with code `kind_code`; 0 on failure.
    fn create_shader(&mut self, kind_code: u32) -> u32;

    /// Takes the code of the last error the driver recorded, clearing it.
    fn get_error(&mut self) -> u32;

    /// Replaces the source of shader `id` with the nul-terminated `source`.
    fn shader_source(&mut self, id: u32, source: &Vec<u8>);

    /// Compiles the source of shader `id`.
    fn compile_shader(&mut self, id: u32);

    /// Reads the integer parameter `param` of shader `id`.
    fn get_shader_param(&mut self, id: u32, param: u32) -> i32;

    /// Reads at most `capacity` bytes of the compile log of shader `id`: the
    /// number of characters written before the nul byte, and the buffer.
    fn shader_info_log(&mut self, id: u32, capacity: usize) -> (i32, Vec<u8>);

    /// Reads at most `capacity` bytes of the nul-terminated source of shader `id`.
    fn shader_source_text(&mut self, id: u32, capacity: usize) -> Vec<u8>;

    /// Releases shader `id`.
    fn delete_shader(&mut self, id: u32);
}

/// One call the library made into the driver, with what came back.
pub enum DriverCall {
    /// `create_shader(kind_code)` returned `id`.
    Create { kind_code: u32, id: u32 },
    /// `get_error()` returned `code`.
    GetError { code: u32 },
    /// `shader_source(id, source)`.
    Source { id: u32, source: Seq<u8> },
    /// `compile_shader(id)`.
    Compile { id: u32 },
    /// `get_shader_param(id, param)` returned `value`.
    Param { id: u32, param: u32, value: i32 },
    /// `shader_info_log(id, capacity)` returned `(written, buffer)`.
    Log { id: u32, capacity: usize, written: i32, buffer: Seq<u8> },
    /// `shader_source_text(id, capacity)` returned `buffer`.
    Fetch { id: u32, capacity: usize, buffer: Seq<u8> },
    /// `delete_shader(id)`.
    Delete { id: u32 },
}

/// `after` starts with `before`.
pub open spec fn extends(after: Seq<DriverCall>, before: Seq<DriverCall>) -> bool {
    &&& before.len() <= after.len()
    &&& forall|i: int| 0 <= i < before.len() ==> #[trigger] after[i] == before[i]
}

/// The calls of `after` that follow `before`.
pub open spec fn added(after: Seq<DriverCall>, before: Seq<DriverCall>) -> Seq<DriverCall> {
    after.subrange(before.len() as int, after.len() as int)
}

/// A driver together with the record of every call the library made into it.
pub struct Driver<D: ShaderDriver> {
    device: D,
    calls: Ghost<Seq<DriverCall>>,
}

impl<D: ShaderDriver> Driver<D> {
    /// The calls made so far, oldest first.
    pub closed spec fn calls(&self) -> Seq<DriverCall> {
        self.calls@
    }

    /// Starts recording the calls made into `device`.
    pub fn new(device: D) -> (r: Self)
        ensures
            r.calls() == Seq::<DriverCall>::empty(),
    {
        Driver { device, calls: Ghost(Seq::empty()) }
    }

    /// The driver itself.
    pub fn device(&self) -> &D {
        &self.device
    }

    /// Gives the driver back.
    pub fn into_device(self) -> D {
        self.device
    }

    /// Allocates a shader object; 0 on failure.
    pub fn create_shader(&mut self, kind_code: u32) -> (id: u32)
        ensures
            final(self).calls() == old(self).calls().push(DriverCall::Create { kind_code, id }),
    {
        let id = self.device.create_shader(kind_code);
        self.calls = Ghost(self.calls@.push(DriverCall::Create { kind_code, id }));
        id
    }

    /// Takes the last error code.
    pub fn get_error(&mut self) -> (code: u32)
        ensures
            final(self).calls() == old(self).calls().push(DriverCall::GetError { code }),
    {
        let code = self.device.get_error();
        self.calls = Ghost(self.calls@.push(DriverCall::GetError { code }));
        code
    }

    /// Uploads a nul-terminated source.
    pub fn shader_source(&mut self, id: u32, source: &Vec<u8>)
        ensures
            final(self).calls() == old(self).calls().push(DriverCall::Source { id, source: source@ }),
    {
        self.device.shader_source(id, source);
        self.calls = Ghost(self.calls@.push(DriverCall::Source { id, source: source@ }));
    }

    /// Compiles the uploaded source.
    pub fn compile_shader(&mut self, id: u32)
        ensures
            final(self).calls() == old(self).calls().push(DriverCall::Compile { id }),
    {
        self.device.compile_shader(id);
        self.calls = Ghost(self.calls@.push(DriverCall::Compile { id }));
    }

    /// Reads an integer parameter of a shader.
    pub fn get_shader_param(&mut self, id: u32, param: u32) -> (value: i32)
        ensures
            final(self).calls() == old(self).calls().push(DriverCall::Param { id, param, value }),
    {
        let value = self.device.get_shader_param(id, param);
        self.calls = Ghost(self.calls@.push(DriverCall::Param { id, param, value }));
        value
    }

    /// Reads a compile log.
    pub fn shader_info_log(&mut self, id: u32, capacity: usize) -> (r: (i32, Vec<u8>))
        ensures
            final(self).calls() == old(self).calls().push(
                DriverCall::Log { id, capacity, written: r.0, buffer: r.1@ },
            ),
    {
        let (written, buffer) = self.device.shader_info_log(id, capacity);
        self.calls = Ghost(self.calls@.push(DriverCall::Log { id, capacity, written, buffer: buffer@ }));
        (written, buffer)
    }

    /// Reads a shader's source.
    pub fn shader_source_text(&mut self, id: u32, capacity: usize) -> (buffer: Vec<u8>)
        ensures
            final(self).calls() == old(self).calls().push(DriverCall::Fetch { id, capacity, buffer: buffer@ }),
    {
        let buffer = self.device.shader_source_text(id, capacity);
        self.calls = Ghost(self.calls@.push(DriverCall::Fetch { id, capacity, buffer: buffer@ }));
        buffer
    }

    /// Releases a shader object.
    pub fn delete_shader(&mut self, id: u32)
        ensures
            final(self).calls() == old(self).calls().push(DriverCall::Delete { id }),
    {
        self.device.delete_shader(id);
        self.calls = Ghost(self.calls@.push(DriverCall::Delete { id }));
    }
}

} // verus!
