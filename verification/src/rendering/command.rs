//! The calls that the renderer asks the graphics driver to make.
//!
//! A [`Command`] names one driver call together with its arguments. The
//! renderer never touches the driver itself: it decides which calls are due
//! and in which order, and queues them. Whoever owns the native context takes
//! the queue and performs it, one call per command.

use vstd::prelude::*;

verus! {

/// The kinds of driver object that the renderer creates and deletes.
#[derive(Clone, Copy, Debug, PartialEq, Eq, Structural)]
pub enum ObjectKind {
    Buffer,
    VertexArray,
    Texture,
    Framebuffer,
    Program,
    Shader,
}

/// The value of a uniform. Floating-point components are held as their
/// IEEE-754 bit patterns; matrices are in column-major order.
#[derive(Debug, PartialEq, Eq)]
pub enum UniformValue<W> {
    F32(u32),
    Vec2(u32, u32),
    Vec3(u32, u32, u32),
    Vec4(u32, u32, u32, u32),
    U32(u32),
    UVec2(u32, u32),
    UVec3(u32, u32, u32),
    UVec4(u32, u32, u32, u32),
    Mat2(W),
    Mat3(W),
    Mat4(W),
}

/// One driver call. `B` holds bytes, `T` text and `W` 32-bit words: vectors
/// and strings in a queued command, sequences in its view.
///
/// Objects are referred to by the names that the renderer hands out; the
/// performer keeps the native handle that belongs to each name.
#[allow(inconsistent_fields)]
#[derive(Debug, PartialEq, Eq)]
pub enum Command<B, T, W> {
    /// Make the context current on the calling thread.
    MakeCurrent,
    /// Release the context from the calling thread.
    MakeNotCurrent,
    /// Present the back buffer.
    SwapBuffers,
    Viewport { x: i32, y: i32, width: i32, height: i32 },
    /// The four components are IEEE-754 bit patterns.
    ClearColor { red: u32, green: u32, blue: u32, alpha: u32 },
    Clear { mask: u32 },
    MemoryBarrier { barriers: u32 },
    Enable { capability: u32 },
    Disable { capability: u32 },
    BlendFunc { source: u32, destination: u32 },
    CullFace { mode: u32 },
    FrontFace { mode: u32 },
    /// Create an object of a kind other than `Shader` under `name`.
    /// Failure to create it is fatal.
    CreateObject { kind: ObjectKind, name: u32 },
    /// Create a shader object for `stage` under `name`. Failure is fatal.
    CreateShader { name: u32, stage: u32 },
    DeleteObject { kind: ObjectKind, name: u32 },
    BindBuffer { target: u32, buffer: Option<u32> },
    BindBufferBase { target: u32, index: u32, buffer: Option<u32> },
    /// Give the bound buffer an immutable store of `size` bytes.
    BufferStorage { target: u32, size: i32, flags: u32 },
    BufferData { target: u32, data: B, usage: u32 },
    /// As `BufferData`, with each word laid out in the host's byte order.
    BufferDataWords { target: u32, data: W, usage: u32 },
    BufferSubData { target: u32, offset: i32, data: B },
    InvalidateBufferSubData { target: u32, offset: i32, length: i32 },
    CopyBufferSubData {
        read_target: u32,
        write_target: u32,
        read_offset: i32,
        write_offset: i32,
        size: i32,
    },
    /// Read `length` bytes back from the bound buffer and hand them to the
    /// caller of the performer.
    ReadBufferSubData { target: u32, offset: i32, length: i32 },
    BindVertexArray { array: Option<u32> },
    EnableVertexAttribArray { index: u32 },
    VertexAttribPointer {
        index: u32,
        size: i32,
        data_type: u32,
        normalized: bool,
        stride: i32,
        offset: i32,
    },
    DrawElements { mode: u32, count: i32, element_type: u32, offset: i32 },
    DrawArrays { mode: u32, first: i32, count: i32 },
    ShaderSource { shader: u32, source: T },
    CompileShader { shader: u32 },
    /// The shader must have compiled. If it has not, the performer stops the
    /// process with the diagnostics that `shader_log::compile_failure` makes of
    /// `name`, `source` and the driver's log.
    CheckCompiled { shader: u32, name: T, source: T },
    AttachShader { program: u32, shader: u32 },
    DetachShader { program: u32, shader: u32 },
    LinkProgram { program: u32 },
    /// The program must have linked; if it has not, this is fatal.
    CheckLinked { program: u32 },
    UseProgram { program: Option<u32> },
    DispatchCompute { x: u32, y: u32, z: u32 },
    /// Look `name` up in `program` and set it. A name that the program does
    /// not have is passed over in silence.
    SetUniform { program: u32, name: T, value: UniformValue<W> },
    ActiveTexture { unit: u32 },
    BindTexture { target: u32, texture: Option<u32> },
    TexParameterI32 { target: u32, parameter: u32, value: i32 },
    /// `value` is an IEEE-754 bit pattern.
    TexParameterF32 { target: u32, parameter: u32, value: u32 },
    TexImage2D {
        target: u32,
        level: i32,
        internal_format: i32,
        width: i32,
        height: i32,
        border: i32,
        format: u32,
        data_type: u32,
        pixels: Option<B>,
    },
    GenerateTextureMipmap { texture: u32 },
    BindImageTexture {
        unit: u32,
        texture: u32,
        level: i32,
        layered: bool,
        layer: i32,
        access: u32,
        format: u32,
    },
    BindFramebuffer { target: u32, framebuffer: Option<u32> },
    FramebufferTexture2D {
        target: u32,
        attachment: u32,
        texture_target: u32,
        texture: Option<u32>,
        level: i32,
    },
    DrawBuffers { buffers: W },
    /// The framebuffer bound to `target` must be complete; if it is not,
    /// this is fatal.
    CheckFramebufferComplete { target: u32 },
}

/// A command as it stands in the queue.
pub type GlCommand = Command<Vec<u8>, String, Vec<u32>>;

/// A command as contracts speak of it.
pub type CommandView = Command<Seq<u8>, Seq<char>, Seq<u32>>;

impl View for UniformValue<Vec<u32>> {
    type V = UniformValue<Seq<u32>>;

    open spec fn view(&self) -> UniformValue<Seq<u32>> {
        match self {
            UniformValue::F32(x) => UniformValue::F32(*x),
            UniformValue::Vec2(x, y) => UniformValue::Vec2(*x, *y),
            UniformValue::Vec3(x, y, z) => UniformValue::Vec3(*x, *y, *z),
            UniformValue::Vec4(x, y, z, w) => UniformValue::Vec4(*x, *y, *z, *w),
            UniformValue::U32(x) => UniformValue::U32(*x),
            UniformValue::UVec2(x, y) => UniformValue::UVec2(*x, *y),
            UniformValue::UVec3(x, y, z) => UniformValue::UVec3(*x, *y, *z),
            UniformValue::UVec4(x, y, z, w) => UniformValue::UVec4(*x, *y, *z, *w),
            UniformValue::Mat2(m) => UniformValue::Mat2(m@),
            UniformValue::Mat3(m) => UniformValue::Mat3(m@),
            UniformValue::Mat4(m) => UniformValue::Mat4(m@),
        }
    }
}

impl View for GlCommand {
    type V = CommandView;

    open spec fn view(&self) -> CommandView {
        match self {
            Command::MakeCurrent => Command::MakeCurrent,
            Command::MakeNotCurrent => Command::MakeNotCurrent,
            Command::SwapBuffers => Command::SwapBuffers,
            Command::Viewport { x, y, width, height } => Command::Viewport {
                x: *x,
                y: *y,
                width: *width,
                height: *height,
            },
            Command::ClearColor { red, green, blue, alpha } => Command::ClearColor {
                red: *red,
                green: *green,
                blue: *blue,
                alpha: *alpha,
            },
            Command::Clear { mask } => Command::Clear { mask: *mask },
            Command::MemoryBarrier { barriers } => Command::MemoryBarrier { barriers: *barriers },
            Command::Enable { capability } => Command::Enable { capability: *capability },
            Command::Disable { capability } => Command::Disable { capability: *capability },
            Command::BlendFunc { source, destination } => Command::BlendFunc {
                source: *source,
                destination: *destination,
            },
            Command::CullFace { mode } => Command::CullFace { mode: *mode },
            Command::FrontFace { mode } => Command::FrontFace { mode: *mode },
            Command::CreateObject { kind, name } => Command::CreateObject {
                kind: *kind,
                name: *name,
            },
            Command::CreateShader { name, stage } => Command::CreateShader {
                name: *name,
                stage: *stage,
            },
            Command::DeleteObject { kind, name } => Command::DeleteObject {
                kind: *kind,
                name: *name,
            },
            Command::BindBuffer { target, buffer } => Command::BindBuffer {
                target: *target,
                buffer: *buffer,
            },
            Command::BindBufferBase { target, index, buffer } => Command::BindBufferBase {
                target: *target,
                index: *index,
                buffer: *buffer,
            },
            Command::BufferStorage { target, size, flags } => Command::BufferStorage {
                target: *target,
                size: *size,
                flags: *flags,
            },
            Command::BufferData { target, data, usage } => Command::BufferData {
                target: *target,
                data: data@,
                usage: *usage,
            },
            Command::BufferDataWords { target, data, usage } => Command::BufferDataWords {
                target: *target,
                data: data@,
                usage: *usage,
            },
            Command::BufferSubData { target, offset, data } => Command::BufferSubData {
                target: *target,
                offset: *offset,
                data: data@,
            },
            Command::InvalidateBufferSubData {
                target,
                offset,
                length,
            } => Command::InvalidateBufferSubData {
                target: *target,
                offset: *offset,
                length: *length,
            },
            Command::CopyBufferSubData {
                read_target,
                write_target,
                read_offset,
                write_offset,
                size,
            } => Command::CopyBufferSubData {
                read_target: *read_target,
                write_target: *write_target,
                read_offset: *read_offset,
                write_offset: *write_offset,
                size: *size,
            },
            Command::ReadBufferSubData { target, offset, length } => Command::ReadBufferSubData {
                target: *target,
                offset: *offset,
                length: *length,
            },
            Command::BindVertexArray { array } => Command::BindVertexArray { array: *array },
            Command::EnableVertexAttribArray { index } => Command::EnableVertexAttribArray {
                index: *index,
            },
            Command::VertexAttribPointer {
                index,
                size,
                data_type,
                normalized,
                stride,
                offset,
            } => Command::VertexAttribPointer {
                index: *index,
                size: *size,
                data_type: *data_type,
                normalized: *normalized,
                stride: *stride,
                offset: *offset,
            },
            Command::DrawElements { mode, count, element_type, offset } => Command::DrawElements {
                mode: *mode,
                count: *count,
                element_type: *element_type,
                offset: *offset,
            },
            Command::DrawArrays { mode, first, count } => Command::DrawArrays {
                mode: *mode,
                first: *first,
                count: *count,
            },
            Command::ShaderSource { shader, source } => Command::ShaderSource {
                shader: *shader,
                source: source@,
            },
            Command::CompileShader { shader } => Command::CompileShader { shader: *shader },
            Command::CheckCompiled { shader, name, source } => Command::CheckCompiled {
                shader: *shader,
                name: name@,
                source: source@,
            },
            Command::AttachShader { program, shader } => Command::AttachShader {
                program: *program,
                shader: *shader,
            },
            Command::DetachShader { program, shader } => Command::DetachShader {
                program: *program,
                shader: *shader,
            },
            Command::LinkProgram { program } => Command::LinkProgram { program: *program },
            Command::CheckLinked { program } => Command::CheckLinked { program: *program },
            Command::UseProgram { program } => Command::UseProgram { program: *program },
            Command::DispatchCompute { x, y, z } => Command::DispatchCompute {
                x: *x,
                y: *y,
                z: *z,
            },
            Command::SetUniform { program, name, value } => Command::SetUniform {
                program: *program,
                name: name@,
                value: value@,
            },
            Command::ActiveTexture { unit } => Command::ActiveTexture { unit: *unit },
            Command::BindTexture { target, texture } => Command::BindTexture {
                target: *target,
                texture: *texture,
            },
            Command::TexParameterI32 { target, parameter, value } => Command::TexParameterI32 {
                target: *target,
                parameter: *parameter,
                value: *value,
            },
            Command::TexParameterF32 { target, parameter, value } => Command::TexParameterF32 {
                target: *target,
                parameter: *parameter,
                value: *value,
            },
            Command::TexImage2D {
                target,
                level,
                internal_format,
                width,
                height,
                border,
                format,
                data_type,
                pixels,
            } => Command::TexImage2D {
                target: *target,
                level: *level,
                internal_format: *internal_format,
                width: *width,
                height: *height,
                border: *border,
                format: *format,
                data_type: *data_type,
                pixels: match pixels {
                    Some(p) => Some(p@),
                    None => None,
                },
            },
            Command::GenerateTextureMipmap { texture } => Command::GenerateTextureMipmap {
                texture: *texture,
            },
            Command::BindImageTexture {
                unit,
                texture,
                level,
                layered,
                layer,
                access,
                format,
            } => Command::BindImageTexture {
                unit: *unit,
                texture: *texture,
                level: *level,
                layered: *layered,
                layer: *layer,
                access: *access,
                format: *format,
            },
            Command::BindFramebuffer { target, framebuffer } => Command::BindFramebuffer {
                target: *target,
                framebuffer: *framebuffer,
            },
            Command::FramebufferTexture2D {
                target,
                attachment,
                texture_target,
                texture,
                level,
            } => Command::FramebufferTexture2D {
                target: *target,
                attachment: *attachment,
                texture_target: *texture_target,
                texture: *texture,
                level: *level,
            },
            Command::DrawBuffers { buffers } => Command::DrawBuffers { buffers: buffers@ },
            Command::CheckFramebufferComplete { target } => Command::CheckFramebufferComplete {
                target: *target,
            },
        }
    }
}

impl DeepView for GlCommand {
    type V = CommandView;

    open spec fn deep_view(&self) -> CommandView {
        self@
    }
}

} // verus!
