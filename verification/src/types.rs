use vstd::prelude::*;

verus! {

// The native scalar types of the API, under their conventional names.
pub type Byte = i8;

pub type Ubyte = u8;

pub type Char = i8;

pub type Bitfield = u32;

pub type Enum = u32;

pub type Int = i32;

pub type Fixed = Int;

pub type Half = u16;

pub type Intptr = isize;

pub type Sizei = i32;

pub type Sizeiptr = isize;

pub type Uint = u32;

/// The API's boolean: exactly the native values 0 and 1.
#[derive(Copy, Clone, PartialEq, Eq, Structural, Debug)]
pub enum Bool {
    False,
    True,
}

impl Bool {
    /// The native value of this boolean.
    pub open spec fn spec_value(self) -> u8 {
        match self {
            Bool::False => 0,
            Bool::True => 1,
        }
    }

    pub fn value(self) -> (r: u8)
        ensures
            r == self.spec_value(),
    {
        match self {
            Bool::False => 0,
            Bool::True => 1,
        }
    }

    /// Accepts exactly the two native boolean values; every other integer is
    /// rejected.
    pub fn from_int(value: Int) -> (r: Option<Bool>)
        ensures
            value == 0 ==> r == Some(Bool::False),
            value == 1 ==> r == Some(Bool::True),
            value != 0 && value != 1 ==> r is None,
    {
        match value {
            0 => Some(Bool::False),
            1 => Some(Bool::True),
            _ => None,
        }
    }
}

impl From<bool> for Bool {
    fn from(value: bool) -> (r: Bool) {
        if value {
            Bool::True
        } else {
            Bool::False
        }
    }
}

impl vstd::std_specs::convert::FromSpecImpl<bool> for Bool {
    open spec fn obeys_from_spec() -> bool {
        true
    }

    open spec fn from_spec(value: bool) -> Bool {
        if value {
            Bool::True
        } else {
            Bool::False
        }
    }
}

/// The closed set of error codes the API's own error query can report.
#[derive(Copy, Clone, PartialEq, Eq, Structural, Debug)]
pub enum Error {
    NoError,
    InvalidEnum,
    InvalidValue,
    InvalidOperation,
    StackOverflow,
    StackUnderflow,
    OutOfMemory,
    InvalidFramebufferOperation,
}

impl Error {
    /// The native code of this error.
    pub open spec fn spec_value(self) -> u32 {
        match self {
            Error::NoError => 0x0,
            Error::InvalidEnum => 0x0500,
            Error::InvalidValue => 0x0501,
            Error::InvalidOperation => 0x0502,
            Error::StackOverflow => 0x0503,
            Error::StackUnderflow => 0x0504,
            Error::OutOfMemory => 0x0505,
            Error::InvalidFramebufferOperation => 0x0506,
        }
    }

    pub fn value(self) -> (r: u32)
        ensures
            r == self.spec_value(),
    {
        match self {
            Error::NoError => 0x0,
            Error::InvalidEnum => 0x0500,
            Error::InvalidValue => 0x0501,
            Error::InvalidOperation => 0x0502,
            Error::StackOverflow => 0x0503,
            Error::StackUnderflow => 0x0504,
            Error::OutOfMemory => 0x0505,
            Error::InvalidFramebufferOperation => 0x0506,
        }
    }

    /// Recognises exactly the codes of the closed set above.
    pub fn from_value(value: u32) -> (r: Option<Error>)
        ensures
            r matches Some(e) ==> e.spec_value() == value,
            r is None <==> !exists|e: Error| e.spec_value() == value,
    {
        let r = match value {
            0x0 => Some(Error::NoError),
            0x0500 => Some(Error::InvalidEnum),
            0x0501 => Some(Error::InvalidValue),
            0x0502 => Some(Error::InvalidOperation),
            0x0503 => Some(Error::StackOverflow),
            0x0504 => Some(Error::StackUnderflow),
            0x0505 => Some(Error::OutOfMemory),
            0x0506 => Some(Error::InvalidFramebufferOperation),
            _ => None,
        };
        proof {
            if r is Some {
                assert(r->0.spec_value() == value);
            } else {
                assert(forall|e: Error| e.spec_value() != value) by {
                    assert(Error::NoError.spec_value() == 0x0);
                };
            }
        }
        r
    }

    /// A human-readable description of the error, as the diagnostics print it.
    pub fn describe(self) -> (r: &'static str)
        ensures
            self == Error::NoError ==> r@ == "no error"@,
            self == Error::InvalidEnum ==> r@ == "invalid enum"@,
            self == Error::InvalidValue ==> r@ == "invalid value"@,
            self == Error::InvalidOperation ==> r@ == "invalid operation"@,
            self == Error::StackOverflow ==> r@ == "stack overflow"@,
            self == Error::StackUnderflow ==> r@ == "stack underflow"@,
            self == Error::OutOfMemory ==> r@ == "out of memory"@,
            self == Error::InvalidFramebufferOperation ==> r@ == "invalid framebuffer operation"@,
    {
        match self {
            Error::NoError => "no error",
            Error::InvalidEnum => "invalid enum",
            Error::InvalidValue => "invalid value",
            Error::InvalidOperation => "invalid operation",
            Error::StackOverflow => "stack overflow",
            Error::StackUnderflow => "stack underflow",
            Error::OutOfMemory => "out of memory",
            Error::InvalidFramebufferOperation => "invalid framebuffer operation",
        }
    }
}

/// Targets of the API's string query.
#[derive(Copy, Clone, PartialEq, Eq, Structural, Debug)]
pub enum Description {
    Vendor,
    Renderer,
    Version,
    ShadingLanguageVersion,
}

impl Description {
    pub open spec fn spec_value(self) -> u32 {
        match self {
            Description::Vendor => 0x1F00,
            Description::Renderer => 0x1F01,
            Description::Version => 0x1F02,
            Description::ShadingLanguageVersion => 0x8B8C,
        }
    }

    pub fn value(self) -> (r: u32)
        ensures
            r == self.spec_value(),
    {
        match self {
            Description::Vendor => 0x1F00,
            Description::Renderer => 0x1F01,
            Description::Version => 0x1F02,
            Description::ShadingLanguageVersion => 0x8B8C,
        }
    }
}

/// Capabilities that can be enabled or disabled.
#[derive(Copy, Clone, PartialEq, Eq, Structural, Debug)]
pub enum Capability {
    DebugOutput,
    Depth,
    CullFace,
    Blend,
    MultiSample,
    FramebufferSrgb,
}

impl Capability {
    pub open spec fn spec_value(self) -> u32 {
        match self {
            Capability::DebugOutput => 0x92E0,
            Capability::Depth => 0x0B71,
            Capability::CullFace => 0x0B44,
            Capability::Blend => 0x0BE2,
            Capability::MultiSample => 0x809D,
            Capability::FramebufferSrgb => 0x8DB9,
        }
    }

    pub fn value(self) -> (r: u32)
        ensures
            r == self.spec_value(),
    {
        match self {
            Capability::DebugOutput => 0x92E0,
            Capability::Depth => 0x0B71,
            Capability::CullFace => 0x0B44,
            Capability::Blend => 0x0BE2,
            Capability::MultiSample => 0x809D,
            Capability::FramebufferSrgb => 0x8DB9,
        }
    }
}

/// Which buffers a clear call touches; a bit mask combined with `or`.
#[derive(Copy, Clone, PartialEq, Eq, Structural, Debug)]
pub struct ClearMask(u32);

impl ClearMask {
    /// The raw bit pattern of the mask.
    pub closed spec fn spec_bits(self) -> u32 {
        self.0
    }

    pub open spec fn color_bit() -> u32 {
        0x4000
    }

    pub open spec fn depth_bit() -> u32 {
        0x100
    }

    pub open spec fn stencil_bit() -> u32 {
        0x400
    }

    pub fn none() -> (r: Self)
        ensures
            r.spec_bits() == 0,
    {
        ClearMask(0)
    }

    pub fn color() -> (r: Self)
        ensures
            r.spec_bits() == Self::color_bit(),
    {
        ClearMask(0x4000)
    }

    pub fn depth() -> (r: Self)
        ensures
            r.spec_bits() == Self::depth_bit(),
    {
        ClearMask(0x100)
    }

    pub fn stencil() -> (r: Self)
        ensures
            r.spec_bits() == Self::stencil_bit(),
    {
        ClearMask(0x400)
    }

    pub fn all() -> (r: Self)
        ensures
            r.spec_bits() == Self::color_bit() | Self::depth_bit() | Self::stencil_bit(),
    {
        ClearMask(0x4000 | 0x100 | 0x400)
    }

    /// The union of the two masks.
    pub fn or(self, other: Self) -> (r: Self)
        ensures
            r.spec_bits() == self.spec_bits() | other.spec_bits(),
    {
        ClearMask(self.0 | other.0)
    }

    /// Whether the mask selects any buffer at all.
    pub fn is_some(self) -> (r: bool)
        ensures
            r == (self.spec_bits() != 0),
    {
        self.0 != 0
    }

    pub fn bits(self) -> (r: u32)
        ensures
            r == self.spec_bits(),
    {
        self.0
    }
}

/// Primitive assembly modes for draw calls.
#[derive(Copy, Clone, PartialEq, Eq, Structural, Debug)]
pub enum Primitive {
    Triangles,
    TriangleStrip,
    TriangleFan,
}

impl Primitive {
    pub open spec fn spec_value(self) -> u32 {
        match self {
            Primitive::Triangles => 0x4,
            Primitive::TriangleStrip => 0x0005,
            Primitive::TriangleFan => 0x0006,
        }
    }

    pub fn value(self) -> (r: u32)
        ensures
            r == self.spec_value(),
    {
        match self {
            Primitive::Triangles => 0x4,
            Primitive::TriangleStrip => 0x0005,
            Primitive::TriangleFan => 0x0006,
        }
    }
}

/// First vertex index of a draw range.
#[derive(Copy, Clone, PartialEq, Eq, Structural, Debug)]
pub struct Start(pub Int);

/// Number of vertices or elements of a draw range.
#[derive(Copy, Clone, PartialEq, Eq, Structural, Debug)]
pub struct Count(pub Sizei);

/// Element index width of an indexed draw.
#[derive(Copy, Clone, PartialEq, Eq, Structural, Debug)]
pub enum ElementKind {
    UnsignedByte,
    UnsignedShort,
    UnsignedInt,
}

impl ElementKind {
    pub open spec fn spec_value(self) -> u32 {
        match self {
            ElementKind::UnsignedByte => 0x1401,
            ElementKind::UnsignedShort => 0x1403,
            ElementKind::UnsignedInt => 0x1405,
        }
    }

    pub fn value(self) -> (r: u32)
        ensures
            r == self.spec_value(),
    {
        match self {
            ElementKind::UnsignedByte => 0x1401,
            ElementKind::UnsignedShort => 0x1403,
            ElementKind::UnsignedInt => 0x1405,
        }
    }
}

/// Handle of a vertex array object; zero is the reserved "unbound" value.
#[derive(Copy, Clone, PartialEq, Eq, Structural, Debug)]
pub struct VertexArray(u32);

impl VertexArray {
    pub closed spec fn spec_raw(self) -> u32 {
        self.0
    }

    /// The reserved zero handle: nothing bound.
    pub fn none() -> (r: Self)
        ensures
            r.spec_raw() == 0,
    {
        VertexArray(0)
    }

    /// Wraps a handle issued by the API.
    pub fn from_raw(raw: u32) -> (r: Self)
        ensures
            r.spec_raw() == raw,
    {
        VertexArray(raw)
    }

    pub fn raw(self) -> (r: u32)
        ensures
            r == self.spec_raw(),
    {
        self.0
    }
}

/// Handle of a buffer object; zero is the reserved "unbound" value.
#[derive(Copy, Clone, PartialEq, Eq, Structural, Debug)]
pub struct Buffer(pub Uint);

impl Buffer {
    /// The reserved zero handle: nothing bound.
    pub fn none() -> (r: Self)
        ensures
            r.0 == 0,
    {
        Buffer(0)
    }
}

/// Targets a buffer object can be bound to.
#[derive(Copy, Clone, PartialEq, Eq, Structural, Debug)]
pub enum BufferTarget {
    ArrayBuffer,
    CopyReadBuffer,
    CopyWriteBuffer,
    ElementArrayBuffer,
    UniformBuffer,
    TextureBuffer,
}

impl BufferTarget {
    pub open spec fn spec_value(self) -> u32 {
        match self {
            BufferTarget::ArrayBuffer => 0x8892,
            BufferTarget::CopyReadBuffer => 0x8F36,
            BufferTarget::CopyWriteBuffer => 0x8F37,
            BufferTarget::ElementArrayBuffer => 0x8893,
            BufferTarget::UniformBuffer => 0x8A11,
            BufferTarget::TextureBuffer => 0x8C2A,
        }
    }

    pub fn value(self) -> (r: u32)
        ensures
            r == self.spec_value(),
    {
        match self {
            BufferTarget::ArrayBuffer => 0x8892,
            BufferTarget::CopyReadBuffer => 0x8F36,
            BufferTarget::CopyWriteBuffer => 0x8F37,
            BufferTarget::ElementArrayBuffer => 0x8893,
            BufferTarget::UniformBuffer => 0x8A11,
            BufferTarget::TextureBuffer => 0x8C2A,
        }
    }
}

/// Usage hints for buffer data stores.
#[derive(Copy, Clone, PartialEq, Eq, Structural, Debug)]
pub enum BufferUsage {
    StreamDraw,
    StreamRead,
    StreamCopy,
    StaticDraw,
    StaticRead,
    StaticCopy,
    DynamicDraw,
    DynamicRead,
    DynamicCopy,
}

impl BufferUsage {
    pub open spec fn spec_value(self) -> u32 {
        match self {
            BufferUsage::StreamDraw => 0x88E0,
            BufferUsage::StreamRead => 0x88E1,
            BufferUsage::StreamCopy => 0x88E2,
            BufferUsage::StaticDraw => 0x88E4,
            BufferUsage::StaticRead => 0x88E5,
            BufferUsage::StaticCopy => 0x88E6,
            BufferUsage::DynamicDraw => 0x88E8,
            BufferUsage::DynamicRead => 0x88E9,
            BufferUsage::DynamicCopy => 0x88EA,
        }
    }

    pub fn value(self) -> (r: u32)
        ensures
            r == self.spec_value(),
    {
        match self {
            BufferUsage::StreamDraw => 0x88E0,
            BufferUsage::StreamRead => 0x88E1,
            BufferUsage::StreamCopy => 0x88E2,
            BufferUsage::StaticDraw => 0x88E4,
            BufferUsage::StaticRead => 0x88E5,
            BufferUsage::StaticCopy => 0x88E6,
            BufferUsage::DynamicDraw => 0x88E8,
            BufferUsage::DynamicRead => 0x88E9,
            BufferUsage::DynamicCopy => 0x88EA,
        }
    }
}

/// Indexed buffer-binding slots; the closed set of slots this layer hands out.
#[allow(non_camel_case_types)]
#[derive(Copy, Clone, PartialEq, Eq, Structural, Debug)]
pub enum BufferBinding {
    ONE,
    TWO,
    THREE,
    FOUR,
    FIVE,
    SIX,
    SEVEN,
    EIGHT,
    NINE,
    TEN,
    ELEVEN,
    TWELVE,
}

impl BufferBinding {
    /// The slot index the API receives; the first slot is index zero.
    pub open spec fn spec_index(self) -> u32 {
        match self {
            BufferBinding::ONE => 0,
            BufferBinding::TWO => 1,
            BufferBinding::THREE => 2,
            BufferBinding::FOUR => 3,
            BufferBinding::FIVE => 4,
            BufferBinding::SIX => 5,
            BufferBinding::SEVEN => 6,
            BufferBinding::EIGHT => 7,
            BufferBinding::NINE => 8,
            BufferBinding::TEN => 9,
            BufferBinding::ELEVEN => 10,
            BufferBinding::TWELVE => 11,
        }
    }

    pub fn index(self) -> (r: u32)
        ensures
            r == self.spec_index(),
    {
        match self {
            BufferBinding::ONE => 0,
            BufferBinding::TWO => 1,
            BufferBinding::THREE => 2,
            BufferBinding::FOUR => 3,
            BufferBinding::FIVE => 4,
            BufferBinding::SIX => 5,
            BufferBinding::SEVEN => 6,
            BufferBinding::EIGHT => 7,
            BufferBinding::NINE => 8,
            BufferBinding::TEN => 9,
            BufferBinding::ELEVEN => 10,
            BufferBinding::TWELVE => 11,
        }
    }
}

/// Handle of a shader object.
#[derive(Copy, Clone, PartialEq, Eq, Structural, Debug)]
pub struct Shader(u32);

impl Shader {
    pub closed spec fn spec_raw(self) -> u32 {
        self.0
    }

    /// Wraps a handle issued by the API.
    pub fn from_raw(raw: u32) -> (r: Self)
        ensures
            r.spec_raw() == raw,
    {
        Shader(raw)
    }

    pub fn raw(self) -> (r: u32)
        ensures
            r == self.spec_raw(),
    {
        self.0
    }
}

/// The two shader stages this layer compiles.
#[derive(Copy, Clone, PartialEq, Eq, Structural, Debug)]
pub enum ShaderKind {
    Fragment,
    Vertex,
}

impl ShaderKind {
    pub open spec fn spec_value(self) -> u32 {
        match self {
            ShaderKind::Fragment => 0x8B30,
            ShaderKind::Vertex => 0x8B31,
        }
    }

    pub fn value(self) -> (r: u32)
        ensures
            r == self.spec_value(),
    {
        match self {
            ShaderKind::Fragment => 0x8B30,
            ShaderKind::Vertex => 0x8B31,
        }
    }
}

/// Handle of a linked program; zero is the reserved "unbound" value.
#[derive(Copy, Clone, PartialEq, Eq, Structural, Debug)]
pub struct Program(u32);

impl Program {
    pub closed spec fn spec_raw(self) -> u32 {
        self.0
    }

    /// The reserved zero handle: no program in use.
    pub fn none() -> (r: Self)
        ensures
            r.spec_raw() == 0,
    {
        Program(0)
    }

    /// Wraps a handle issued by the API.
    pub fn from_raw(raw: u32) -> (r: Self)
        ensures
            r.spec_raw() == raw,
    {
        Program(raw)
    }

    pub fn as_u32(&self) -> (r: u32)
        ensures
            r == self.spec_raw(),
    {
        self.0
    }
}

/// Queryable per-shader parameters.
#[derive(Copy, Clone, PartialEq, Eq, Structural, Debug)]
pub enum ShaderParameterName {
    CompileStatus,
    InfoLogLength,
}

impl ShaderParameterName {
    pub open spec fn spec_value(self) -> u32 {
        match self {
            ShaderParameterName::CompileStatus => 0x8B81,
            ShaderParameterName::InfoLogLength => 0x8B84,
        }
    }

    pub fn value(self) -> (r: u32)
        ensures
            r == self.spec_value(),
    {
        match self {
            ShaderParameterName::CompileStatus => 0x8B81,
            ShaderParameterName::InfoLogLength => 0x8B84,
        }
    }
}

/// Blend equation factors.
#[derive(Copy, Clone, PartialEq, Eq, Structural, Debug)]
pub enum BlendFactor {
    Zero,
    One,
    SrcColor,
    OneMinusSrcColor,
    DstColor,
    OneMinusDstColor,
    SrcAlpha,
    OneMinusSrcAlpha,
    DstAlpha,
    OneMinusDstAlpha,
    ConstantColor,
    OneMinusConstantColor,
    ConstantAlpha,
    OneMinusConstantAlpha,
    SrcAlphaSaturate,
    Src1Color,
    OneMinusSrc1Color,
    Src1Alpha,
    OneMinusSrc1Alpha,
}

impl BlendFactor {
    pub open spec fn spec_value(self) -> u32 {
        match self {
            BlendFactor::Zero => 0x0000,
            BlendFactor::One => 0x0001,
            BlendFactor::SrcColor => 0x0300,
            BlendFactor::OneMinusSrcColor => 0x0301,
            BlendFactor::DstColor => 0x0306,
            BlendFactor::OneMinusDstColor => 0x0307,
            BlendFactor::SrcAlpha => 0x0302,
            BlendFactor::OneMinusSrcAlpha => 0x0303,
            BlendFactor::DstAlpha => 0x0304,
            BlendFactor::OneMinusDstAlpha => 0x0305,
            BlendFactor::ConstantColor => 0x8001,
            BlendFactor::OneMinusConstantColor => 0x8002,
            BlendFactor::ConstantAlpha => 0x8003,
            BlendFactor::OneMinusConstantAlpha => 0x8004,
            BlendFactor::SrcAlphaSaturate => 0x0308,
            BlendFactor::Src1Color => 0x88F9,
            BlendFactor::OneMinusSrc1Color => 0x88FA,
            BlendFactor::Src1Alpha => 0x8589,
            BlendFactor::OneMinusSrc1Alpha => 0x88FB,
        }
    }

    pub fn value(self) -> (r: u32)
        ensures
            r == self.spec_value(),
    {
        match self {
            BlendFactor::Zero => 0x0000,
            BlendFactor::One => 0x0001,
            BlendFactor::SrcColor => 0x0300,
            BlendFactor::OneMinusSrcColor => 0x0301,
            BlendFactor::DstColor => 0x0306,
            BlendFactor::OneMinusDstColor => 0x0307,
            BlendFactor::SrcAlpha => 0x0302,
            BlendFactor::OneMinusSrcAlpha => 0x0303,
            BlendFactor::DstAlpha => 0x0304,
            BlendFactor::OneMinusDstAlpha => 0x0305,
            BlendFactor::ConstantColor => 0x8001,
            BlendFactor::OneMinusConstantColor => 0x8002,
            BlendFactor::ConstantAlpha => 0x8003,
            BlendFactor::OneMinusConstantAlpha => 0x8004,
            BlendFactor::SrcAlphaSaturate => 0x0308,
            BlendFactor::Src1Color => 0x88F9,
            BlendFactor::OneMinusSrc1Color => 0x88FA,
            BlendFactor::Src1Alpha => 0x8589,
            BlendFactor::OneMinusSrc1Alpha => 0x88FB,
        }
    }
}

/// Handle of a sampler object.
#[derive(Copy, Clone, PartialEq, Eq, Structural, Debug)]
pub struct Sampler(u32);

impl Sampler {
    pub closed spec fn spec_raw(self) -> u32 {
        self.0
    }

    /// Wraps a handle issued by the API.
    pub fn from_raw(raw: u32) -> (r: Self)
        ensures
            r.spec_raw() == raw,
    {
        Sampler(raw)
    }

    pub fn raw(self) -> (r: u32)
        ensures
            r == self.spec_raw(),
    {
        self.0
    }
}

/// Handle of a texture object.
#[derive(Copy, Clone, PartialEq, Eq, Structural, Debug)]
pub struct Texture(u32);

impl Texture {
    pub closed spec fn spec_raw(self) -> u32 {
        self.0
    }

    /// Wraps a handle issued by the API.
    pub fn from_raw(raw: u32) -> (r: Self)
        ensures
            r.spec_raw() == raw,
    {
        Texture(raw)
    }

    pub fn raw(self) -> (r: u32)
        ensures
            r == self.spec_raw(),
    {
        self.0
    }
}

/// Targets a texture can be bound to.
#[derive(Copy, Clone, PartialEq, Eq, Structural, Debug)]
pub enum TextureTarget {
    Texture2D,
}

impl TextureTarget {
    pub open spec fn spec_value(self) -> u32 {
        match self {
            TextureTarget::Texture2D => 0x0DE1,
        }
    }

    pub fn value(self) -> (r: u32)
        ensures
            r == self.spec_value(),
    {
        match self {
            TextureTarget::Texture2D => 0x0DE1,
        }
    }
}

/// Internal storage formats for textures.
#[derive(Copy, Clone, PartialEq, Eq, Structural, Debug)]
pub enum InternalFormat {
    R8,
    Rg8,
    Rgb8,
    Rgba8,
}

impl InternalFormat {
    pub open spec fn spec_value(self) -> u32 {
        match self {
            InternalFormat::R8 => 0x8229,
            InternalFormat::Rg8 => 0x822B,
            InternalFormat::Rgb8 => 0x8051,
            InternalFormat::Rgba8 => 0x8058,
        }
    }

    pub fn value(self) -> (r: u32)
        ensures
            r == self.spec_value(),
    {
        match self {
            InternalFormat::R8 => 0x8229,
            InternalFormat::Rg8 => 0x822B,
            InternalFormat::Rgb8 => 0x8051,
            InternalFormat::Rgba8 => 0x8058,
        }
    }
}

/// Channel layouts of texture data handed to the API.
#[derive(Copy, Clone, PartialEq, Eq, Structural, Debug)]
pub enum TextureFormat {
    Red,
    Rg,
    Rgb,
    Bgr,
    Rgba,
    Bgra,
}

impl TextureFormat {
    pub open spec fn spec_value(self) -> u32 {
        match self {
            TextureFormat::Red => 0x1903,
            TextureFormat::Rg => 0x8227,
            TextureFormat::Rgb => 0x1907,
            TextureFormat::Bgr => 0x80E0,
            TextureFormat::Rgba => 0x1908,
            TextureFormat::Bgra => 0x80E1,
        }
    }

    pub fn value(self) -> (r: u32)
        ensures
            r == self.spec_value(),
    {
        match self {
            TextureFormat::Red => 0x1903,
            TextureFormat::Rg => 0x8227,
            TextureFormat::Rgb => 0x1907,
            TextureFormat::Bgr => 0x80E0,
            TextureFormat::Rgba => 0x1908,
            TextureFormat::Bgra => 0x80E1,
        }
    }
}

/// Scalar types of texture data handed to the API.
#[derive(Copy, Clone, PartialEq, Eq, Structural, Debug)]
pub enum TextureDataFormat {
    U8,
    F32,
}

impl TextureDataFormat {
    pub open spec fn spec_value(self) -> u32 {
        match self {
            TextureDataFormat::U8 => 0x1401,
            TextureDataFormat::F32 => 0x1406,
        }
    }

    pub fn value(self) -> (r: u32)
        ensures
            r == self.spec_value(),
    {
        match self {
            TextureDataFormat::U8 => 0x1401,
            TextureDataFormat::F32 => 0x1406,
        }
    }
}

/// The texture border width; the API accepts only zero.
#[derive(Copy, Clone, PartialEq, Eq, Structural, Debug)]
pub enum Border {
    Zero,
}

impl Border {
    pub open spec fn spec_value(self) -> i32 {
        0
    }

    pub fn value(self) -> (r: i32)
        ensures
            r == self.spec_value(),
    {
        0
    }
}

/// A texture unit, named by its ordinal above the first unit's native value.
#[derive(Copy, Clone, PartialEq, Eq, Structural, Debug)]
pub struct TextureUnit(u32);

impl TextureUnit {
    /// The native value of the first texture unit.
    pub open spec fn base_value() -> u32 {
        0x84C0
    }

    pub closed spec fn spec_value(self) -> u32 {
        self.0
    }

    /// The first texture unit.
    pub fn zero() -> (r: Self)
        ensures
            r.spec_value() == Self::base_value(),
    {
        TextureUnit(0x84C0)
    }

    /// The unit at the given ordinal; the ordinal saturates instead of
    /// wrapping past the largest native value.
    pub fn new(unit: u32) -> (r: Self)
        ensures
            unit <= u32::MAX - Self::base_value() ==> r.spec_value() == Self::base_value() + unit,
            unit > u32::MAX - Self::base_value() ==> r.spec_value() == u32::MAX,
    {
        if unit <= u32::MAX - 0x84C0 {
            TextureUnit(0x84C0 + unit)
        } else {
            TextureUnit(u32::MAX)
        }
    }

    pub fn value(self) -> (r: u32)
        ensures
            r == self.spec_value(),
    {
        self.0
    }
}

/// Per-sampler parameters this layer sets.
#[derive(Copy, Clone, PartialEq, Eq, Structural, Debug)]
pub enum SamplerParameterName {
    TextureMagFilter,
    TextureMinFilter,
    TextureWrapS,
    TextureWrapT,
}

impl SamplerParameterName {
    pub open spec fn spec_value(self) -> u32 {
        match self {
            SamplerParameterName::TextureMagFilter => 0x2800,
            SamplerParameterName::TextureMinFilter => 0x2801,
            SamplerParameterName::TextureWrapS => 0x2802,
            SamplerParameterName::TextureWrapT => 0x2803,
        }
    }

    pub fn value(self) -> (r: u32)
        ensures
            r == self.spec_value(),
    {
        match self {
            SamplerParameterName::TextureMagFilter => 0x2800,
            SamplerParameterName::TextureMinFilter => 0x2801,
            SamplerParameterName::TextureWrapS => 0x2802,
            SamplerParameterName::TextureWrapT => 0x2803,
        }
    }
}

/// Values the sampler parameters accept.
#[derive(Copy, Clone, PartialEq, Eq, Structural, Debug)]
pub enum SamplerParameterValue {
    Nearest,
    Linear,
    ClampToEdge,
    Repeat,
    MirroredRepeat,
}

impl SamplerParameterValue {
    pub open spec fn spec_value(self) -> i32 {
        match self {
            SamplerParameterValue::Nearest => 0x2600,
            SamplerParameterValue::Linear => 0x2601,
            SamplerParameterValue::ClampToEdge => 0x812F,
            SamplerParameterValue::Repeat => 0x2901,
            SamplerParameterValue::MirroredRepeat => 0x8370,
        }
    }

    pub fn value(self) -> (r: i32)
        ensures
            r == self.spec_value(),
    {
        match self {
            SamplerParameterValue::Nearest => 0x2600,
            SamplerParameterValue::Linear => 0x2601,
            SamplerParameterValue::ClampToEdge => 0x812F,
            SamplerParameterValue::Repeat => 0x2901,
            SamplerParameterValue::MirroredRepeat => 0x8370,
        }
    }
}

} // verus!
