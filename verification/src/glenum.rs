//! OpenGL enumerations used by this library and their conversions to and from `GLenum`.
//!
//! The numeric values are those of the OpenGL registry.

use vstd::prelude::*;
use crate::program::ShaderType;

verus! {

/// The raw OpenGL enumeration type.
pub type GLenum = u32;

/// The raw OpenGL unsigned integer type, used for object names.
pub type GLuint = u32;

/// The raw OpenGL bit mask type.
pub type GLbitfield = u32;

/// The raw OpenGL signed integer type.
pub type GLint = i32;

pub const MAP_READ_BIT: GLbitfield = 0x0001;
pub const MAP_WRITE_BIT: GLbitfield = 0x0002;
pub const MAP_PERSISTENT_BIT: GLbitfield = 0x0040;
pub const DYNAMIC_STORAGE_BIT: GLbitfield = 0x0100;
pub const CLIENT_STORAGE_BIT: GLbitfield = 0x0200;
pub const SYNC_FLUSH_COMMANDS_BIT: GLbitfield = 0x0001;
pub const MAX_LABEL_LENGTH: GLenum = 0x82E8;
pub const TEXTURE_WRAP_T: GLenum = 0x2803;
pub const TEXTURE_WRAP_R: GLenum = 0x8072;
pub const PACK_SWAP_BYTES: GLenum = 0x0D00;
pub const PACK_LSB_FIRST: GLenum = 0x0D01;
pub const PACK_ALIGNMENT: GLenum = 0x0D05;
pub const PACK_ROW_LENGTH: GLenum = 0x0D02;
pub const PACK_IMAGE_HEIGHT: GLenum = 0x806C;
pub const PACK_SKIP_PIXELS: GLenum = 0x0D04;
pub const PACK_SKIP_ROWS: GLenum = 0x0D03;
pub const PACK_SKIP_IMAGES: GLenum = 0x806B;
pub const UNPACK_SWAP_BYTES: GLenum = 0x0CF0;
pub const UNPACK_LSB_FIRST: GLenum = 0x0CF1;
pub const UNPACK_ALIGNMENT: GLenum = 0x0CF5;
pub const UNPACK_ROW_LENGTH: GLenum = 0x0CF2;
pub const UNPACK_IMAGE_HEIGHT: GLenum = 0x806E;
pub const UNPACK_SKIP_PIXELS: GLenum = 0x0CF4;
pub const UNPACK_SKIP_ROWS: GLenum = 0x0CF3;
pub const UNPACK_SKIP_IMAGES: GLenum = 0x806D;

pub const BYTE: GLenum = 0x1400;
pub const UNSIGNED_BYTE: GLenum = 0x1401;
pub const SHORT: GLenum = 0x1402;
pub const UNSIGNED_SHORT: GLenum = 0x1403;
pub const INT: GLenum = 0x1404;
pub const UNSIGNED_INT: GLenum = 0x1405;
pub const FLOAT: GLenum = 0x1406;
pub const DOUBLE: GLenum = 0x140A;
pub const HALF_FLOAT: GLenum = 0x140B;
pub const FIXED: GLenum = 0x140C;
pub const INT_2_10_10_10_REV: GLenum = 0x8D9F;
pub const UNSIGNED_INT_2_10_10_10_REV: GLenum = 0x8368;
pub const UNSIGNED_INT_10F_11F_11F_REV: GLenum = 0x8C3B;
pub const BGRA: GLenum = 0x80E1;
pub const ARRAY_BUFFER: GLenum = 0x8892;
pub const ELEMENT_ARRAY_BUFFER: GLenum = 0x8893;
pub const COPY_READ_BUFFER: GLenum = 0x8F36;
pub const COPY_WRITE_BUFFER: GLenum = 0x8F37;
pub const PIXEL_UNPACK_BUFFER: GLenum = 0x88EC;
pub const PIXEL_PACK_BUFFER: GLenum = 0x88EB;
pub const QUERY_BUFFER: GLenum = 0x9192;
pub const TEXTURE_BUFFER: GLenum = 0x8C2A;
pub const TRANSFORM_FEEDBACK_BUFFER: GLenum = 0x8C8E;
pub const UNIFORM_BUFFER: GLenum = 0x8A11;
pub const DRAW_INDIRECT_BUFFER: GLenum = 0x8F3F;
pub const ATOMIC_COUNTER_BUFFER: GLenum = 0x92C0;
pub const DISPATCH_INDIRECT_BUFFER: GLenum = 0x90EE;
pub const SHADER_STORAGE_BUFFER: GLenum = 0x90D2;
pub const TEXTURE_1D: GLenum = 0x0DE0;
pub const TEXTURE_2D: GLenum = 0x0DE1;
pub const TEXTURE_3D: GLenum = 0x806F;
pub const TEXTURE_1D_ARRAY: GLenum = 0x8C18;
pub const TEXTURE_2D_ARRAY: GLenum = 0x8C1A;
pub const TEXTURE_RECTANGLE: GLenum = 0x84F5;
pub const TEXTURE_CUBE_MAP: GLenum = 0x8513;
pub const TEXTURE_CUBE_MAP_ARRAY: GLenum = 0x9009;
pub const TEXTURE_2D_MULTISAMPLE: GLenum = 0x9100;
pub const TEXTURE_2D_MULTISAMPLE_ARRAY: GLenum = 0x9102;
pub const TEXTURE_CUBE_MAP_POSITIVE_X: GLenum = 0x8515;
pub const TEXTURE_CUBE_MAP_NEGATIVE_X: GLenum = 0x8516;
pub const TEXTURE_CUBE_MAP_POSITIVE_Y: GLenum = 0x8517;
pub const TEXTURE_CUBE_MAP_NEGATIVE_Y: GLenum = 0x8518;
pub const TEXTURE_CUBE_MAP_POSITIVE_Z: GLenum = 0x8519;
pub const TEXTURE_CUBE_MAP_NEGATIVE_Z: GLenum = 0x851A;
pub const ALREADY_SIGNALED: GLenum = 0x911A;
pub const TIMEOUT_EXPIRED: GLenum = 0x911B;
pub const CONDITION_SATISFIED: GLenum = 0x911C;
pub const WAIT_FAILED: GLenum = 0x911D;
pub const NEAREST: GLenum = 0x2600;
pub const LINEAR: GLenum = 0x2601;
pub const NEAREST_MIPMAP_NEAREST: GLenum = 0x2700;
pub const LINEAR_MIPMAP_NEAREST: GLenum = 0x2701;
pub const NEAREST_MIPMAP_LINEAR: GLenum = 0x2702;
pub const LINEAR_MIPMAP_LINEAR: GLenum = 0x2703;
pub const NONE: GLenum = 0x0;
pub const COMPARE_REF_TO_TEXTURE: GLenum = 0x884E;
pub const NEVER: GLenum = 0x0200;
pub const LESS: GLenum = 0x0201;
pub const EQUAL: GLenum = 0x0202;
pub const LEQUAL: GLenum = 0x0203;
pub const GREATER: GLenum = 0x0204;
pub const NOTEQUAL: GLenum = 0x0205;
pub const GEQUAL: GLenum = 0x0206;
pub const ALWAYS: GLenum = 0x0207;
pub const REPEAT: GLenum = 0x2901;
pub const CLAMP_TO_BORDER: GLenum = 0x812D;
pub const CLAMP_TO_EDGE: GLenum = 0x812F;
pub const MIRRORED_REPEAT: GLenum = 0x8370;
pub const MIRROR_CLAMP_TO_EDGE: GLenum = 0x8743;
pub const RED: GLenum = 0x1903;
pub const GREEN: GLenum = 0x1904;
pub const BLUE: GLenum = 0x1905;
pub const ALPHA: GLenum = 0x1906;
pub const ZERO: GLenum = 0x0;
pub const ONE: GLenum = 0x1;
pub const BUFFER: GLenum = 0x82E0;
pub const FRAMEBUFFER: GLenum = 0x8D40;
pub const PROGRAM_PIPELINE: GLenum = 0x82E4;
pub const PROGRAM: GLenum = 0x82E2;
pub const QUERY: GLenum = 0x82E3;
pub const RENDERBUFFER: GLenum = 0x8D41;
pub const SAMPLER: GLenum = 0x82E6;
pub const SHADER: GLenum = 0x82E1;
pub const TEXTURE: GLenum = 0x1702;
pub const TRANSFORM_FEEDBACK: GLenum = 0x8E22;
pub const VERTEX_ARRAY: GLenum = 0x8074;

/// Errors reported by this library.
#[derive(Clone, PartialEq, Eq, Hash, Debug)]
pub enum GLError {
    ShaderCompilation(GLenum, ShaderType, String),
    ProgramLinking(GLenum, String),
    ProgramValidation(GLenum, String),
    InvalidEnum(GLenum, String),
    InvalidOperation(String),
    InvalidValue(String),
    InvalidBits(GLenum, String),
    BufferCopySizeError(usize, usize),
    FunctionNotLoaded(&'static str),
}

/// Integer component types for pixel and vertex data.
#[allow(non_camel_case_types)]
#[derive(Clone, Copy, PartialEq, Eq, Structural, Hash, Debug)]
pub enum IntType {
    Byte,
    UByte,
    Short,
    UShort,
    Int,
    UInt,
}

impl IntType {
    /// The `GLenum` value naming each variant.
    pub open spec fn spec_glenum(self) -> GLenum {
        match self {
            IntType::Byte => BYTE,
            IntType::UByte => UNSIGNED_BYTE,
            IntType::Short => SHORT,
            IntType::UShort => UNSIGNED_SHORT,
            IntType::Int => INT,
            IntType::UInt => UNSIGNED_INT,
        }
    }

    /// The variant named by a `GLenum` value, if any.
    pub open spec fn spec_from_glenum(e: GLenum) -> Option<IntType> {
        if e == BYTE {
            Some(IntType::Byte)
        } else if e == UNSIGNED_BYTE {
            Some(IntType::UByte)
        } else if e == SHORT {
            Some(IntType::Short)
        } else if e == UNSIGNED_SHORT {
            Some(IntType::UShort)
        } else if e == INT {
            Some(IntType::Int)
        } else if e == UNSIGNED_INT {
            Some(IntType::UInt)
        } else {
            None
        }
    }

    /// The `GLenum` naming this value.
    pub fn glenum(self) -> (e: GLenum)
        ensures
            e == self.spec_glenum(),
    {
        match self {
            IntType::Byte => BYTE,
            IntType::UByte => UNSIGNED_BYTE,
            IntType::Short => SHORT,
            IntType::UShort => UNSIGNED_SHORT,
            IntType::Int => INT,
            IntType::UInt => UNSIGNED_INT,
        }
    }

    /// The value named by `e`, or `GLError::InvalidEnum(e, "IntType")` when `e` names none.
    pub fn try_from_glenum(e: GLenum) -> (r: Result<IntType, GLError>)
        ensures
            match IntType::spec_from_glenum(e) {
                Some(t) => r == Ok::<Self, GLError>(t),
                None => r matches Err(GLError::InvalidEnum(v, s)) && v == e && s@ == "IntType"@,
            },
    {
        if e == BYTE {
            Ok(IntType::Byte)
        } else if e == UNSIGNED_BYTE {
            Ok(IntType::UByte)
        } else if e == SHORT {
            Ok(IntType::Short)
        } else if e == UNSIGNED_SHORT {
            Ok(IntType::UShort)
        } else if e == INT {
            Ok(IntType::Int)
        } else if e == UNSIGNED_INT {
            Ok(IntType::UInt)
        } else {
            Err(GLError::InvalidEnum(e, "IntType".to_owned()))
        }
    }

    /// Reading a value back from its `GLenum` gives the value, and only the
    /// `GLenum` of a value reads back as that value.
    pub proof fn lemma_glenum_roundtrip(t: IntType, e: GLenum)
        ensures
            IntType::spec_from_glenum(t.spec_glenum()) == Some(t),
            IntType::spec_from_glenum(e) == Some(t) ==> t.spec_glenum() == e,
    {
    }
}

/// Floating-point component types for pixel and vertex data.
#[allow(non_camel_case_types)]
#[derive(Clone, Copy, PartialEq, Eq, Structural, Hash, Debug)]
pub enum FloatType {
    Half,
    Float,
}

impl FloatType {
    /// The `GLenum` value naming each variant.
    pub open spec fn spec_glenum(self) -> GLenum {
        match self {
            FloatType::Half => HALF_FLOAT,
            FloatType::Float => FLOAT,
        }
    }

    /// The variant named by a `GLenum` value, if any.
    pub open spec fn spec_from_glenum(e: GLenum) -> Option<FloatType> {
        if e == HALF_FLOAT {
            Some(FloatType::Half)
        } else if e == FLOAT {
            Some(FloatType::Float)
        } else {
            None
        }
    }

    /// The `GLenum` naming this value.
    pub fn glenum(self) -> (e: GLenum)
        ensures
            e == self.spec_glenum(),
    {
        match self {
            FloatType::Half => HALF_FLOAT,
            FloatType::Float => FLOAT,
        }
    }

    /// The value named by `e`, or `GLError::InvalidEnum(e, "FloatType")` when `e` names none.
    pub fn try_from_glenum(e: GLenum) -> (r: Result<FloatType, GLError>)
        ensures
            match FloatType::spec_from_glenum(e) {
                Some(t) => r == Ok::<Self, GLError>(t),
                None => r matches Err(GLError::InvalidEnum(v, s)) && v == e && s@ == "FloatType"@,
            },
    {
        if e == HALF_FLOAT {
            Ok(FloatType::Half)
        } else if e == FLOAT {
            Ok(FloatType::Float)
        } else {
            Err(GLError::InvalidEnum(e, "FloatType".to_owned()))
        }
    }

    /// Reading a value back from its `GLenum` gives the value, and only the
    /// `GLenum` of a value reads back as that value.
    pub proof fn lemma_glenum_roundtrip(t: FloatType, e: GLenum)
        ensures
            FloatType::spec_from_glenum(t.spec_glenum()) == Some(t),
            FloatType::spec_from_glenum(e) == Some(t) ==> t.spec_glenum() == e,
    {
    }
}

/// All OpenGL data types that can encode vertex element index information.
#[allow(non_camel_case_types)]
#[derive(Clone, Copy, PartialEq, Eq, Structural, Hash, Debug)]
pub enum ElementType {
    UByte,
    UShort,
    UInt,
}

impl ElementType {
    /// The `GLenum` value naming each variant.
    pub open spec fn spec_glenum(self) -> GLenum {
        match self {
            ElementType::UByte => UNSIGNED_BYTE,
            ElementType::UShort => UNSIGNED_SHORT,
            ElementType::UInt => UNSIGNED_INT,
        }
    }

    /// The variant named by a `GLenum` value, if any.
    pub open spec fn spec_from_glenum(e: GLenum) -> Option<ElementType> {
        if e == UNSIGNED_BYTE {
            Some(ElementType::UByte)
        } else if e == UNSIGNED_SHORT {
            Some(ElementType::UShort)
        } else if e == UNSIGNED_INT {
            Some(ElementType::UInt)
        } else {
            None
        }
    }

    /// The `GLenum` naming this value.
    pub fn glenum(self) -> (e: GLenum)
        ensures
            e == self.spec_glenum(),
    {
        match self {
            ElementType::UByte => UNSIGNED_BYTE,
            ElementType::UShort => UNSIGNED_SHORT,
            ElementType::UInt => UNSIGNED_INT,
        }
    }

    /// The value named by `e`, or `GLError::InvalidEnum(e, "ElementType")` when `e` names none.
    pub fn try_from_glenum(e: GLenum) -> (r: Result<ElementType, GLError>)
        ensures
            match ElementType::spec_from_glenum(e) {
                Some(t) => r == Ok::<Self, GLError>(t),
                None => r matches Err(GLError::InvalidEnum(v, s)) && v == e && s@ == "ElementType"@,
            },
    {
        if e == UNSIGNED_BYTE {
            Ok(ElementType::UByte)
        } else if e == UNSIGNED_SHORT {
            Ok(ElementType::UShort)
        } else if e == UNSIGNED_INT {
            Ok(ElementType::UInt)
        } else {
            Err(GLError::InvalidEnum(e, "ElementType".to_owned()))
        }
    }

    /// Reading a value back from its `GLenum` gives the value, and only the
    /// `GLenum` of a value reads back as that value.
    pub proof fn lemma_glenum_roundtrip(t: ElementType, e: GLenum)
        ensures
            ElementType::spec_from_glenum(t.spec_glenum()) == Some(t),
            ElementType::spec_from_glenum(e) == Some(t) ==> t.spec_glenum() == e,
    {
    }
}

/// All OpenGL data types that can encode vertex attribute data.
#[allow(non_camel_case_types)]
#[derive(Clone, Copy, PartialEq, Eq, Structural, Hash, Debug)]
pub enum AttribType {
    Byte,
    UByte,
    Short,
    UShort,
    Int,
    UInt,
    Half,
    Float,
    Double,
    Fixed,
    Int_2_10_10_10_Rev,
    UInt_2_10_10_10_Rev,
    UInt_10F_11F_11F_Rev,
}

impl AttribType {
    /// The `GLenum` value naming each variant.
    pub open spec fn spec_glenum(self) -> GLenum {
        match self {
            AttribType::Byte => BYTE,
            AttribType::UByte => UNSIGNED_BYTE,
            AttribType::Short => SHORT,
            AttribType::UShort => UNSIGNED_SHORT,
            AttribType::Int => INT,
            AttribType::UInt => UNSIGNED_INT,
            AttribType::Half => HALF_FLOAT,
            AttribType::Float => FLOAT,
            AttribType::Double => DOUBLE,
            AttribType::Fixed => FIXED,
            AttribType::Int_2_10_10_10_Rev => INT_2_10_10_10_REV,
            AttribType::UInt_2_10_10_10_Rev => UNSIGNED_INT_2_10_10_10_REV,
            AttribType::UInt_10F_11F_11F_Rev => UNSIGNED_INT_10F_11F_11F_REV,
        }
    }

    /// The variant named by a `GLenum` value, if any.
    pub open spec fn spec_from_glenum(e: GLenum) -> Option<AttribType> {
        if e == BYTE {
            Some(AttribType::Byte)
        } else if e == UNSIGNED_BYTE {
            Some(AttribType::UByte)
        } else if e == SHORT {
            Some(AttribType::Short)
        } else if e == UNSIGNED_SHORT {
            Some(AttribType::UShort)
        } else if e == INT {
            Some(AttribType::Int)
        } else if e == UNSIGNED_INT {
            Some(AttribType::UInt)
        } else if e == HALF_FLOAT {
            Some(AttribType::Half)
        } else if e == FLOAT {
            Some(AttribType::Float)
        } else if e == DOUBLE {
            Some(AttribType::Double)
        } else if e == FIXED {
            Some(AttribType::Fixed)
        } else if e == INT_2_10_10_10_REV {
            Some(AttribType::Int_2_10_10_10_Rev)
        } else if e == UNSIGNED_INT_2_10_10_10_REV {
            Some(AttribType::UInt_2_10_10_10_Rev)
        } else if e == UNSIGNED_INT_10F_11F_11F_REV {
            Some(AttribType::UInt_10F_11F_11F_Rev)
        } else {
            None
        }
    }

    /// The `GLenum` naming this value.
    pub fn glenum(self) -> (e: GLenum)
        ensures
            e == self.spec_glenum(),
    {
        match self {
            AttribType::Byte => BYTE,
            AttribType::UByte => UNSIGNED_BYTE,
            AttribType::Short => SHORT,
            AttribType::UShort => UNSIGNED_SHORT,
            AttribType::Int => INT,
            AttribType::UInt => UNSIGNED_INT,
            AttribType::Half => HALF_FLOAT,
            AttribType::Float => FLOAT,
            AttribType::Double => DOUBLE,
            AttribType::Fixed => FIXED,
            AttribType::Int_2_10_10_10_Rev => INT_2_10_10_10_REV,
            AttribType::UInt_2_10_10_10_Rev => UNSIGNED_INT_2_10_10_10_REV,
            AttribType::UInt_10F_11F_11F_Rev => UNSIGNED_INT_10F_11F_11F_REV,
        }
    }

    /// The value named by `e`, or `GLError::InvalidEnum(e, "AttribType")` when `e` names none.
    pub fn try_from_glenum(e: GLenum) -> (r: Result<AttribType, GLError>)
        ensures
            match AttribType::spec_from_glenum(e) {
                Some(t) => r == Ok::<Self, GLError>(t),
                None => r matches Err(GLError::InvalidEnum(v, s)) && v == e && s@ == "AttribType"@,
            },
    {
        if e == BYTE {
            Ok(AttribType::Byte)
        } else if e == UNSIGNED_BYTE {
            Ok(AttribType::UByte)
        } else if e == SHORT {
            Ok(AttribType::Short)
        } else if e == UNSIGNED_SHORT {
            Ok(AttribType::UShort)
        } else if e == INT {
            Ok(AttribType::Int)
        } else if e == UNSIGNED_INT {
            Ok(AttribType::UInt)
        } else if e == HALF_FLOAT {
            Ok(AttribType::Half)
        } else if e == FLOAT {
            Ok(AttribType::Float)
        } else if e == DOUBLE {
            Ok(AttribType::Double)
        } else if e == FIXED {
            Ok(AttribType::Fixed)
        } else if e == INT_2_10_10_10_REV {
            Ok(AttribType::Int_2_10_10_10_Rev)
        } else if e == UNSIGNED_INT_2_10_10_10_REV {
            Ok(AttribType::UInt_2_10_10_10_Rev)
        } else if e == UNSIGNED_INT_10F_11F_11F_REV {
            Ok(AttribType::UInt_10F_11F_11F_Rev)
        } else {
            Err(GLError::InvalidEnum(e, "AttribType".to_owned()))
        }
    }

    /// Reading a value back from its `GLenum` gives the value, and only the
    /// `GLenum` of a value reads back as that value.
    pub proof fn lemma_glenum_roundtrip(t: AttribType, e: GLenum)
        ensures
            AttribType::spec_from_glenum(t.spec_glenum()) == Some(t),
            AttribType::spec_from_glenum(e) == Some(t) ==> t.spec_glenum() == e,
    {
    }
}

/// Binding targets for glBindBuffer and the calls acting on those targets.
#[allow(non_camel_case_types)]
#[derive(Clone, Copy, PartialEq, Eq, Structural, Hash, Debug)]
pub enum BufferTarget {
    ArrayBuffer,
    ElementArrayBuffer,
    CopyReadBuffer,
    CopyWriteBuffer,
    PixelUnpackBuffer,
    PixelPackBuffer,
    QueryBuffer,
    TextureBuffer,
    TransformFeedbackBuffer,
    UniformBuffer,
    DrawIndirectBuffer,
    AtomicCounterBuffer,
    DispatchIndirectBuffer,
    ShaderStorageBuffer,
}

impl BufferTarget {
    /// The `GLenum` value naming each variant.
    pub open spec fn spec_glenum(self) -> GLenum {
        match self {
            BufferTarget::ArrayBuffer => ARRAY_BUFFER,
            BufferTarget::ElementArrayBuffer => ELEMENT_ARRAY_BUFFER,
            BufferTarget::CopyReadBuffer => COPY_READ_BUFFER,
            BufferTarget::CopyWriteBuffer => COPY_WRITE_BUFFER,
            BufferTarget::PixelUnpackBuffer => PIXEL_UNPACK_BUFFER,
            BufferTarget::PixelPackBuffer => PIXEL_PACK_BUFFER,
            BufferTarget::QueryBuffer => QUERY_BUFFER,
            BufferTarget::TextureBuffer => TEXTURE_BUFFER,
            BufferTarget::TransformFeedbackBuffer => TRANSFORM_FEEDBACK_BUFFER,
            BufferTarget::UniformBuffer => UNIFORM_BUFFER,
            BufferTarget::DrawIndirectBuffer => DRAW_INDIRECT_BUFFER,
            BufferTarget::AtomicCounterBuffer => ATOMIC_COUNTER_BUFFER,
            BufferTarget::DispatchIndirectBuffer => DISPATCH_INDIRECT_BUFFER,
            BufferTarget::ShaderStorageBuffer => SHADER_STORAGE_BUFFER,
        }
    }

    /// The variant named by a `GLenum` value, if any.
    pub open spec fn spec_from_glenum(e: GLenum) -> Option<BufferTarget> {
        if e == ARRAY_BUFFER {
            Some(BufferTarget::ArrayBuffer)
        } else if e == ELEMENT_ARRAY_BUFFER {
            Some(BufferTarget::ElementArrayBuffer)
        } else if e == COPY_READ_BUFFER {
            Some(BufferTarget::CopyReadBuffer)
        } else if e == COPY_WRITE_BUFFER {
            Some(BufferTarget::CopyWriteBuffer)
        } else if e == PIXEL_UNPACK_BUFFER {
            Some(BufferTarget::PixelUnpackBuffer)
        } else if e == PIXEL_PACK_BUFFER {
            Some(BufferTarget::PixelPackBuffer)
        } else if e == QUERY_BUFFER {
            Some(BufferTarget::QueryBuffer)
        } else if e == TEXTURE_BUFFER {
            Some(BufferTarget::TextureBuffer)
        } else if e == TRANSFORM_FEEDBACK_BUFFER {
            Some(BufferTarget::TransformFeedbackBuffer)
        } else if e == UNIFORM_BUFFER {
            Some(BufferTarget::UniformBuffer)
        } else if e == DRAW_INDIRECT_BUFFER {
            Some(BufferTarget::DrawIndirectBuffer)
        } else if e == ATOMIC_COUNTER_BUFFER {
            Some(BufferTarget::AtomicCounterBuffer)
        } else if e == DISPATCH_INDIRECT_BUFFER {
            Some(BufferTarget::DispatchIndirectBuffer)
        } else if e == SHADER_STORAGE_BUFFER {
            Some(BufferTarget::ShaderStorageBuffer)
        } else {
            None
        }
    }

    /// The `GLenum` naming this value.
    pub fn glenum(self) -> (e: GLenum)
        ensures
            e == self.spec_glenum(),
    {
        match self {
            BufferTarget::ArrayBuffer => ARRAY_BUFFER,
            BufferTarget::ElementArrayBuffer => ELEMENT_ARRAY_BUFFER,
            BufferTarget::CopyReadBuffer => COPY_READ_BUFFER,
            BufferTarget::CopyWriteBuffer => COPY_WRITE_BUFFER,
            BufferTarget::PixelUnpackBuffer => PIXEL_UNPACK_BUFFER,
            BufferTarget::PixelPackBuffer => PIXEL_PACK_BUFFER,
            BufferTarget::QueryBuffer => QUERY_BUFFER,
            BufferTarget::TextureBuffer => TEXTURE_BUFFER,
            BufferTarget::TransformFeedbackBuffer => TRANSFORM_FEEDBACK_BUFFER,
            BufferTarget::UniformBuffer => UNIFORM_BUFFER,
            BufferTarget::DrawIndirectBuffer => DRAW_INDIRECT_BUFFER,
            BufferTarget::AtomicCounterBuffer => ATOMIC_COUNTER_BUFFER,
            BufferTarget::DispatchIndirectBuffer => DISPATCH_INDIRECT_BUFFER,
            BufferTarget::ShaderStorageBuffer => SHADER_STORAGE_BUFFER,
        }
    }

    /// The value named by `e`, or `GLError::InvalidEnum(e, "BufferTarget")` when `e` names none.
    pub fn try_from_glenum(e: GLenum) -> (r: Result<BufferTarget, GLError>)
        ensures
            match BufferTarget::spec_from_glenum(e) {
                Some(t) => r == Ok::<Self, GLError>(t),
                None => r matches Err(GLError::InvalidEnum(v, s)) && v == e && s@ == "BufferTarget"@,
            },
    {
        if e == ARRAY_BUFFER {
            Ok(BufferTarget::ArrayBuffer)
        } else if e == ELEMENT_ARRAY_BUFFER {
            Ok(BufferTarget::ElementArrayBuffer)
        } else if e == COPY_READ_BUFFER {
            Ok(BufferTarget::CopyReadBuffer)
        } else if e == COPY_WRITE_BUFFER {
            Ok(BufferTarget::CopyWriteBuffer)
        } else if e == PIXEL_UNPACK_BUFFER {
            Ok(BufferTarget::PixelUnpackBuffer)
        } else if e == PIXEL_PACK_BUFFER {
            Ok(BufferTarget::PixelPackBuffer)
        } else if e == QUERY_BUFFER {
            Ok(BufferTarget::QueryBuffer)
        } else if e == TEXTURE_BUFFER {
            Ok(BufferTarget::TextureBuffer)
        } else if e == TRANSFORM_FEEDBACK_BUFFER {
            Ok(BufferTarget::TransformFeedbackBuffer)
        } else if e == UNIFORM_BUFFER {
            Ok(BufferTarget::UniformBuffer)
        } else if e == DRAW_INDIRECT_BUFFER {
            Ok(BufferTarget::DrawIndirectBuffer)
        } else if e == ATOMIC_COUNTER_BUFFER {
            Ok(BufferTarget::AtomicCounterBuffer)
        } else if e == DISPATCH_INDIRECT_BUFFER {
            Ok(BufferTarget::DispatchIndirectBuffer)
        } else if e == SHADER_STORAGE_BUFFER {
            Ok(BufferTarget::ShaderStorageBuffer)
        } else {
            Err(GLError::InvalidEnum(e, "BufferTarget".to_owned()))
        }
    }

    /// Reading a value back from its `GLenum` gives the value, and only the
    /// `GLenum` of a value reads back as that value.
    pub proof fn lemma_glenum_roundtrip(t: BufferTarget, e: GLenum)
        ensures
            BufferTarget::spec_from_glenum(t.spec_glenum()) == Some(t),
            BufferTarget::spec_from_glenum(e) == Some(t) ==> t.spec_glenum() == e,
    {
    }
}

/// Binding targets for glBindBufferBase and glBindBufferRange.
#[allow(non_camel_case_types)]
#[derive(Clone, Copy, PartialEq, Eq, Structural, Hash, Debug)]
pub enum IndexedBufferTarget {
    TransformFeedbackBuffer,
    UniformBuffer,
    AtomicCounterBuffer,
    ShaderStorageBuffer,
}

impl IndexedBufferTarget {
    /// The `GLenum` value naming each variant.
    pub open spec fn spec_glenum(self) -> GLenum {
        match self {
            IndexedBufferTarget::TransformFeedbackBuffer => TRANSFORM_FEEDBACK_BUFFER,
            IndexedBufferTarget::UniformBuffer => UNIFORM_BUFFER,
            IndexedBufferTarget::AtomicCounterBuffer => ATOMIC_COUNTER_BUFFER,
            IndexedBufferTarget::ShaderStorageBuffer => SHADER_STORAGE_BUFFER,
        }
    }

    /// The variant named by a `GLenum` value, if any.
    pub open spec fn spec_from_glenum(e: GLenum) -> Option<IndexedBufferTarget> {
        if e == TRANSFORM_FEEDBACK_BUFFER {
            Some(IndexedBufferTarget::TransformFeedbackBuffer)
        } else if e == UNIFORM_BUFFER {
            Some(IndexedBufferTarget::UniformBuffer)
        } else if e == ATOMIC_COUNTER_BUFFER {
            Some(IndexedBufferTarget::AtomicCounterBuffer)
        } else if e == SHADER_STORAGE_BUFFER {
            Some(IndexedBufferTarget::ShaderStorageBuffer)
        } else {
            None
        }
    }

    /// The `GLenum` naming this value.
    pub fn glenum(self) -> (e: GLenum)
        ensures
            e == self.spec_glenum(),
    {
        match self {
            IndexedBufferTarget::TransformFeedbackBuffer => TRANSFORM_FEEDBACK_BUFFER,
            IndexedBufferTarget::UniformBuffer => UNIFORM_BUFFER,
            IndexedBufferTarget::AtomicCounterBuffer => ATOMIC_COUNTER_BUFFER,
            IndexedBufferTarget::ShaderStorageBuffer => SHADER_STORAGE_BUFFER,
        }
    }

    /// The value named by `e`, or `GLError::InvalidEnum(e, "IndexedBufferTarget")` when `e` names none.
    pub fn try_from_glenum(e: GLenum) -> (r: Result<IndexedBufferTarget, GLError>)
        ensures
            match IndexedBufferTarget::spec_from_glenum(e) {
                Some(t) => r == Ok::<Self, GLError>(t),
                None => r matches Err(GLError::InvalidEnum(v, s)) && v == e && s@ == "IndexedBufferTarget"@,
            },
    {
        if e == TRANSFORM_FEEDBACK_BUFFER {
            Ok(IndexedBufferTarget::TransformFeedbackBuffer)
        } else if e == UNIFORM_BUFFER {
            Ok(IndexedBufferTarget::UniformBuffer)
        } else if e == ATOMIC_COUNTER_BUFFER {
            Ok(IndexedBufferTarget::AtomicCounterBuffer)
        } else if e == SHADER_STORAGE_BUFFER {
            Ok(IndexedBufferTarget::ShaderStorageBuffer)
        } else {
            Err(GLError::InvalidEnum(e, "IndexedBufferTarget".to_owned()))
        }
    }

    /// Reading a value back from its `GLenum` gives the value, and only the
    /// `GLenum` of a value reads back as that value.
    pub proof fn lemma_glenum_roundtrip(t: IndexedBufferTarget, e: GLenum)
        ensures
            IndexedBufferTarget::spec_from_glenum(t.spec_glenum()) == Some(t),
            IndexedBufferTarget::spec_from_glenum(e) == Some(t) ==> t.spec_glenum() == e,
    {
    }
}

/// Results of waiting on a fence.
#[allow(non_camel_case_types)]
#[derive(Clone, Copy, PartialEq, Eq, Structural, Hash, Debug)]
pub enum SyncStatus {
    AlreadySignaled,
    TimeoutExpired,
    ConditionSatisfied,
    WaitFailed,
}

impl SyncStatus {
    /// The `GLenum` value naming each variant.
    pub open spec fn spec_glenum(self) -> GLenum {
        match self {
            SyncStatus::AlreadySignaled => ALREADY_SIGNALED,
            SyncStatus::TimeoutExpired => TIMEOUT_EXPIRED,
            SyncStatus::ConditionSatisfied => CONDITION_SATISFIED,
            SyncStatus::WaitFailed => WAIT_FAILED,
        }
    }

    /// The variant named by a `GLenum` value, if any.
    pub open spec fn spec_from_glenum(e: GLenum) -> Option<SyncStatus> {
        if e == ALREADY_SIGNALED {
            Some(SyncStatus::AlreadySignaled)
        } else if e == TIMEOUT_EXPIRED {
            Some(SyncStatus::TimeoutExpired)
        } else if e == CONDITION_SATISFIED {
            Some(SyncStatus::ConditionSatisfied)
        } else if e == WAIT_FAILED {
            Some(SyncStatus::WaitFailed)
        } else {
            None
        }
    }

    /// The `GLenum` naming this value.
    pub fn glenum(self) -> (e: GLenum)
        ensures
            e == self.spec_glenum(),
    {
        match self {
            SyncStatus::AlreadySignaled => ALREADY_SIGNALED,
            SyncStatus::TimeoutExpired => TIMEOUT_EXPIRED,
            SyncStatus::ConditionSatisfied => CONDITION_SATISFIED,
            SyncStatus::WaitFailed => WAIT_FAILED,
        }
    }

    /// The value named by `e`, or `GLError::InvalidEnum(e, "SyncStatus")` when `e` names none.
    pub fn try_from_glenum(e: GLenum) -> (r: Result<SyncStatus, GLError>)
        ensures
            match SyncStatus::spec_from_glenum(e) {
                Some(t) => r == Ok::<Self, GLError>(t),
                None => r matches Err(GLError::InvalidEnum(v, s)) && v == e && s@ == "SyncStatus"@,
            },
    {
        if e == ALREADY_SIGNALED {
            Ok(SyncStatus::AlreadySignaled)
        } else if e == TIMEOUT_EXPIRED {
            Ok(SyncStatus::TimeoutExpired)
        } else if e == CONDITION_SATISFIED {
            Ok(SyncStatus::ConditionSatisfied)
        } else if e == WAIT_FAILED {
            Ok(SyncStatus::WaitFailed)
        } else {
            Err(GLError::InvalidEnum(e, "SyncStatus".to_owned()))
        }
    }

    /// Reading a value back from its `GLenum` gives the value, and only the
    /// `GLenum` of a value reads back as that value.
    pub proof fn lemma_glenum_roundtrip(t: SyncStatus, e: GLenum)
        ensures
            SyncStatus::spec_from_glenum(t.spec_glenum()) == Some(t),
            SyncStatus::spec_from_glenum(e) == Some(t) ==> t.spec_glenum() == e,
    {
    }
}

/// Magnification filters of samplers and textures.
#[allow(non_camel_case_types)]
#[derive(Clone, Copy, PartialEq, Eq, Structural, Hash, Debug)]
pub enum MagFilter {
    Linear,
    Nearest,
}

impl MagFilter {
    /// The `GLenum` value naming each variant.
    pub open spec fn spec_glenum(self) -> GLenum {
        match self {
            MagFilter::Linear => LINEAR,
            MagFilter::Nearest => NEAREST,
        }
    }

    /// The variant named by a `GLenum` value, if any.
    pub open spec fn spec_from_glenum(e: GLenum) -> Option<MagFilter> {
        if e == LINEAR {
            Some(MagFilter::Linear)
        } else if e == NEAREST {
            Some(MagFilter::Nearest)
        } else {
            None
        }
    }

    /// The `GLenum` naming this value.
    pub fn glenum(self) -> (e: GLenum)
        ensures
            e == self.spec_glenum(),
    {
        match self {
            MagFilter::Linear => LINEAR,
            MagFilter::Nearest => NEAREST,
        }
    }

    /// The value named by `e`, or `GLError::InvalidEnum(e, "MagFilter")` when `e` names none.
    pub fn try_from_glenum(e: GLenum) -> (r: Result<MagFilter, GLError>)
        ensures
            match MagFilter::spec_from_glenum(e) {
                Some(t) => r == Ok::<Self, GLError>(t),
                None => r matches Err(GLError::InvalidEnum(v, s)) && v == e && s@ == "MagFilter"@,
            },
    {
        if e == LINEAR {
            Ok(MagFilter::Linear)
        } else if e == NEAREST {
            Ok(MagFilter::Nearest)
        } else {
            Err(GLError::InvalidEnum(e, "MagFilter".to_owned()))
        }
    }

    /// Reading a value back from its `GLenum` gives the value, and only the
    /// `GLenum` of a value reads back as that value.
    pub proof fn lemma_glenum_roundtrip(t: MagFilter, e: GLenum)
        ensures
            MagFilter::spec_from_glenum(t.spec_glenum()) == Some(t),
            MagFilter::spec_from_glenum(e) == Some(t) ==> t.spec_glenum() == e,
    {
    }
}

/// Minification filters of samplers and textures.
#[allow(non_camel_case_types)]
#[derive(Clone, Copy, PartialEq, Eq, Structural, Hash, Debug)]
pub enum MinFilter {
    Linear,
    Nearest,
    NearestMipmapNearest,
    LinearMipmapNearest,
    NearestMipmapLinear,
    LinearMipmapLinear,
}

impl MinFilter {
    /// The `GLenum` value naming each variant.
    pub open spec fn spec_glenum(self) -> GLenum {
        match self {
            MinFilter::Linear => LINEAR,
            MinFilter::Nearest => NEAREST,
            MinFilter::NearestMipmapNearest => NEAREST_MIPMAP_NEAREST,
            MinFilter::LinearMipmapNearest => LINEAR_MIPMAP_NEAREST,
            MinFilter::NearestMipmapLinear => NEAREST_MIPMAP_LINEAR,
            MinFilter::LinearMipmapLinear => LINEAR_MIPMAP_LINEAR,
        }
    }

    /// The variant named by a `GLenum` value, if any.
    pub open spec fn spec_from_glenum(e: GLenum) -> Option<MinFilter> {
        if e == LINEAR {
            Some(MinFilter::Linear)
        } else if e == NEAREST {
            Some(MinFilter::Nearest)
        } else if e == NEAREST_MIPMAP_NEAREST {
            Some(MinFilter::NearestMipmapNearest)
        } else if e == LINEAR_MIPMAP_NEAREST {
            Some(MinFilter::LinearMipmapNearest)
        } else if e == NEAREST_MIPMAP_LINEAR {
            Some(MinFilter::NearestMipmapLinear)
        } else if e == LINEAR_MIPMAP_LINEAR {
            Some(MinFilter::LinearMipmapLinear)
        } else {
            None
        }
    }

    /// The `GLenum` naming this value.
    pub fn glenum(self) -> (e: GLenum)
        ensures
            e == self.spec_glenum(),
    {
        match self {
            MinFilter::Linear => LINEAR,
            MinFilter::Nearest => NEAREST,
            MinFilter::NearestMipmapNearest => NEAREST_MIPMAP_NEAREST,
            MinFilter::LinearMipmapNearest => LINEAR_MIPMAP_NEAREST,
            MinFilter::NearestMipmapLinear => NEAREST_MIPMAP_LINEAR,
            MinFilter::LinearMipmapLinear => LINEAR_MIPMAP_LINEAR,
        }
    }

    /// The value named by `e`, or `GLError::InvalidEnum(e, "MinFilter")` when `e` names none.
    pub fn try_from_glenum(e: GLenum) -> (r: Result<MinFilter, GLError>)
        ensures
            match MinFilter::spec_from_glenum(e) {
                Some(t) => r == Ok::<Self, GLError>(t),
                None => r matches Err(GLError::InvalidEnum(v, s)) && v == e && s@ == "MinFilter"@,
            },
    {
        if e == LINEAR {
            Ok(MinFilter::Linear)
        } else if e == NEAREST {
            Ok(MinFilter::Nearest)
        } else if e == NEAREST_MIPMAP_NEAREST {
            Ok(MinFilter::NearestMipmapNearest)
        } else if e == LINEAR_MIPMAP_NEAREST {
            Ok(MinFilter::LinearMipmapNearest)
        } else if e == NEAREST_MIPMAP_LINEAR {
            Ok(MinFilter::NearestMipmapLinear)
        } else if e == LINEAR_MIPMAP_LINEAR {
            Ok(MinFilter::LinearMipmapLinear)
        } else {
            Err(GLError::InvalidEnum(e, "MinFilter".to_owned()))
        }
    }

    /// Reading a value back from its `GLenum` gives the value, and only the
    /// `GLenum` of a value reads back as that value.
    pub proof fn lemma_glenum_roundtrip(t: MinFilter, e: GLenum)
        ensures
            MinFilter::spec_from_glenum(t.spec_glenum()) == Some(t),
            MinFilter::spec_from_glenum(e) == Some(t) ==> t.spec_glenum() == e,
    {
    }
}

/// Depth comparison modes of samplers and textures.
#[allow(non_camel_case_types)]
#[derive(Clone, Copy, PartialEq, Eq, Structural, Hash, Debug)]
pub enum CompareMode {
    NoCompare,
    CompareRefToTexture,
}

impl CompareMode {
    /// The `GLenum` value naming each variant.
    pub open spec fn spec_glenum(self) -> GLenum {
        match self {
            CompareMode::NoCompare => NONE,
            CompareMode::CompareRefToTexture => COMPARE_REF_TO_TEXTURE,
        }
    }

    /// The variant named by a `GLenum` value, if any.
    pub open spec fn spec_from_glenum(e: GLenum) -> Option<CompareMode> {
        if e == NONE {
            Some(CompareMode::NoCompare)
        } else if e == COMPARE_REF_TO_TEXTURE {
            Some(CompareMode::CompareRefToTexture)
        } else {
            None
        }
    }

    /// The `GLenum` naming this value.
    pub fn glenum(self) -> (e: GLenum)
        ensures
            e == self.spec_glenum(),
    {
        match self {
            CompareMode::NoCompare => NONE,
            CompareMode::CompareRefToTexture => COMPARE_REF_TO_TEXTURE,
        }
    }

    /// The value named by `e`, or `GLError::InvalidEnum(e, "CompareMode")` when `e` names none.
    pub fn try_from_glenum(e: GLenum) -> (r: Result<CompareMode, GLError>)
        ensures
            match CompareMode::spec_from_glenum(e) {
                Some(t) => r == Ok::<Self, GLError>(t),
                None => r matches Err(GLError::InvalidEnum(v, s)) && v == e && s@ == "CompareMode"@,
            },
    {
        if e == NONE {
            Ok(CompareMode::NoCompare)
        } else if e == COMPARE_REF_TO_TEXTURE {
            Ok(CompareMode::CompareRefToTexture)
        } else {
            Err(GLError::InvalidEnum(e, "CompareMode".to_owned()))
        }
    }

    /// Reading a value back from its `GLenum` gives the value, and only the
    /// `GLenum` of a value reads back as that value.
    pub proof fn lemma_glenum_roundtrip(t: CompareMode, e: GLenum)
        ensures
            CompareMode::spec_from_glenum(t.spec_glenum()) == Some(t),
            CompareMode::spec_from_glenum(e) == Some(t) ==> t.spec_glenum() == e,
    {
    }
}

/// Depth comparison functions of samplers and textures.
#[allow(non_camel_case_types)]
#[derive(Clone, Copy, PartialEq, Eq, Structural, Hash, Debug)]
pub enum CompareFunc {
    Never,
    Always,
    Less,
    LEqual,
    Equal,
    NotEqual,
    GEqual,
    Greater,
}

impl CompareFunc {
    /// The `GLenum` value naming each variant.
    pub open spec fn spec_glenum(self) -> GLenum {
        match self {
            CompareFunc::Never => NEVER,
            CompareFunc::Always => ALWAYS,
            CompareFunc::Less => LESS,
            CompareFunc::LEqual => LEQUAL,
            CompareFunc::Equal => EQUAL,
            CompareFunc::NotEqual => NOTEQUAL,
            CompareFunc::GEqual => GEQUAL,
            CompareFunc::Greater => GREATER,
        }
    }

    /// The variant named by a `GLenum` value, if any.
    pub open spec fn spec_from_glenum(e: GLenum) -> Option<CompareFunc> {
        if e == NEVER {
            Some(CompareFunc::Never)
        } else if e == ALWAYS {
            Some(CompareFunc::Always)
        } else if e == LESS {
            Some(CompareFunc::Less)
        } else if e == LEQUAL {
            Some(CompareFunc::LEqual)
        } else if e == EQUAL {
            Some(CompareFunc::Equal)
        } else if e == NOTEQUAL {
            Some(CompareFunc::NotEqual)
        } else if e == GEQUAL {
            Some(CompareFunc::GEqual)
        } else if e == GREATER {
            Some(CompareFunc::Greater)
        } else {
            None
        }
    }

    /// The `GLenum` naming this value.
    pub fn glenum(self) -> (e: GLenum)
        ensures
            e == self.spec_glenum(),
    {
        match self {
            CompareFunc::Never => NEVER,
            CompareFunc::Always => ALWAYS,
            CompareFunc::Less => LESS,
            CompareFunc::LEqual => LEQUAL,
            CompareFunc::Equal => EQUAL,
            CompareFunc::NotEqual => NOTEQUAL,
            CompareFunc::GEqual => GEQUAL,
            CompareFunc::Greater => GREATER,
        }
    }

    /// The value named by `e`, or `GLError::InvalidEnum(e, "CompareFunc")` when `e` names none.
    pub fn try_from_glenum(e: GLenum) -> (r: Result<CompareFunc, GLError>)
        ensures
            match CompareFunc::spec_from_glenum(e) {
                Some(t) => r == Ok::<Self, GLError>(t),
                None => r matches Err(GLError::InvalidEnum(v, s)) && v == e && s@ == "CompareFunc"@,
            },
    {
        if e == NEVER {
            Ok(CompareFunc::Never)
        } else if e == ALWAYS {
            Ok(CompareFunc::Always)
        } else if e == LESS {
            Ok(CompareFunc::Less)
        } else if e == LEQUAL {
            Ok(CompareFunc::LEqual)
        } else if e == EQUAL {
            Ok(CompareFunc::Equal)
        } else if e == NOTEQUAL {
            Ok(CompareFunc::NotEqual)
        } else if e == GEQUAL {
            Ok(CompareFunc::GEqual)
        } else if e == GREATER {
            Ok(CompareFunc::Greater)
        } else {
            Err(GLError::InvalidEnum(e, "CompareFunc".to_owned()))
        }
    }

    /// Reading a value back from its `GLenum` gives the value, and only the
    /// `GLenum` of a value reads back as that value.
    pub proof fn lemma_glenum_roundtrip(t: CompareFunc, e: GLenum)
        ensures
            CompareFunc::spec_from_glenum(t.spec_glenum()) == Some(t),
            CompareFunc::spec_from_glenum(e) == Some(t) ==> t.spec_glenum() == e,
    {
    }
}

/// Texture coordinate wrapping modes.
#[allow(non_camel_case_types)]
#[derive(Clone, Copy, PartialEq, Eq, Structural, Hash, Debug)]
pub enum Wrapping {
    Repeat,
    MirroredRepeat,
    ClampToEdge,
    ClampToBorder,
    MirrorClampToEdge,
}

impl Wrapping {
    /// The `GLenum` value naming each variant.
    pub open spec fn spec_glenum(self) -> GLenum {
        match self {
            Wrapping::Repeat => REPEAT,
            Wrapping::MirroredRepeat => MIRRORED_REPEAT,
            Wrapping::ClampToEdge => CLAMP_TO_EDGE,
            Wrapping::ClampToBorder => CLAMP_TO_BORDER,
            Wrapping::MirrorClampToEdge => MIRROR_CLAMP_TO_EDGE,
        }
    }

    /// The variant named by a `GLenum` value, if any.
    pub open spec fn spec_from_glenum(e: GLenum) -> Option<Wrapping> {
        if e == REPEAT {
            Some(Wrapping::Repeat)
        } else if e == MIRRORED_REPEAT {
            Some(Wrapping::MirroredRepeat)
        } else if e == CLAMP_TO_EDGE {
            Some(Wrapping::ClampToEdge)
        } else if e == CLAMP_TO_BORDER {
            Some(Wrapping::ClampToBorder)
        } else if e == MIRROR_CLAMP_TO_EDGE {
            Some(Wrapping::MirrorClampToEdge)
        } else {
            None
        }
    }

    /// The `GLenum` naming this value.
    pub fn glenum(self) -> (e: GLenum)
        ensures
            e == self.spec_glenum(),
    {
        match self {
            Wrapping::Repeat => REPEAT,
            Wrapping::MirroredRepeat => MIRRORED_REPEAT,
            Wrapping::ClampToEdge => CLAMP_TO_EDGE,
            Wrapping::ClampToBorder => CLAMP_TO_BORDER,
            Wrapping::MirrorClampToEdge => MIRROR_CLAMP_TO_EDGE,
        }
    }

    /// The value named by `e`, or `GLError::InvalidEnum(e, "Wrapping")` when `e` names none.
    pub fn try_from_glenum(e: GLenum) -> (r: Result<Wrapping, GLError>)
        ensures
            match Wrapping::spec_from_glenum(e) {
                Some(t) => r == Ok::<Self, GLError>(t),
                None => r matches Err(GLError::InvalidEnum(v, s)) && v == e && s@ == "Wrapping"@,
            },
    {
        if e == REPEAT {
            Ok(Wrapping::Repeat)
        } else if e == MIRRORED_REPEAT {
            Ok(Wrapping::MirroredRepeat)
        } else if e == CLAMP_TO_EDGE {
            Ok(Wrapping::ClampToEdge)
        } else if e == CLAMP_TO_BORDER {
            Ok(Wrapping::ClampToBorder)
        } else if e == MIRROR_CLAMP_TO_EDGE {
            Ok(Wrapping::MirrorClampToEdge)
        } else {
            Err(GLError::InvalidEnum(e, "Wrapping".to_owned()))
        }
    }

    /// Reading a value back from its `GLenum` gives the value, and only the
    /// `GLenum` of a value reads back as that value.
    pub proof fn lemma_glenum_roundtrip(t: Wrapping, e: GLenum)
        ensures
            Wrapping::spec_from_glenum(t.spec_glenum()) == Some(t),
            Wrapping::spec_from_glenum(e) == Some(t) ==> t.spec_glenum() == e,
    {
    }
}

/// Sources of a texture swizzle channel.
#[allow(non_camel_case_types)]
#[derive(Clone, Copy, PartialEq, Eq, Structural, Hash, Debug)]
pub enum SwizzleParameter {
    Red,
    Green,
    Blue,
    Alpha,
    Zero,
    One,
}

impl SwizzleParameter {
    /// The `GLenum` value naming each variant.
    pub open spec fn spec_glenum(self) -> GLenum {
        match self {
            SwizzleParameter::Red => RED,
            SwizzleParameter::Green => GREEN,
            SwizzleParameter::Blue => BLUE,
            SwizzleParameter::Alpha => ALPHA,
            SwizzleParameter::Zero => ZERO,
            SwizzleParameter::One => ONE,
        }
    }

    /// The variant named by a `GLenum` value, if any.
    pub open spec fn spec_from_glenum(e: GLenum) -> Option<SwizzleParameter> {
        if e == RED {
            Some(SwizzleParameter::Red)
        } else if e == GREEN {
            Some(SwizzleParameter::Green)
        } else if e == BLUE {
            Some(SwizzleParameter::Blue)
        } else if e == ALPHA {
            Some(SwizzleParameter::Alpha)
        } else if e == ZERO {
            Some(SwizzleParameter::Zero)
        } else if e == ONE {
            Some(SwizzleParameter::One)
        } else {
            None
        }
    }

    /// The `GLenum` naming this value.
    pub fn glenum(self) -> (e: GLenum)
        ensures
            e == self.spec_glenum(),
    {
        match self {
            SwizzleParameter::Red => RED,
            SwizzleParameter::Green => GREEN,
            SwizzleParameter::Blue => BLUE,
            SwizzleParameter::Alpha => ALPHA,
            SwizzleParameter::Zero => ZERO,
            SwizzleParameter::One => ONE,
        }
    }

    /// The value named by `e`, or `GLError::InvalidEnum(e, "SwizzleParameter")` when `e` names none.
    pub fn try_from_glenum(e: GLenum) -> (r: Result<SwizzleParameter, GLError>)
        ensures
            match SwizzleParameter::spec_from_glenum(e) {
                Some(t) => r == Ok::<Self, GLError>(t),
                None => r matches Err(GLError::InvalidEnum(v, s)) && v == e && s@ == "SwizzleParameter"@,
            },
    {
        if e == RED {
            Ok(SwizzleParameter::Red)
        } else if e == GREEN {
            Ok(SwizzleParameter::Green)
        } else if e == BLUE {
            Ok(SwizzleParameter::Blue)
        } else if e == ALPHA {
            Ok(SwizzleParameter::Alpha)
        } else if e == ZERO {
            Ok(SwizzleParameter::Zero)
        } else if e == ONE {
            Ok(SwizzleParameter::One)
        } else {
            Err(GLError::InvalidEnum(e, "SwizzleParameter".to_owned()))
        }
    }

    /// Reading a value back from its `GLenum` gives the value, and only the
    /// `GLenum` of a value reads back as that value.
    pub proof fn lemma_glenum_roundtrip(t: SwizzleParameter, e: GLenum)
        ensures
            SwizzleParameter::spec_from_glenum(t.spec_glenum()) == Some(t),
            SwizzleParameter::spec_from_glenum(e) == Some(t) ==> t.spec_glenum() == e,
    {
    }
}

/// Kinds of objects that can carry a debug label.
#[allow(non_camel_case_types)]
#[derive(Clone, Copy, PartialEq, Eq, Structural, Hash, Debug)]
pub enum ResourceIdentifier {
    Buffer,
    Framebuffer,
    ProgramPipeline,
    Program,
    Query,
    Renderbuffer,
    Sampler,
    Shader,
    Texture,
    TransformFeedback,
    VertexArray,
}

impl ResourceIdentifier {
    /// The `GLenum` value naming each variant.
    pub open spec fn spec_glenum(self) -> GLenum {
        match self {
            ResourceIdentifier::Buffer => BUFFER,
            ResourceIdentifier::Framebuffer => FRAMEBUFFER,
            ResourceIdentifier::ProgramPipeline => PROGRAM_PIPELINE,
            ResourceIdentifier::Program => PROGRAM,
            ResourceIdentifier::Query => QUERY,
            ResourceIdentifier::Renderbuffer => RENDERBUFFER,
            ResourceIdentifier::Sampler => SAMPLER,
            ResourceIdentifier::Shader => SHADER,
            ResourceIdentifier::Texture => TEXTURE,
            ResourceIdentifier::TransformFeedback => TRANSFORM_FEEDBACK,
            ResourceIdentifier::VertexArray => VERTEX_ARRAY,
        }
    }

    /// The variant named by a `GLenum` value, if any.
    pub open spec fn spec_from_glenum(e: GLenum) -> Option<ResourceIdentifier> {
        if e == BUFFER {
            Some(ResourceIdentifier::Buffer)
        } else if e == FRAMEBUFFER {
            Some(ResourceIdentifier::Framebuffer)
        } else if e == PROGRAM_PIPELINE {
            Some(ResourceIdentifier::ProgramPipeline)
        } else if e == PROGRAM {
            Some(ResourceIdentifier::Program)
        } else if e == QUERY {
            Some(ResourceIdentifier::Query)
        } else if e == RENDERBUFFER {
            Some(ResourceIdentifier::Renderbuffer)
        } else if e == SAMPLER {
            Some(ResourceIdentifier::Sampler)
        } else if e == SHADER {
            Some(ResourceIdentifier::Shader)
        } else if e == TEXTURE {
            Some(ResourceIdentifier::Texture)
        } else if e == TRANSFORM_FEEDBACK {
            Some(ResourceIdentifier::TransformFeedback)
        } else if e == VERTEX_ARRAY {
            Some(ResourceIdentifier::VertexArray)
        } else {
            None
        }
    }

    /// The `GLenum` naming this value.
    pub fn glenum(self) -> (e: GLenum)
        ensures
            e == self.spec_glenum(),
    {
        match self {
            ResourceIdentifier::Buffer => BUFFER,
            ResourceIdentifier::Framebuffer => FRAMEBUFFER,
            ResourceIdentifier::ProgramPipeline => PROGRAM_PIPELINE,
            ResourceIdentifier::Program => PROGRAM,
            ResourceIdentifier::Query => QUERY,
            ResourceIdentifier::Renderbuffer => RENDERBUFFER,
            ResourceIdentifier::Sampler => SAMPLER,
            ResourceIdentifier::Shader => SHADER,
            ResourceIdentifier::Texture => TEXTURE,
            ResourceIdentifier::TransformFeedback => TRANSFORM_FEEDBACK,
            ResourceIdentifier::VertexArray => VERTEX_ARRAY,
        }
    }

    /// The value named by `e`, or `GLError::InvalidEnum(e, "ResourceIdentifier")` when `e` names none.
    pub fn try_from_glenum(e: GLenum) -> (r: Result<ResourceIdentifier, GLError>)
        ensures
            match ResourceIdentifier::spec_from_glenum(e) {
                Some(t) => r == Ok::<Self, GLError>(t),
                None => r matches Err(GLError::InvalidEnum(v, s)) && v == e && s@ == "ResourceIdentifier"@,
            },
    {
        if e == BUFFER {
            Ok(ResourceIdentifier::Buffer)
        } else if e == FRAMEBUFFER {
            Ok(ResourceIdentifier::Framebuffer)
        } else if e == PROGRAM_PIPELINE {
            Ok(ResourceIdentifier::ProgramPipeline)
        } else if e == PROGRAM {
            Ok(ResourceIdentifier::Program)
        } else if e == QUERY {
            Ok(ResourceIdentifier::Query)
        } else if e == RENDERBUFFER {
            Ok(ResourceIdentifier::Renderbuffer)
        } else if e == SAMPLER {
            Ok(ResourceIdentifier::Sampler)
        } else if e == SHADER {
            Ok(ResourceIdentifier::Shader)
        } else if e == TEXTURE {
            Ok(ResourceIdentifier::Texture)
        } else if e == TRANSFORM_FEEDBACK {
            Ok(ResourceIdentifier::TransformFeedback)
        } else if e == VERTEX_ARRAY {
            Ok(ResourceIdentifier::VertexArray)
        } else {
            Err(GLError::InvalidEnum(e, "ResourceIdentifier".to_owned()))
        }
    }

    /// Reading a value back from its `GLenum` gives the value, and only the
    /// `GLenum` of a value reads back as that value.
    pub proof fn lemma_glenum_roundtrip(t: ResourceIdentifier, e: GLenum)
        ensures
            ResourceIdentifier::spec_from_glenum(t.spec_glenum()) == Some(t),
            ResourceIdentifier::spec_from_glenum(e) == Some(t) ==> t.spec_glenum() == e,
    {
    }
}


impl IntType {
    /// The size in bytes of one value of this type.
    pub open spec fn spec_size_of(self) -> usize {
        match self {
            IntType::Byte | IntType::UByte => 1,
            IntType::Short | IntType::UShort => 2,
            IntType::Int | IntType::UInt => 4,
        }
    }

    /// The size in bytes of one value of this type.
    pub fn size_of(self) -> (n: usize)
        ensures
            n == self.spec_size_of(),
    {
        match self {
            IntType::Byte | IntType::UByte => 1,
            IntType::Short | IntType::UShort => 2,
            IntType::Int | IntType::UInt => 4,
        }
    }

    /// The attribute type with the same `GLenum`.
    pub fn to_attrib_type(self) -> (a: AttribType)
        ensures
            a.spec_glenum() == self.spec_glenum(),
    {
        match self {
            IntType::Byte => AttribType::Byte,
            IntType::UByte => AttribType::UByte,
            IntType::Short => AttribType::Short,
            IntType::UShort => AttribType::UShort,
            IntType::Int => AttribType::Int,
            IntType::UInt => AttribType::UInt,
        }
    }

    /// The element type with the same `GLenum`, or `GLError::InvalidEnum` for the signed types.
    pub fn to_element_type(self) -> (r: Result<ElementType, GLError>)
        ensures
            match ElementType::spec_from_glenum(self.spec_glenum()) {
                Some(t) => r == Ok::<ElementType, GLError>(t),
                None => r matches Err(GLError::InvalidEnum(v, s)) && v == self.spec_glenum()
                    && s@ == "ElementType"@,
            },
    {
        ElementType::try_from_glenum(self.glenum())
    }
}

impl FloatType {
    /// The size in bytes of one value of this type.
    pub open spec fn spec_size_of(self) -> usize {
        match self {
            FloatType::Half => 2,
            FloatType::Float => 4,
        }
    }

    /// The size in bytes of one value of this type.
    pub fn size_of(self) -> (n: usize)
        ensures
            n == self.spec_size_of(),
    {
        match self {
            FloatType::Half => 2,
            FloatType::Float => 4,
        }
    }

    /// The attribute type with the same `GLenum`.
    pub fn to_attrib_type(self) -> (a: AttribType)
        ensures
            a.spec_glenum() == self.spec_glenum(),
    {
        match self {
            FloatType::Half => AttribType::Half,
            FloatType::Float => AttribType::Float,
        }
    }
}

impl ElementType {
    /// The integer type with the same `GLenum`.
    pub fn to_int_type(self) -> (t: IntType)
        ensures
            t.spec_glenum() == self.spec_glenum(),
    {
        match self {
            ElementType::UByte => IntType::UByte,
            ElementType::UShort => IntType::UShort,
            ElementType::UInt => IntType::UInt,
        }
    }
}

/// Converting an element type to an integer type and back gives the element type,
/// and every integer type that converts to an element type names the same enum.
pub proof fn lemma_element_int_roundtrip(e: ElementType, t: IntType)
    ensures
        ElementType::spec_from_glenum(e.spec_glenum()) == Some(e),
        ElementType::spec_from_glenum(t.spec_glenum()) matches Some(x) ==> x.spec_glenum() == t.spec_glenum(),
        ElementType::spec_from_glenum(t.spec_glenum()) is Some <==> (t == IntType::UByte || t == IntType::UShort || t == IntType::UInt),
{
}

} // verus!
