use gl_struct::glenum::{IntType, FloatType, ElementType, AttribType, BufferTarget, IndexedBufferTarget, SyncStatus, MagFilter, MinFilter, CompareMode, CompareFunc, Wrapping, SwizzleParameter, ResourceIdentifier};
use gl_struct::glenum;

#[test]
fn constants_match_registry() {
    assert_eq!(glenum::MAP_READ_BIT, gl::MAP_READ_BIT);
    assert_eq!(glenum::MAP_WRITE_BIT, gl::MAP_WRITE_BIT);
    assert_eq!(glenum::MAP_PERSISTENT_BIT, gl::MAP_PERSISTENT_BIT);
    assert_eq!(glenum::DYNAMIC_STORAGE_BIT, gl::DYNAMIC_STORAGE_BIT);
    assert_eq!(glenum::CLIENT_STORAGE_BIT, gl::CLIENT_STORAGE_BIT);
    assert_eq!(glenum::SYNC_FLUSH_COMMANDS_BIT, gl::SYNC_FLUSH_COMMANDS_BIT);
    assert_eq!(glenum::MAX_LABEL_LENGTH, gl::MAX_LABEL_LENGTH);
    assert_eq!(glenum::TEXTURE_WRAP_T, gl::TEXTURE_WRAP_T);
    assert_eq!(glenum::TEXTURE_WRAP_R, gl::TEXTURE_WRAP_R);
    assert_eq!(glenum::BYTE, gl::BYTE);
    assert_eq!(glenum::UNSIGNED_BYTE, gl::UNSIGNED_BYTE);
    assert_eq!(glenum::SHORT, gl::SHORT);
    assert_eq!(glenum::UNSIGNED_SHORT, gl::UNSIGNED_SHORT);
    assert_eq!(glenum::INT, gl::INT);
    assert_eq!(glenum::UNSIGNED_INT, gl::UNSIGNED_INT);
    assert_eq!(glenum::FLOAT, gl::FLOAT);
    assert_eq!(glenum::DOUBLE, gl::DOUBLE);
    assert_eq!(glenum::HALF_FLOAT, gl::HALF_FLOAT);
    assert_eq!(glenum::FIXED, gl::FIXED);
    assert_eq!(glenum::INT_2_10_10_10_REV, gl::INT_2_10_10_10_REV);
    assert_eq!(glenum::UNSIGNED_INT_2_10_10_10_REV, gl::UNSIGNED_INT_2_10_10_10_REV);
    assert_eq!(glenum::UNSIGNED_INT_10F_11F_11F_REV, gl::UNSIGNED_INT_10F_11F_11F_REV);
    assert_eq!(glenum::BGRA, gl::BGRA);
    assert_eq!(glenum::ARRAY_BUFFER, gl::ARRAY_BUFFER);
    assert_eq!(glenum::ELEMENT_ARRAY_BUFFER, gl::ELEMENT_ARRAY_BUFFER);
    assert_eq!(glenum::COPY_READ_BUFFER, gl::COPY_READ_BUFFER);
    assert_eq!(glenum::COPY_WRITE_BUFFER, gl::COPY_WRITE_BUFFER);
    assert_eq!(glenum::PIXEL_UNPACK_BUFFER, gl::PIXEL_UNPACK_BUFFER);
    assert_eq!(glenum::PIXEL_PACK_BUFFER, gl::PIXEL_PACK_BUFFER);
    assert_eq!(glenum::QUERY_BUFFER, gl::QUERY_BUFFER);
    assert_eq!(glenum::TEXTURE_BUFFER, gl::TEXTURE_BUFFER);
    assert_eq!(glenum::TRANSFORM_FEEDBACK_BUFFER, gl::TRANSFORM_FEEDBACK_BUFFER);
    assert_eq!(glenum::UNIFORM_BUFFER, gl::UNIFORM_BUFFER);
    assert_eq!(glenum::DRAW_INDIRECT_BUFFER, gl::DRAW_INDIRECT_BUFFER);
    assert_eq!(glenum::ATOMIC_COUNTER_BUFFER, gl::ATOMIC_COUNTER_BUFFER);
    assert_eq!(glenum::DISPATCH_INDIRECT_BUFFER, gl::DISPATCH_INDIRECT_BUFFER);
    assert_eq!(glenum::SHADER_STORAGE_BUFFER, gl::SHADER_STORAGE_BUFFER);
    assert_eq!(glenum::TEXTURE_1D, gl::TEXTURE_1D);
    assert_eq!(glenum::TEXTURE_2D, gl::TEXTURE_2D);
    assert_eq!(glenum::TEXTURE_3D, gl::TEXTURE_3D);
    assert_eq!(glenum::TEXTURE_1D_ARRAY, gl::TEXTURE_1D_ARRAY);
    assert_eq!(glenum::TEXTURE_2D_ARRAY, gl::TEXTURE_2D_ARRAY);
    assert_eq!(glenum::TEXTURE_RECTANGLE, gl::TEXTURE_RECTANGLE);
    assert_eq!(glenum::TEXTURE_CUBE_MAP, gl::TEXTURE_CUBE_MAP);
    assert_eq!(glenum::TEXTURE_CUBE_MAP_ARRAY, gl::TEXTURE_CUBE_MAP_ARRAY);
    assert_eq!(glenum::TEXTURE_2D_MULTISAMPLE, gl::TEXTURE_2D_MULTISAMPLE);
    assert_eq!(glenum::TEXTURE_2D_MULTISAMPLE_ARRAY, gl::TEXTURE_2D_MULTISAMPLE_ARRAY);
    assert_eq!(glenum::TEXTURE_CUBE_MAP_POSITIVE_X, gl::TEXTURE_CUBE_MAP_POSITIVE_X);
    assert_eq!(glenum::TEXTURE_CUBE_MAP_NEGATIVE_X, gl::TEXTURE_CUBE_MAP_NEGATIVE_X);
    assert_eq!(glenum::TEXTURE_CUBE_MAP_POSITIVE_Y, gl::TEXTURE_CUBE_MAP_POSITIVE_Y);
    assert_eq!(glenum::TEXTURE_CUBE_MAP_NEGATIVE_Y, gl::TEXTURE_CUBE_MAP_NEGATIVE_Y);
    assert_eq!(glenum::TEXTURE_CUBE_MAP_POSITIVE_Z, gl::TEXTURE_CUBE_MAP_POSITIVE_Z);
    assert_eq!(glenum::TEXTURE_CUBE_MAP_NEGATIVE_Z, gl::TEXTURE_CUBE_MAP_NEGATIVE_Z);
    assert_eq!(glenum::ALREADY_SIGNALED, gl::ALREADY_SIGNALED);
    assert_eq!(glenum::TIMEOUT_EXPIRED, gl::TIMEOUT_EXPIRED);
    assert_eq!(glenum::CONDITION_SATISFIED, gl::CONDITION_SATISFIED);
    assert_eq!(glenum::WAIT_FAILED, gl::WAIT_FAILED);
    assert_eq!(glenum::NEAREST, gl::NEAREST);
    assert_eq!(glenum::LINEAR, gl::LINEAR);
    assert_eq!(glenum::NEAREST_MIPMAP_NEAREST, gl::NEAREST_MIPMAP_NEAREST);
    assert_eq!(glenum::LINEAR_MIPMAP_NEAREST, gl::LINEAR_MIPMAP_NEAREST);
    assert_eq!(glenum::NEAREST_MIPMAP_LINEAR, gl::NEAREST_MIPMAP_LINEAR);
    assert_eq!(glenum::LINEAR_MIPMAP_LINEAR, gl::LINEAR_MIPMAP_LINEAR);
    assert_eq!(glenum::NONE, gl::NONE);
    assert_eq!(glenum::COMPARE_REF_TO_TEXTURE, gl::COMPARE_REF_TO_TEXTURE);
    assert_eq!(glenum::NEVER, gl::NEVER);
    assert_eq!(glenum::LESS, gl::LESS);
    assert_eq!(glenum::EQUAL, gl::EQUAL);
    assert_eq!(glenum::LEQUAL, gl::LEQUAL);
    assert_eq!(glenum::GREATER, gl::GREATER);
    assert_eq!(glenum::NOTEQUAL, gl::NOTEQUAL);
    assert_eq!(glenum::GEQUAL, gl::GEQUAL);
    assert_eq!(glenum::ALWAYS, gl::ALWAYS);
    assert_eq!(glenum::REPEAT, gl::REPEAT);
    assert_eq!(glenum::CLAMP_TO_BORDER, gl::CLAMP_TO_BORDER);
    assert_eq!(glenum::CLAMP_TO_EDGE, gl::CLAMP_TO_EDGE);
    assert_eq!(glenum::MIRRORED_REPEAT, gl::MIRRORED_REPEAT);
    assert_eq!(glenum::MIRROR_CLAMP_TO_EDGE, gl::MIRROR_CLAMP_TO_EDGE);
    assert_eq!(glenum::RED, gl::RED);
    assert_eq!(glenum::GREEN, gl::GREEN);
    assert_eq!(glenum::BLUE, gl::BLUE);
    assert_eq!(glenum::ALPHA, gl::ALPHA);
    assert_eq!(glenum::ZERO, gl::ZERO);
    assert_eq!(glenum::ONE, gl::ONE);
    assert_eq!(glenum::BUFFER, gl::BUFFER);
    assert_eq!(glenum::FRAMEBUFFER, gl::FRAMEBUFFER);
    assert_eq!(glenum::PROGRAM_PIPELINE, gl::PROGRAM_PIPELINE);
    assert_eq!(glenum::PROGRAM, gl::PROGRAM);
    assert_eq!(glenum::QUERY, gl::QUERY);
    assert_eq!(glenum::RENDERBUFFER, gl::RENDERBUFFER);
    assert_eq!(glenum::SAMPLER, gl::SAMPLER);
    assert_eq!(glenum::SHADER, gl::SHADER);
    assert_eq!(glenum::TEXTURE, gl::TEXTURE);
    assert_eq!(glenum::TRANSFORM_FEEDBACK, gl::TRANSFORM_FEEDBACK);
    assert_eq!(glenum::VERTEX_ARRAY, gl::VERTEX_ARRAY);
}

#[test]
fn int_type_roundtrip() {
    assert_eq!(IntType::try_from_glenum(IntType::Byte.glenum()), Ok(IntType::Byte));
    assert_eq!(IntType::try_from_glenum(IntType::UByte.glenum()), Ok(IntType::UByte));
    assert_eq!(IntType::try_from_glenum(IntType::Short.glenum()), Ok(IntType::Short));
    assert_eq!(IntType::try_from_glenum(IntType::UShort.glenum()), Ok(IntType::UShort));
    assert_eq!(IntType::try_from_glenum(IntType::Int.glenum()), Ok(IntType::Int));
    assert_eq!(IntType::try_from_glenum(IntType::UInt.glenum()), Ok(IntType::UInt));
    assert_eq!(
        IntType::try_from_glenum(0xFFFF_FFFF),
        Err(glenum::GLError::InvalidEnum(0xFFFF_FFFF, "IntType".to_string()))
    );
}

#[test]
fn float_type_roundtrip() {
    assert_eq!(FloatType::try_from_glenum(FloatType::Half.glenum()), Ok(FloatType::Half));
    assert_eq!(FloatType::try_from_glenum(FloatType::Float.glenum()), Ok(FloatType::Float));
    assert_eq!(
        FloatType::try_from_glenum(0xFFFF_FFFF),
        Err(glenum::GLError::InvalidEnum(0xFFFF_FFFF, "FloatType".to_string()))
    );
}

#[test]
fn element_type_roundtrip() {
    assert_eq!(ElementType::try_from_glenum(ElementType::UByte.glenum()), Ok(ElementType::UByte));
    assert_eq!(ElementType::try_from_glenum(ElementType::UShort.glenum()), Ok(ElementType::UShort));
    assert_eq!(ElementType::try_from_glenum(ElementType::UInt.glenum()), Ok(ElementType::UInt));
    assert_eq!(
        ElementType::try_from_glenum(0xFFFF_FFFF),
        Err(glenum::GLError::InvalidEnum(0xFFFF_FFFF, "ElementType".to_string()))
    );
}

#[test]
fn attrib_type_roundtrip() {
    assert_eq!(AttribType::try_from_glenum(AttribType::Byte.glenum()), Ok(AttribType::Byte));
    assert_eq!(AttribType::try_from_glenum(AttribType::UByte.glenum()), Ok(AttribType::UByte));
    assert_eq!(AttribType::try_from_glenum(AttribType::Short.glenum()), Ok(AttribType::Short));
    assert_eq!(AttribType::try_from_glenum(AttribType::UShort.glenum()), Ok(AttribType::UShort));
    assert_eq!(AttribType::try_from_glenum(AttribType::Int.glenum()), Ok(AttribType::Int));
    assert_eq!(AttribType::try_from_glenum(AttribType::UInt.glenum()), Ok(AttribType::UInt));
    assert_eq!(AttribType::try_from_glenum(AttribType::Half.glenum()), Ok(AttribType::Half));
    assert_eq!(AttribType::try_from_glenum(AttribType::Float.glenum()), Ok(AttribType::Float));
    assert_eq!(AttribType::try_from_glenum(AttribType::Double.glenum()), Ok(AttribType::Double));
    assert_eq!(AttribType::try_from_glenum(AttribType::Fixed.glenum()), Ok(AttribType::Fixed));
    assert_eq!(AttribType::try_from_glenum(AttribType::Int_2_10_10_10_Rev.glenum()), Ok(AttribType::Int_2_10_10_10_Rev));
    assert_eq!(AttribType::try_from_glenum(AttribType::UInt_2_10_10_10_Rev.glenum()), Ok(AttribType::UInt_2_10_10_10_Rev));
    assert_eq!(AttribType::try_from_glenum(AttribType::UInt_10F_11F_11F_Rev.glenum()), Ok(AttribType::UInt_10F_11F_11F_Rev));
    assert_eq!(
        AttribType::try_from_glenum(0xFFFF_FFFF),
        Err(glenum::GLError::InvalidEnum(0xFFFF_FFFF, "AttribType".to_string()))
    );
}

#[test]
fn buffer_target_roundtrip() {
    assert_eq!(BufferTarget::try_from_glenum(BufferTarget::ArrayBuffer.glenum()), Ok(BufferTarget::ArrayBuffer));
    assert_eq!(BufferTarget::try_from_glenum(BufferTarget::ElementArrayBuffer.glenum()), Ok(BufferTarget::ElementArrayBuffer));
    assert_eq!(BufferTarget::try_from_glenum(BufferTarget::CopyReadBuffer.glenum()), Ok(BufferTarget::CopyReadBuffer));
    assert_eq!(BufferTarget::try_from_glenum(BufferTarget::CopyWriteBuffer.glenum()), Ok(BufferTarget::CopyWriteBuffer));
    assert_eq!(BufferTarget::try_from_glenum(BufferTarget::PixelUnpackBuffer.glenum()), Ok(BufferTarget::PixelUnpackBuffer));
    assert_eq!(BufferTarget::try_from_glenum(BufferTarget::PixelPackBuffer.glenum()), Ok(BufferTarget::PixelPackBuffer));
    assert_eq!(BufferTarget::try_from_glenum(BufferTarget::QueryBuffer.glenum()), Ok(BufferTarget::QueryBuffer));
    assert_eq!(BufferTarget::try_from_glenum(BufferTarget::TextureBuffer.glenum()), Ok(BufferTarget::TextureBuffer));
    assert_eq!(BufferTarget::try_from_glenum(BufferTarget::TransformFeedbackBuffer.glenum()), Ok(BufferTarget::TransformFeedbackBuffer));
    assert_eq!(BufferTarget::try_from_glenum(BufferTarget::UniformBuffer.glenum()), Ok(BufferTarget::UniformBuffer));
    assert_eq!(BufferTarget::try_from_glenum(BufferTarget::DrawIndirectBuffer.glenum()), Ok(BufferTarget::DrawIndirectBuffer));
    assert_eq!(BufferTarget::try_from_glenum(BufferTarget::AtomicCounterBuffer.glenum()), Ok(BufferTarget::AtomicCounterBuffer));
    assert_eq!(BufferTarget::try_from_glenum(BufferTarget::DispatchIndirectBuffer.glenum()), Ok(BufferTarget::DispatchIndirectBuffer));
    assert_eq!(BufferTarget::try_from_glenum(BufferTarget::ShaderStorageBuffer.glenum()), Ok(BufferTarget::ShaderStorageBuffer));
    assert_eq!(
        BufferTarget::try_from_glenum(0xFFFF_FFFF),
        Err(glenum::GLError::InvalidEnum(0xFFFF_FFFF, "BufferTarget".to_string()))
    );
}

#[test]
fn indexed_buffer_target_roundtrip() {
    assert_eq!(IndexedBufferTarget::try_from_glenum(IndexedBufferTarget::TransformFeedbackBuffer.glenum()), Ok(IndexedBufferTarget::TransformFeedbackBuffer));
    assert_eq!(IndexedBufferTarget::try_from_glenum(IndexedBufferTarget::UniformBuffer.glenum()), Ok(IndexedBufferTarget::UniformBuffer));
    assert_eq!(IndexedBufferTarget::try_from_glenum(IndexedBufferTarget::AtomicCounterBuffer.glenum()), Ok(IndexedBufferTarget::AtomicCounterBuffer));
    assert_eq!(IndexedBufferTarget::try_from_glenum(IndexedBufferTarget::ShaderStorageBuffer.glenum()), Ok(IndexedBufferTarget::ShaderStorageBuffer));
    assert_eq!(
        IndexedBufferTarget::try_from_glenum(0xFFFF_FFFF),
        Err(glenum::GLError::InvalidEnum(0xFFFF_FFFF, "IndexedBufferTarget".to_string()))
    );
}

#[test]
fn sync_status_roundtrip() {
    assert_eq!(SyncStatus::try_from_glenum(SyncStatus::AlreadySignaled.glenum()), Ok(SyncStatus::AlreadySignaled));
    assert_eq!(SyncStatus::try_from_glenum(SyncStatus::TimeoutExpired.glenum()), Ok(SyncStatus::TimeoutExpired));
    assert_eq!(SyncStatus::try_from_glenum(SyncStatus::ConditionSatisfied.glenum()), Ok(SyncStatus::ConditionSatisfied));
    assert_eq!(SyncStatus::try_from_glenum(SyncStatus::WaitFailed.glenum()), Ok(SyncStatus::WaitFailed));
    assert_eq!(
        SyncStatus::try_from_glenum(0xFFFF_FFFF),
        Err(glenum::GLError::InvalidEnum(0xFFFF_FFFF, "SyncStatus".to_string()))
    );
}

#[test]
fn mag_filter_roundtrip() {
    assert_eq!(MagFilter::try_from_glenum(MagFilter::Linear.glenum()), Ok(MagFilter::Linear));
    assert_eq!(MagFilter::try_from_glenum(MagFilter::Nearest.glenum()), Ok(MagFilter::Nearest));
    assert_eq!(
        MagFilter::try_from_glenum(0xFFFF_FFFF),
        Err(glenum::GLError::InvalidEnum(0xFFFF_FFFF, "MagFilter".to_string()))
    );
}

#[test]
fn min_filter_roundtrip() {
    assert_eq!(MinFilter::try_from_glenum(MinFilter::Linear.glenum()), Ok(MinFilter::Linear));
    assert_eq!(MinFilter::try_from_glenum(MinFilter::Nearest.glenum()), Ok(MinFilter::Nearest));
    assert_eq!(MinFilter::try_from_glenum(MinFilter::NearestMipmapNearest.glenum()), Ok(MinFilter::NearestMipmapNearest));
    assert_eq!(MinFilter::try_from_glenum(MinFilter::LinearMipmapNearest.glenum()), Ok(MinFilter::LinearMipmapNearest));
    assert_eq!(MinFilter::try_from_glenum(MinFilter::NearestMipmapLinear.glenum()), Ok(MinFilter::NearestMipmapLinear));
    assert_eq!(MinFilter::try_from_glenum(MinFilter::LinearMipmapLinear.glenum()), Ok(MinFilter::LinearMipmapLinear));
    assert_eq!(
        MinFilter::try_from_glenum(0xFFFF_FFFF),
        Err(glenum::GLError::InvalidEnum(0xFFFF_FFFF, "MinFilter".to_string()))
    );
}

#[test]
fn compare_mode_roundtrip() {
    assert_eq!(CompareMode::try_from_glenum(CompareMode::NoCompare.glenum()), Ok(CompareMode::NoCompare));
    assert_eq!(CompareMode::try_from_glenum(CompareMode::CompareRefToTexture.glenum()), Ok(CompareMode::CompareRefToTexture));
    assert_eq!(
        CompareMode::try_from_glenum(0xFFFF_FFFF),
        Err(glenum::GLError::InvalidEnum(0xFFFF_FFFF, "CompareMode".to_string()))
    );
}

#[test]
fn compare_func_roundtrip() {
    assert_eq!(CompareFunc::try_from_glenum(CompareFunc::Never.glenum()), Ok(CompareFunc::Never));
    assert_eq!(CompareFunc::try_from_glenum(CompareFunc::Always.glenum()), Ok(CompareFunc::Always));
    assert_eq!(CompareFunc::try_from_glenum(CompareFunc::Less.glenum()), Ok(CompareFunc::Less));
    assert_eq!(CompareFunc::try_from_glenum(CompareFunc::LEqual.glenum()), Ok(CompareFunc::LEqual));
    assert_eq!(CompareFunc::try_from_glenum(CompareFunc::Equal.glenum()), Ok(CompareFunc::Equal));
    assert_eq!(CompareFunc::try_from_glenum(CompareFunc::NotEqual.glenum()), Ok(CompareFunc::NotEqual));
    assert_eq!(CompareFunc::try_from_glenum(CompareFunc::GEqual.glenum()), Ok(CompareFunc::GEqual));
    assert_eq!(CompareFunc::try_from_glenum(CompareFunc::Greater.glenum()), Ok(CompareFunc::Greater));
    assert_eq!(
        CompareFunc::try_from_glenum(0xFFFF_FFFF),
        Err(glenum::GLError::InvalidEnum(0xFFFF_FFFF, "CompareFunc".to_string()))
    );
}

#[test]
fn wrapping_roundtrip() {
    assert_eq!(Wrapping::try_from_glenum(Wrapping::Repeat.glenum()), Ok(Wrapping::Repeat));
    assert_eq!(Wrapping::try_from_glenum(Wrapping::MirroredRepeat.glenum()), Ok(Wrapping::MirroredRepeat));
    assert_eq!(Wrapping::try_from_glenum(Wrapping::ClampToEdge.glenum()), Ok(Wrapping::ClampToEdge));
    assert_eq!(Wrapping::try_from_glenum(Wrapping::ClampToBorder.glenum()), Ok(Wrapping::ClampToBorder));
    assert_eq!(Wrapping::try_from_glenum(Wrapping::MirrorClampToEdge.glenum()), Ok(Wrapping::MirrorClampToEdge));
    assert_eq!(
        Wrapping::try_from_glenum(0xFFFF_FFFF),
        Err(glenum::GLError::InvalidEnum(0xFFFF_FFFF, "Wrapping".to_string()))
    );
}

#[test]
fn swizzle_parameter_roundtrip() {
    assert_eq!(SwizzleParameter::try_from_glenum(SwizzleParameter::Red.glenum()), Ok(SwizzleParameter::Red));
    assert_eq!(SwizzleParameter::try_from_glenum(SwizzleParameter::Green.glenum()), Ok(SwizzleParameter::Green));
    assert_eq!(SwizzleParameter::try_from_glenum(SwizzleParameter::Blue.glenum()), Ok(SwizzleParameter::Blue));
    assert_eq!(SwizzleParameter::try_from_glenum(SwizzleParameter::Alpha.glenum()), Ok(SwizzleParameter::Alpha));
    assert_eq!(SwizzleParameter::try_from_glenum(SwizzleParameter::Zero.glenum()), Ok(SwizzleParameter::Zero));
    assert_eq!(SwizzleParameter::try_from_glenum(SwizzleParameter::One.glenum()), Ok(SwizzleParameter::One));
    assert_eq!(
        SwizzleParameter::try_from_glenum(0xFFFF_FFFF),
        Err(glenum::GLError::InvalidEnum(0xFFFF_FFFF, "SwizzleParameter".to_string()))
    );
}

#[test]
fn resource_identifier_roundtrip() {
    assert_eq!(ResourceIdentifier::try_from_glenum(ResourceIdentifier::Buffer.glenum()), Ok(ResourceIdentifier::Buffer));
    assert_eq!(ResourceIdentifier::try_from_glenum(ResourceIdentifier::Framebuffer.glenum()), Ok(ResourceIdentifier::Framebuffer));
    assert_eq!(ResourceIdentifier::try_from_glenum(ResourceIdentifier::ProgramPipeline.glenum()), Ok(ResourceIdentifier::ProgramPipeline));
    assert_eq!(ResourceIdentifier::try_from_glenum(ResourceIdentifier::Program.glenum()), Ok(ResourceIdentifier::Program));
    assert_eq!(ResourceIdentifier::try_from_glenum(ResourceIdentifier::Query.glenum()), Ok(ResourceIdentifier::Query));
    assert_eq!(ResourceIdentifier::try_from_glenum(ResourceIdentifier::Renderbuffer.glenum()), Ok(ResourceIdentifier::Renderbuffer));
    assert_eq!(ResourceIdentifier::try_from_glenum(ResourceIdentifier::Sampler.glenum()), Ok(ResourceIdentifier::Sampler));
    assert_eq!(ResourceIdentifier::try_from_glenum(ResourceIdentifier::Shader.glenum()), Ok(ResourceIdentifier::Shader));
    assert_eq!(ResourceIdentifier::try_from_glenum(ResourceIdentifier::Texture.glenum()), Ok(ResourceIdentifier::Texture));
    assert_eq!(ResourceIdentifier::try_from_glenum(ResourceIdentifier::TransformFeedback.glenum()), Ok(ResourceIdentifier::TransformFeedback));
    assert_eq!(ResourceIdentifier::try_from_glenum(ResourceIdentifier::VertexArray.glenum()), Ok(ResourceIdentifier::VertexArray));
    assert_eq!(
        ResourceIdentifier::try_from_glenum(0xFFFF_FFFF),
        Err(glenum::GLError::InvalidEnum(0xFFFF_FFFF, "ResourceIdentifier".to_string()))
    );
}
