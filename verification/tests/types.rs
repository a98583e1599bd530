use miy::types::{
    BlendFactor, Bool, Border, Buffer, BufferBinding, BufferTarget, BufferUsage, Capability,
    ClearMask, Count, Description, ElementKind, Error, InternalFormat, Primitive, Program,
    Sampler, SamplerParameterName, SamplerParameterValue, Shader, ShaderKind,
    ShaderParameterName, Start, Texture, TextureDataFormat, TextureFormat, TextureTarget,
    TextureUnit, VertexArray,
};

#[test]
fn bool_from_int_accepts_exactly_the_native_values() {
    assert_eq!(Bool::from_int(0), Some(Bool::False));
    assert_eq!(Bool::from_int(1), Some(Bool::True));
    assert_eq!(Bool::from_int(2), None);
    assert_eq!(Bool::from_int(-1), None);
    assert_eq!(Bool::from(true), Bool::True);
    assert_eq!(Bool::from(false), Bool::False);
    assert_eq!(Bool::True.value(), 1);
    assert_eq!(Bool::False.value(), 0);
}

#[test]
fn error_codes_round_trip() {
    let codes = [
        (Error::NoError, 0x0, "no error"),
        (Error::InvalidEnum, 0x0500, "invalid enum"),
        (Error::InvalidValue, 0x0501, "invalid value"),
        (Error::InvalidOperation, 0x0502, "invalid operation"),
        (Error::StackOverflow, 0x0503, "stack overflow"),
        (Error::StackUnderflow, 0x0504, "stack underflow"),
        (Error::OutOfMemory, 0x0505, "out of memory"),
        (Error::InvalidFramebufferOperation, 0x0506, "invalid framebuffer operation"),
    ];
    for (e, code, text) in codes {
        assert_eq!(e.value(), code);
        assert_eq!(Error::from_value(code), Some(e));
        assert_eq!(e.describe(), text);
    }
    assert_eq!(Error::from_value(0x1234), None);
}

#[test]
fn clear_mask_combines() {
    assert!(!ClearMask::none().is_some());
    assert!(ClearMask::color().is_some());
    assert_eq!(ClearMask::color().bits(), 0x4000);
    assert_eq!(ClearMask::depth().bits(), 0x100);
    assert_eq!(ClearMask::stencil().bits(), 0x400);
    let combined = ClearMask::color().or(ClearMask::depth()).or(ClearMask::stencil());
    assert_eq!(combined, ClearMask::all());
    assert_eq!(combined.bits(), 0x4500);
    assert_eq!(ClearMask::color().or(ClearMask::color()), ClearMask::color());
}

#[test]
fn texture_units_count_up_from_the_base() {
    assert_eq!(TextureUnit::zero().value(), 0x84C0);
    assert_eq!(TextureUnit::new(0), TextureUnit::zero());
    assert_eq!(TextureUnit::new(3).value(), 0x84C3);
    // The ordinal saturates instead of wrapping.
    assert_eq!(TextureUnit::new(u32::MAX).value(), u32::MAX);
}

#[test]
fn handles_round_trip_and_reserve_zero() {
    assert_eq!(VertexArray::none().raw(), 0);
    assert_eq!(VertexArray::from_raw(7).raw(), 7);
    assert_eq!(Buffer::none().0, 0);
    assert_eq!(Buffer(9).0, 9);
    assert_eq!(Shader::from_raw(3).raw(), 3);
    assert_eq!(Program::none().as_u32(), 0);
    assert_eq!(Program::from_raw(5).as_u32(), 5);
    assert_eq!(Texture::from_raw(11).raw(), 11);
    assert_eq!(Sampler::from_raw(13).raw(), 13);
    assert_eq!(Start(4), Start(4));
    assert_eq!(Count(6).0, 6);
}

#[test]
fn named_constants_carry_their_native_values() {
    assert_eq!(Capability::DebugOutput.value(), 0x92E0);
    assert_eq!(Capability::Blend.value(), 0x0BE2);
    assert_eq!(Capability::FramebufferSrgb.value(), 0x8DB9);
    assert_eq!(Description::ShadingLanguageVersion.value(), 0x8B8C);
    assert_eq!(Primitive::Triangles.value(), 0x4);
    assert_eq!(ElementKind::UnsignedShort.value(), 0x1403);
    assert_eq!(BufferTarget::ArrayBuffer.value(), 0x8892);
    assert_eq!(BufferTarget::UniformBuffer.value(), 0x8A11);
    assert_eq!(BufferUsage::StaticDraw.value(), 0x88E4);
    assert_eq!(ShaderKind::Vertex.value(), 0x8B31);
    assert_eq!(ShaderKind::Fragment.value(), 0x8B30);
    assert_eq!(ShaderParameterName::CompileStatus.value(), 0x8B81);
    assert_eq!(ShaderParameterName::InfoLogLength.value(), 0x8B84);
    assert_eq!(BlendFactor::SrcAlpha.value(), 0x0302);
    assert_eq!(BlendFactor::OneMinusSrcAlpha.value(), 0x0303);
    assert_eq!(TextureTarget::Texture2D.value(), 0x0DE1);
    assert_eq!(InternalFormat::Rgba8.value(), 0x8058);
    assert_eq!(TextureFormat::Bgra.value(), 0x80E1);
    assert_eq!(TextureDataFormat::U8.value(), 0x1401);
    assert_eq!(Border::Zero.value(), 0);
    assert_eq!(SamplerParameterName::TextureWrapS.value(), 0x2802);
    assert_eq!(SamplerParameterValue::Linear.value(), 0x2601);
}

#[test]
fn buffer_binding_slots_start_at_zero() {
    assert_eq!(BufferBinding::ONE.index(), 0);
    assert_eq!(BufferBinding::TWO.index(), 1);
    assert_eq!(BufferBinding::TWELVE.index(), 11);
}
