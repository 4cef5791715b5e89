use render_kit::render::buffer::DataType;
use render_kit::render::gl;
use render_kit::render::shader::ShaderStage;

#[test]
fn enumerants_are_those_of_the_bindings() {
    assert_eq!(gl::NONE, glow::NONE);
    assert_eq!(gl::BYTE, glow::BYTE);
    assert_eq!(gl::UNSIGNED_BYTE, glow::UNSIGNED_BYTE);
    assert_eq!(gl::SHORT, glow::SHORT);
    assert_eq!(gl::UNSIGNED_SHORT, glow::UNSIGNED_SHORT);
    assert_eq!(gl::INT, glow::INT);
    assert_eq!(gl::UNSIGNED_INT, glow::UNSIGNED_INT);
    assert_eq!(gl::FLOAT, glow::FLOAT);
    assert_eq!(gl::VERTEX_SHADER, glow::VERTEX_SHADER);
    assert_eq!(gl::FRAGMENT_SHADER, glow::FRAGMENT_SHADER);
    assert_eq!(gl::GEOMETRY_SHADER, glow::GEOMETRY_SHADER);
    assert_eq!(gl::TESS_CONTROL_SHADER, glow::TESS_CONTROL_SHADER);
    assert_eq!(gl::COLOR_ATTACHMENT0, glow::COLOR_ATTACHMENT0);
    assert_eq!(gl::TEXTURE0, glow::TEXTURE0);
}

#[test]
fn data_types_name_their_enumerant() {
    assert_eq!(DataType::Int.gl_code(), glow::INT);
    assert_eq!(DataType::UnsignedInt.gl_code(), glow::UNSIGNED_INT);
    assert_eq!(DataType::Byte.gl_code(), glow::BYTE);
    assert_eq!(DataType::UnsignedByte.gl_code(), glow::UNSIGNED_BYTE);
    assert_eq!(DataType::Short.gl_code(), glow::SHORT);
    assert_eq!(DataType::UnsignedShort.gl_code(), glow::UNSIGNED_SHORT);
    assert_eq!(DataType::Float.gl_code(), glow::FLOAT);
}

#[test]
fn shader_stages_name_their_enumerant() {
    assert_eq!(ShaderStage::Vertex.gl_type(), glow::VERTEX_SHADER);
    assert_eq!(ShaderStage::Fragment.gl_type(), glow::FRAGMENT_SHADER);
    assert_eq!(ShaderStage::Geometry.gl_type(), glow::GEOMETRY_SHADER);
    assert_eq!(ShaderStage::Tessellation.gl_type(), glow::TESS_CONTROL_SHADER);
}

#[test]
fn colour_attachments_and_texture_units_are_consecutive() {
    assert_eq!(gl::COLOR_ATTACHMENT0 + 1, glow::COLOR_ATTACHMENT1);
    assert_eq!(gl::COLOR_ATTACHMENT0 + 31, glow::COLOR_ATTACHMENT31);
    assert_eq!(gl::TEXTURE0 + 15, glow::TEXTURE15);
}
