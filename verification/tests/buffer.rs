use render_kit::render::buffer::{
    interleave2, interleave3, interleave4, AttribPointer, DataType, DrawCall, FBO, VAO, VBO,
};
use render_kit::util::math::{Vector2, Vector3, Vector4};

#[test]
fn vbo_starts_without_type() {
    let vbo = VBO::new(7u32);
    assert_eq!(*vbo.buffer(), 7);
    assert_eq!(vbo.data_type(), glow::NONE);
    assert_eq!(vbo.grouping(), 1);
    assert_eq!(vbo.amount(), 0);
}

#[test]
fn vbo_load_vec3s_lays_components_out() {
    let mut vbo = VBO::new("buffer");
    let data = vbo.load_vec3s(
        vec![Vector3::new(1.0f32, 2.0, 3.0), Vector3::new(4.0, 5.0, 6.0)],
        DataType::Float,
    );
    assert_eq!(data, vec![1.0, 2.0, 3.0, 4.0, 5.0, 6.0]);
    assert_eq!(vbo.data_type(), glow::FLOAT);
    assert_eq!(vbo.grouping(), 3);
    assert_eq!(vbo.amount(), 6);
    assert_eq!(*vbo.buffer(), "buffer");
}

#[test]
fn vbo_load_vec2s_lays_components_out() {
    let mut vbo = VBO::new(1u8);
    let data = vbo.load_vec2s(vec![Vector2::new(1i16, 2), Vector2::new(3, 4), Vector2::new(5, 6)], DataType::Short);
    assert_eq!(data, vec![1, 2, 3, 4, 5, 6]);
    assert_eq!(vbo.data_type(), glow::SHORT);
    assert_eq!(vbo.grouping(), 2);
    assert_eq!(vbo.amount(), 6);
}

#[test]
fn vbo_load_vec4s_lays_components_out() {
    let mut vbo = VBO::new(1u8);
    let data = vbo.load_vec4s(vec![Vector4::new(1u32, 2, 3, 4), Vector4::new(5, 6, 7, 8)], DataType::UnsignedInt);
    assert_eq!(data, vec![1, 2, 3, 4, 5, 6, 7, 8]);
    assert_eq!(vbo.data_type(), glow::UNSIGNED_INT);
    assert_eq!(vbo.grouping(), 4);
    assert_eq!(vbo.amount(), 8);
}

#[test]
fn vbo_load_of_nothing_records_nothing() {
    let mut vbo = VBO::new(());
    let data: Vec<i32> = vbo.load_vec3s(Vec::new(), DataType::Int);
    assert!(data.is_empty());
    assert_eq!(vbo.amount(), 0);
    assert_eq!(vbo.grouping(), 3);
    assert_eq!(vbo.data_type(), glow::INT);
}

#[test]
fn vbo_single_vectors_record_as_they_always_did() {
    let mut vbo = VBO::new(0u32);
    assert_eq!(vbo.load_vec4(Vector4::new(1u8, 2, 3, 4), DataType::UnsignedByte), [1, 2, 3, 4]);
    assert_eq!((vbo.amount(), vbo.grouping(), vbo.data_type()), (1, 1, glow::UNSIGNED_BYTE));
    assert_eq!(vbo.load_vec3(Vector3::new(1i8, 2, 3), DataType::Byte), [1, 2, 3]);
    assert_eq!((vbo.amount(), vbo.grouping(), vbo.data_type()), (3, 1, glow::BYTE));
    assert_eq!(vbo.load_vec2(Vector2::new(1u16, 2), DataType::UnsignedShort), [1, 2]);
    assert_eq!((vbo.amount(), vbo.grouping(), vbo.data_type()), (3, 2, glow::UNSIGNED_SHORT));
}

#[test]
fn vbo_set_type_changes_the_type_only() {
    let mut vbo = VBO::new(3u32);
    let _ = vbo.load_vec2s(vec![Vector2::new(0.5f32, 1.5)], DataType::Float);
    vbo.set_type(DataType::Int);
    assert_eq!((vbo.amount(), vbo.grouping(), vbo.data_type()), (2, 2, glow::INT));
    assert_eq!(*vbo.buffer(), 3);
}

#[test]
fn interleave_keeps_order() {
    assert_eq!(interleave2(&vec![Vector2::new('a', 'b'), Vector2::new('c', 'd')]), vec!['a', 'b', 'c', 'd']);
    assert_eq!(interleave3(&vec![Vector3::new(1, 2, 3)]), vec![1, 2, 3]);
    assert_eq!(interleave4(&vec![Vector4::new(1, 2, 3, 4), Vector4::new(5, 6, 7, 8)]), vec![1, 2, 3, 4, 5, 6, 7, 8]);
    assert_eq!(interleave3(&Vec::<Vector3<u8>>::new()), Vec::<u8>::new());
}

#[test]
fn vao_starts_with_nothing_to_draw() {
    let vao = VAO::new(11u32);
    assert_eq!(*vao.array(), 11);
    let plan = vao.render();
    assert!(plan.attribs.is_empty());
    assert_eq!(plan.draw, DrawCall::Arrays { first: 0, count: 0 });
}

#[test]
fn vao_add_vbo_says_how_to_bind() {
    let mut vbo = VBO::new(1u32);
    let _ = vbo.load_vec3s(vec![Vector3::new(0.0f32, 0.0, 0.0)], DataType::Float);
    let mut vao = VAO::new(2u32);
    let pointer = vao.add_vbo(5, &vbo);
    assert_eq!(pointer, AttribPointer { index: 5, size: 3, data_type: glow::FLOAT });
}

#[test]
fn vao_render_enables_attributes_in_ascending_order() {
    let mut vbo = VBO::new(1u32);
    let _ = vbo.load_vec2s(vec![Vector2::new(0u8, 0)], DataType::UnsignedByte);
    let mut vao = VAO::new(2u32);
    vao.add_vbo(9, &vbo);
    vao.add_vbo(0, &vbo);
    vao.add_vbo(15, &vbo);
    vao.add_vbo(9, &vbo);
    let plan = vao.render();
    assert_eq!(plan.attribs, vec![0, 9, 15]);
    assert_eq!(plan.draw, DrawCall::Arrays { first: 0, count: 0 });
}

#[test]
fn vao_with_index_buffer_draws_elements() {
    let mut vao = VAO::new(2u32);
    vao.addIndexBuffer(&vec![0, 1, 2, 2, 3, 0]);
    let plan = vao.render();
    assert!(plan.attribs.is_empty());
    assert_eq!(plan.draw, DrawCall::Elements { count: 6 });
}

#[test]
fn fbo_starts_without_attachments() {
    let fbo: FBO<u32, u32> = FBO::new(4);
    assert_eq!(*fbo.fbo(), 4);
    for attachment in 0..40 {
        assert_eq!(fbo.color_attachment(attachment), None);
    }
}

#[test]
fn fbo_attachment_point_follows_the_first() {
    let fbo: FBO<u32, u32> = FBO::new(4);
    assert_eq!(fbo.attachment_point(0), Ok(glow::COLOR_ATTACHMENT0));
    assert_eq!(fbo.attachment_point(1), Ok(glow::COLOR_ATTACHMENT1));
    assert_eq!(fbo.attachment_point(31), Ok(glow::COLOR_ATTACHMENT31));
}

#[test]
fn fbo_with_texture_attachment_records_the_texture() {
    let fbo: FBO<u32, char> = FBO::new(4);
    let fbo = fbo.with_texture_attachment('t', 3).ok().unwrap();
    assert_eq!(fbo.color_attachment(3), Some('t'));
    assert_eq!(fbo.color_attachment(2), None);
    assert_eq!(fbo.enable_color_attachment(3), 't');
    assert_eq!(*fbo.fbo(), 4);
}

#[test]
fn fbo_refuses_an_attachment_above_the_highest() {
    let fbo: FBO<u32, u32> = FBO::new(4);
    assert_eq!(
        fbo.attachment_point(32),
        Err(String::from("'32' is above the highest color attachment (31)!"))
    );
    match fbo.with_texture_attachment(9, 1234567890) {
        Ok(_) => panic!("an attachment beyond the highest was accepted"),
        Err(message) => assert_eq!(
            message,
            "'1234567890' is above the highest color attachment (31)!"
        ),
    }
}

#[test]
fn fbo_refuses_an_attachment_in_use() {
    let fbo: FBO<u32, u32> = FBO::new(4);
    let fbo = fbo.with_texture_attachment(1, 0).ok().unwrap();
    assert_eq!(
        fbo.attachment_point(0),
        Err(String::from("Color Attachment '0' is already in use."))
    );
    let fbo = fbo.with_texture_attachment(2, 17).ok().unwrap();
    match fbo.with_texture_attachment(3, 17) {
        Ok(_) => panic!("an attachment in use was given a second texture"),
        Err(message) => assert_eq!(message, "Color Attachment '17' is already in use."),
    }
}

#[test]
fn fbo_fills_every_attachment_once() {
    let mut fbo: FBO<(), usize> = FBO::new(());
    for attachment in 0..32 {
        fbo = fbo.with_texture_attachment(100 + attachment, attachment).ok().unwrap();
    }
    for attachment in 0..32 {
        assert_eq!(fbo.enable_color_attachment(attachment), 100 + attachment);
        assert!(fbo.attachment_point(attachment).is_err());
    }
}
