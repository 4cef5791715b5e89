use render_kit::render::shader::{
    link_program, load_shader, send_uniforms, Shader, ShaderBuilder, ShaderError, ShaderStage,
    ShaderUniformHandler, StageSource, Uniform, UniformUpload, UniformValue,
};
use render_kit::util::math::{Vector2, Vector3, Vector4};
use std::rc::Rc;

fn source(stage: ShaderStage, file_name: &str) -> StageSource {
    StageSource { stage, file_name: String::from(file_name) }
}

fn program() -> Shader<u32, char, i32, String> {
    Shader::new(
        &Rc::new(String::from("context")),
        9,
        'v',
        'f',
        None,
        None,
        vec![
            (String::from("camera"), 0),
            (String::from("transform"), 1),
            (String::from("perspective"), 2),
        ],
    )
}

struct Recorder {
    handles: Vec<ShaderUniformHandler<u32, i32, String>>,
}

impl Uniform<u32, i32, String> for Recorder {
    fn provide_handle(&mut self, handle: ShaderUniformHandler<u32, i32, String>) {
        self.handles.push(handle);
    }
}

#[test]
fn builder_without_both_mandatory_stages_builds_nothing() {
    assert_eq!(ShaderBuilder::new().build(), Err(ShaderError::MISSING_SHADER));
    assert_eq!(
        ShaderBuilder::new().with_vert_shader("v.glsl").build(),
        Err(ShaderError::MISSING_SHADER)
    );
    assert_eq!(
        ShaderBuilder::new().with_frag_shader("f.glsl").build(),
        Err(ShaderError::MISSING_SHADER)
    );
    assert_eq!(
        ShaderBuilder::new().with_geo_shader("g.glsl").with_tes_shader("t.glsl").build(),
        Err(ShaderError::MISSING_SHADER)
    );
}

#[test]
fn builder_plans_vertex_then_fragment() {
    let stages = ShaderBuilder::new()
        .with_frag_shader("static_frag.glsl")
        .with_vert_shader("static_vert.glsl")
        .build();
    assert_eq!(
        stages,
        Ok(vec![
            source(ShaderStage::Vertex, "static_vert.glsl"),
            source(ShaderStage::Fragment, "static_frag.glsl"),
        ])
    );
}

#[test]
fn builder_plans_optional_stages_last() {
    let stages = ShaderBuilder::new()
        .with_tes_shader("t.glsl")
        .with_geo_shader("g.glsl")
        .with_frag_shader("f.glsl")
        .with_vert_shader("v.glsl")
        .build();
    assert_eq!(
        stages,
        Ok(vec![
            source(ShaderStage::Vertex, "v.glsl"),
            source(ShaderStage::Fragment, "f.glsl"),
            source(ShaderStage::Geometry, "g.glsl"),
            source(ShaderStage::Tessellation, "t.glsl"),
        ])
    );
    let stages = ShaderBuilder::new()
        .with_vert_shader("v.glsl")
        .with_frag_shader("f.glsl")
        .with_tes_shader("t.glsl")
        .build();
    assert_eq!(
        stages,
        Ok(vec![
            source(ShaderStage::Vertex, "v.glsl"),
            source(ShaderStage::Fragment, "f.glsl"),
            source(ShaderStage::Tessellation, "t.glsl"),
        ])
    );
}

#[test]
fn builder_keeps_the_last_name_of_a_stage() {
    let stages = ShaderBuilder::new()
        .with_vert_shader("old.glsl")
        .with_vert_shader("new.glsl")
        .with_frag_shader("f.glsl")
        .build();
    assert_eq!(
        stages,
        Ok(vec![source(ShaderStage::Vertex, "new.glsl"), source(ShaderStage::Fragment, "f.glsl")])
    );
}

#[test]
fn sources_are_read_from_the_shader_directory() {
    assert_eq!(source(ShaderStage::Vertex, "static_vert.glsl").path(), "assets/shaders/static_vert.glsl");
    assert_eq!(source(ShaderStage::Fragment, "").path(), "assets/shaders/");
}

#[test]
fn load_shader_turns_a_log_into_an_error() {
    assert_eq!(load_shader(5u32, None), Ok(5));
    assert_eq!(
        load_shader(5u32, Some(String::from("0:1: syntax error"))),
        Err(ShaderError::GLSL_COMPILE_ERROR(String::from("0:1: syntax error")))
    );
}

#[test]
fn link_program_turns_failure_into_an_error() {
    assert_eq!(link_program(true), Ok(()));
    assert_eq!(link_program(false), Err(ShaderError::GLSL_LINK_ERROR));
}

#[test]
fn uniform_locations_are_found_by_name() {
    let shader = program();
    assert_eq!(shader.get_uniform_location("camera"), Ok(0));
    assert_eq!(shader.get_uniform_location("transform"), Ok(1));
    assert_eq!(shader.get_uniform_location("perspective"), Ok(2));
    assert_eq!(shader.get_uniform_location("missing"), Err(ShaderError::UNIFORM_LOCATION_NOT_FOUND));
    assert_eq!(shader.get_uniform_location(""), Err(ShaderError::UNIFORM_LOCATION_NOT_FOUND));
    assert_eq!(shader.get_uniform_location("Camera"), Err(ShaderError::UNIFORM_LOCATION_NOT_FOUND));
}

#[test]
fn a_uniform_listed_twice_has_its_last_location() {
    let shader: Shader<u32, u32, i32, ()> = Shader::new(
        &Rc::new(()),
        1,
        2,
        3,
        None,
        None,
        vec![(String::from("a"), 10), (String::from("b"), 20), (String::from("a"), 30)],
    );
    assert_eq!(shader.get_uniform_location("a"), Ok(30));
    assert_eq!(shader.get_uniform_location("b"), Ok(20));
}

#[test]
fn add_uniform_hands_the_handle_over() {
    let mut shader = program();
    let mut recorder = Recorder { handles: Vec::new() };
    assert_eq!(shader.add_uniform("transform", &mut recorder), Ok(()));
    assert_eq!(
        recorder.handles,
        vec![ShaderUniformHandler {
            program: 9,
            uniform: 1,
            render_context: Rc::new(String::from("context")),
        }]
    );
    assert_eq!(
        shader.add_uniform("missing", &mut recorder),
        Err(ShaderError::UNIFORM_LOCATION_NOT_FOUND)
    );
    assert_eq!(recorder.handles.len(), 1);
}

#[test]
fn send_uniform_says_where_to_send() {
    let mut shader = program();
    let command = shader.send_uniform("perspective", UniformValue::FLOAT(0.5f32)).unwrap();
    assert_eq!(command.program, 9);
    assert_eq!(command.location, 2);
    assert_eq!(command.upload, UniformUpload::Float(0.5));
    assert_eq!(
        shader.send_uniform("missing", UniformValue::FLOAT(0.5f32)),
        Err(ShaderError::UNIFORM_LOCATION_NOT_FOUND)
    );
}

#[test]
fn matrices_are_sent_column_by_column() {
    let matrix = [[1, 2, 3, 4], [5, 6, 7, 8], [9, 10, 11, 12], [13, 14, 15, 16]];
    assert_eq!(
        UniformValue::MAT4(matrix).upload(),
        UniformUpload::Matrix4([1, 2, 3, 4, 5, 6, 7, 8, 9, 10, 11, 12, 13, 14, 15, 16])
    );
}

#[test]
fn other_values_are_not_sent() {
    assert_eq!(UniformValue::<f32>::INT(1).upload(), UniformUpload::Nothing);
    assert_eq!(UniformValue::<f32>::U_INT(1).upload(), UniformUpload::Nothing);
    assert_eq!(UniformValue::VEC2(Vector2::new(1.0, 2.0)).upload(), UniformUpload::Nothing);
    assert_eq!(UniformValue::VEC3(Vector3::new(1.0, 2.0, 3.0)).upload(), UniformUpload::Nothing);
    assert_eq!(UniformValue::VEC4(Vector4::new(1.0, 2.0, 3.0, 4.0)).upload(), UniformUpload::Nothing);
}

#[test]
fn handler_sends_to_its_own_uniform() {
    let handler = ShaderUniformHandler { program: 'p', uniform: 'u', render_context: Rc::new(()) };
    let command = handler.update_uniform(UniformValue::FLOAT(2u8));
    assert_eq!((command.program, command.location, command.upload), ('p', 'u', UniformUpload::Float(2)));
    assert_eq!(send_uniforms(UniformValue::FLOAT(2u8), 'p', 'u'), command);
}

#[test]
fn deleting_a_program_deletes_its_shaders_first() {
    let deletion = program().delete();
    assert_eq!(deletion.shaders, vec!['v', 'f']);
    assert_eq!(deletion.program, 9);
    let context = Rc::new(());
    let full: Shader<u32, char, i32, ()> =
        Shader::new(&context, 9, 'v', 'f', Some('g'), Some('t'), Vec::new());
    assert_eq!(full.delete().shaders, vec!['v', 'f', 'g', 't']);
    let partial: Shader<u32, char, i32, ()> =
        Shader::new(&context, 9, 'v', 'f', None, Some('t'), Vec::new());
    assert_eq!(partial.delete().shaders, vec!['v', 'f', 't']);
    assert_eq!(partial.bind(), 9);
}

#[test]
fn a_program_shares_its_context() {
    let context = Rc::new(String::from("context"));
    let shader: Shader<u32, char, i32, String> =
        Shader::new(&context, 9, 'v', 'f', None, None, vec![(String::from("camera"), 4)]);
    assert!(Rc::ptr_eq(shader.render_context(), &context));
    assert_eq!(Rc::strong_count(&context), 2);
    let handler = shader.uniform_handler("camera").unwrap();
    assert!(Rc::ptr_eq(&handler.render_context, &context));
    assert_eq!(Rc::strong_count(&context), 3);
    assert_eq!((handler.program, handler.uniform), (9, 4));
    assert_eq!(
        shader.uniform_handler("missing"),
        Err(ShaderError::UNIFORM_LOCATION_NOT_FOUND)
    );
    assert_eq!(Rc::strong_count(&context), 3);
}

#[test]
fn a_place_for_a_handle_keeps_the_last_one() {
    let mut shader = program();
    let mut place: Option<ShaderUniformHandler<u32, i32, String>> = None;
    assert_eq!(shader.add_uniform("missing", &mut place), Err(ShaderError::UNIFORM_LOCATION_NOT_FOUND));
    assert_eq!(place, None);
    assert_eq!(shader.add_uniform("camera", &mut place), Ok(()));
    assert_eq!(place.as_ref().map(|handler| handler.uniform), Some(0));
    assert_eq!(shader.add_uniform("perspective", &mut place), Ok(()));
    assert_eq!(place.as_ref().map(|handler| (handler.program, handler.uniform)), Some((9, 2)));
}
