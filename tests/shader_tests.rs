use nalgebra_glm as glm;
use shader::dispatch::resolve_uploads;
use shader::preprocess::{assemble_source, join_type_defs, platform_header, Platform, ShaderTypeDef};
use shader::program::{BuildPhase, BuildStep, Shader, ShaderBuild, ShaderError, Stage};
use shader::session::ActiveShader;
use shader::uniform::{
    element_uniform_name, len_uniform_name, FloatBits, Mat3Bits, Mat4Bits, Upload, UploadValue,
    Vec3Bits, Vec4Bits,
};

const DEFS: [&str; 5] = [
    "struct Camera { vec3 position; };",
    "struct Material { float shininess; };",
    "struct PointLight { vec3 position; };",
    "struct DirLight { vec3 direction; };",
    "struct SpotLight { vec3 position; vec3 direction; };",
];

fn defs() -> Vec<&'static str> {
    DEFS.to_vec()
}

/// A program with handle `id`, obtained by a build whose every step succeeded.
fn linked_shader(id: u32) -> Shader {
    let (mut b, _) = ShaderBuild::start(Platform::Desktop, &defs(), "void main() {}", "void main() {}");
    b.stage_compiled(1, true, String::new());
    b.stage_compiled(2, true, String::new());
    match b.program_linked(id, true, String::new()) {
        BuildStep::Finished { result: Ok(s), .. } => s,
        other => panic!("unexpected step {:?}", other),
    }
}

fn names(ups: &[Upload]) -> Vec<String> {
    ups.iter().map(|u| u.name.clone()).collect()
}

#[test]
fn header_per_platform() {
    assert_eq!(platform_header(Platform::Desktop), "#version 330 core");
    assert_eq!(platform_header(Platform::Web), "#version 300 es\nprecision highp float;");
}

#[test]
fn type_defs_join_with_newlines() {
    assert_eq!(join_type_defs(&vec!["a", "b", "c"]), "a\nb\nc");
    assert_eq!(join_type_defs(&vec!["only"]), "only");
    assert_eq!(join_type_defs(&Vec::new()), "");
}

#[test]
fn assembled_source_order() {
    let source = "void main() { gl_Position = vec4(0.0); }";
    let text = assemble_source(Platform::Desktop, &defs(), source);
    let expected = format!("#version 330 core\n{}\n{}", DEFS.join("\n"), source);
    assert_eq!(text, expected);
    let mut at = 0;
    for part in ["#version 330 core"].iter().chain(DEFS.iter()).chain([source].iter()) {
        let found = text[at..].find(part).expect("part missing") + at;
        assert!(found >= at);
        at = found + part.len();
    }
    assert!(text.ends_with(source));
    let web = assemble_source(Platform::Web, &defs(), source);
    assert!(web.starts_with("#version 300 es\nprecision highp float;\nstruct Camera"));
}

#[test]
fn build_steps_on_success() {
    let (mut b, step) = ShaderBuild::start(Platform::Desktop, &defs(), "V", "F");
    match step {
        BuildStep::Compile { stage: Stage::Vertex, source } => {
            assert!(source.ends_with("\nV"));
            assert!(source.starts_with("#version 330 core\n"));
        }
        other => panic!("unexpected step {:?}", other),
    }
    match b.stage_compiled(7, true, String::new()) {
        BuildStep::Compile { stage: Stage::Fragment, source } => assert!(source.ends_with("\nF")),
        other => panic!("unexpected step {:?}", other),
    }
    assert_eq!(b.phase(), BuildPhase::CompilingFragment);
    match b.stage_compiled(8, true, String::new()) {
        BuildStep::Link { vertex: 7, fragment: 8 } => {}
        other => panic!("unexpected step {:?}", other),
    }
    match b.program_linked(9, true, String::new()) {
        BuildStep::Finished { result: Ok(s), release } => {
            assert_eq!(s.id(), 9);
            assert_eq!(release, vec![7, 8]);
        }
        other => panic!("unexpected step {:?}", other),
    }
    assert_eq!(b.phase(), BuildPhase::Done);
}

#[test]
fn vertex_compile_error_names_vertex_stage() {
    let (mut b, _) = ShaderBuild::start(Platform::Desktop, &defs(), "void main() { int x = 1 }", "void main() {}");
    let log = "0:1(26): error: syntax error, unexpected '}'".to_string();
    match b.stage_compiled(3, false, log.clone()) {
        BuildStep::Finished { result: Err(ShaderError::Compile { stage, log: l }), release } => {
            assert_eq!(stage, Stage::Vertex);
            assert_eq!(l, log);
            assert!(!l.is_empty());
            assert!(release.is_empty());
        }
        other => panic!("unexpected step {:?}", other),
    }
    assert_eq!(b.phase(), BuildPhase::Done);
}

#[test]
fn fragment_compile_error_names_fragment_stage() {
    let (mut b, _) = ShaderBuild::start(Platform::Desktop, &defs(), "void main() {}", "void main() { x }");
    b.stage_compiled(3, true, String::new());
    match b.stage_compiled(4, false, "error: undeclared identifier".to_string()) {
        BuildStep::Finished { result: Err(ShaderError::Compile { stage, log }), .. } => {
            assert_eq!(stage, Stage::Fragment);
            assert_eq!(log, "error: undeclared identifier");
        }
        other => panic!("unexpected step {:?}", other),
    }
}

#[test]
fn incompatible_stages_give_link_error() {
    let (mut b, _) = ShaderBuild::start(Platform::Desktop, &defs(), "out vec3 a;", "in vec4 a;");
    b.stage_compiled(3, true, String::new());
    b.stage_compiled(4, true, String::new());
    match b.program_linked(5, false, "error: `a' type mismatch".to_string()) {
        BuildStep::Finished { result: Err(ShaderError::Link { log }), release } => {
            assert_eq!(log, "error: `a' type mismatch");
            assert_eq!(release, vec![3, 4]);
        }
        other => panic!("unexpected step {:?}", other),
    }
}

#[test]
fn texture_slots_count_from_zero() {
    let shader = linked_shader(1);
    let mut s = ActiveShader::new(&shader);
    let slots: Vec<u32> = (0..5).map(|_| s.new_texture_slot()).collect();
    assert_eq!(slots, vec![0, 1, 2, 3, 4]);
    assert_eq!(s.texture_count(), 5);
    s.reset_textures();
    assert_eq!(s.new_texture_slot(), 0);
    assert_eq!(s.program_id(), 1);
}

#[test]
fn scalar_binds_queue_one_upload() {
    let shader = linked_shader(2);
    let mut s = ActiveShader::new(&shader);
    s.bind_uniform("i", &-3i32);
    s.bind_uniform("u", &7u32);
    s.bind_uniform("f", &FloatBits(1.5f32.to_bits()));
    s.bind_uniform("v3", &Vec3Bits { x: 1, y: 2, z: 3 });
    s.bind_uniform("v4", &Vec4Bits([4, 5, 6, 7]));
    let r = &5i32;
    s.bind_uniform("r", &r);
    let ups = s.take_uploads();
    assert_eq!(names(&ups), vec!["i", "u", "f", "v3", "v4", "r"]);
    assert_eq!(ups[0].value, UploadValue::Int(-3));
    assert_eq!(ups[1].value, UploadValue::Uint(7));
    assert_eq!(ups[2].value, UploadValue::Float(1.5f32.to_bits()));
    assert_eq!(ups[3].value, UploadValue::Vec3([1, 2, 3]));
    assert_eq!(ups[4].value, UploadValue::Vec4([4, 5, 6, 7]));
    assert_eq!(ups[5].value, UploadValue::Int(5));
    assert!(s.take_uploads().is_empty());
}

#[test]
fn sequence_bind_names_and_count() {
    let shader = linked_shader(3);
    let mut s = ActiveShader::new(&shader);
    let values: Vec<i32> = (0..12).map(|i| i * 10).collect();
    s.bind_uniform("lights", &values);
    let ups = s.take_uploads();
    assert_eq!(ups.len(), 13);
    assert_eq!(ups[0].name, "lights_len");
    assert_eq!(ups[0].value, UploadValue::Int(12));
    for i in 0..12 {
        assert_eq!(ups[i + 1].name, format!("lights[{}]", i));
        assert_eq!(ups[i + 1].value, UploadValue::Int(i as i32 * 10));
    }
}

#[test]
fn empty_sequence_binds_only_length() {
    let shader = linked_shader(4);
    let mut s = ActiveShader::new(&shader);
    s.bind_uniform("xs", &Vec::<u32>::new());
    let ups = s.take_uploads();
    assert_eq!(names(&ups), vec!["xs_len"]);
    assert_eq!(ups[0].value, UploadValue::Int(0));
}

#[test]
fn nested_sequence_names() {
    let shader = linked_shader(5);
    let mut s = ActiveShader::new(&shader);
    s.bind_uniform("m", &vec![vec![1u32], vec![]]);
    let ups = s.take_uploads();
    assert_eq!(names(&ups), vec!["m_len", "m[0]_len", "m[0][0]", "m[1]_len"]);
}

#[test]
fn builtin_binds_take_no_texture_slot() {
    let shader = linked_shader(8);
    let mut s = ActiveShader::new(&shader);
    s.new_texture_slot();
    s.new_texture_slot();
    s.bind_uniform("i", &1i32);
    s.bind_uniform("m", &Mat4Bits([0; 16]));
    s.bind_uniform("xs", &vec![FloatBits(0), FloatBits(1)]);
    s.bind_uniform("r", &&Vec3Bits { x: 0, y: 0, z: 0 });
    assert_eq!(s.texture_count(), 2);
    assert_eq!(s.new_texture_slot(), 2);
    assert_eq!(s.program_id(), 8);
}

#[test]
fn uniform_names() {
    assert_eq!(len_uniform_name("pointLights"), "pointLights_len");
    assert_eq!(element_uniform_name("a", 0), "a[0]");
    assert_eq!(element_uniform_name("a", 10), "a[10]");
    assert_eq!(element_uniform_name("a", 4096), "a[4096]");
    assert_eq!(element_uniform_name("a", usize::MAX), format!("a[{}]", usize::MAX));
}

#[test]
fn absent_locations_upload_nothing() {
    let shader = linked_shader(6);
    let mut s = ActiveShader::new(&shader);
    s.bind_uniform("unused", &vec![1i32, 2, 3]);
    let ups = s.take_uploads();
    let none: Vec<Option<u32>> = vec![None; ups.len()];
    assert!(resolve_uploads(&ups, &none).is_empty());
    let some = vec![Some(10u32), None, Some(12), None];
    assert_eq!(
        resolve_uploads(&ups, &some),
        vec![(10, UploadValue::Int(3)), (12, UploadValue::Int(2))]
    );
    assert!(resolve_uploads(&ups, &Vec::<Option<u32>>::new()).is_empty());
}

#[test]
fn matrix_upload_keeps_column_major_layout() {
    let m3: glm::Mat3 = glm::mat3(1.0, 2.0, 3.0, 4.0, 5.0, 6.0, 7.0, 8.0, 9.0);
    let mut bits3 = [0u32; 9];
    for (o, x) in bits3.iter_mut().zip(m3.as_slice()) {
        *o = x.to_bits();
    }
    let m4 = glm::Mat4::from_fn(|r, c| (r * 4 + c) as f32);
    let mut bits4 = [0u32; 16];
    for (o, x) in bits4.iter_mut().zip(m4.as_slice()) {
        *o = x.to_bits();
    }
    let shader = linked_shader(7);
    let mut s = ActiveShader::new(&shader);
    s.bind_uniform("normal", &Mat3Bits(bits3));
    s.bind_uniform("model", &Mat4Bits(bits4));
    let ups = s.take_uploads();
    match ups[0].value {
        UploadValue::Mat3(d) => {
            let floats: Vec<f32> = d.iter().map(|b| f32::from_bits(*b)).collect();
            assert_eq!(floats, vec![1.0, 4.0, 7.0, 2.0, 5.0, 8.0, 3.0, 6.0, 9.0]);
        }
        other => panic!("unexpected value {:?}", other),
    }
    match ups[1].value {
        UploadValue::Mat4(d) => {
            let floats: Vec<f32> = d.iter().map(|b| f32::from_bits(*b)).collect();
            let expected: Vec<f32> = (0..16).map(|i| ((i % 4) * 4 + i / 4) as f32).collect();
            assert_eq!(floats, expected);
        }
        other => panic!("unexpected value {:?}", other),
    }
}

struct Camera;
struct Material;

impl ShaderTypeDef for Camera {
    const TYPE_DEF: &'static str = "struct Camera { vec3 position; };";
}

impl ShaderTypeDef for Material {
    const TYPE_DEF: &'static str = "struct Material { float shininess; };";
}

#[test]
fn type_defs_from_types_in_order() {
    let text = assemble_source(Platform::Desktop, &vec![Camera::TYPE_DEF, Material::TYPE_DEF], "S");
    assert_eq!(
        text,
        "#version 330 core\nstruct Camera { vec3 position; };\nstruct Material { float shininess; };\nS"
    );
}

#[test]
fn io_error_carries_message() {
    let e = ShaderError::Io { message: "no such file".to_string() };
    match e {
        ShaderError::Io { message } => assert_eq!(message, "no such file"),
        _ => panic!("wrong variant"),
    }
}
