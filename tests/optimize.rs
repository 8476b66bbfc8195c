use shader_variants::optimize::{optimize_shader, optimizer_target, stage_result, OptimizerTarget};
use shader_variants::variant::{ShaderDialect, ShaderOptimizationInput};

fn item(d: ShaderDialect) -> ShaderOptimizationInput {
    ShaderOptimizationInput::new("solid".to_string(), "FAST".to_string(), d)
}

#[test]
fn targets_by_dialect() {
    assert_eq!(optimizer_target(ShaderDialect::Gl), OptimizerTarget::OpenGl);
    assert_eq!(optimizer_target(ShaderDialect::Gles), OptimizerTarget::OpenGles30);
}

#[test]
fn accepted_stage_gives_output() {
    let r = stage_result(&item(ShaderDialect::Gl), true, Some("out".to_string()), "log".to_string());
    assert_eq!(r.unwrap(), "out");
}

#[test]
fn rejected_stage_gives_failure_with_log() {
    let r = stage_result(&item(ShaderDialect::Gl), false, Some("out".to_string()), "error: x".to_string());
    let e = r.unwrap_err();
    assert_eq!(e.message, "error: x");
    assert_eq!(e.shader.config, "FAST");
}

#[test]
fn accepted_stage_without_output_is_a_failure() {
    let r = stage_result(&item(ShaderDialect::Gles), true, None, "no output".to_string());
    assert_eq!(r.unwrap_err().message, "no output");
}

#[test]
fn optimizer_rewrites_valid_shaders() {
    let vert = "void main() { gl_Position = vec4(0.0); }".to_string();
    let frag = "void main() { gl_FragColor = vec4(1.0); }".to_string();
    let (v, f) = optimize_shader(&item(ShaderDialect::Gl), vert.clone(), frag.clone()).unwrap();
    assert!(v.contains("gl_Position"));
    assert!(f.contains("gl_FragColor"));
    assert_ne!(v, vert);
    assert_ne!(f, frag);
}

#[test]
fn optimizer_rejects_invalid_source() {
    let it = item(ShaderDialect::Gl);
    let r = optimize_shader(&it, "this is not a shader".to_string(), "void main() {}".to_string());
    let e = r.unwrap_err();
    assert_eq!(e.shader.shader_name, "solid");
    assert!(!e.message.is_empty());
}
