use shader_variants::enumerate::{collect_shader_variants, dialect_feature_flags, enumerate_variants};
use shader_variants::naming::base_filename;
use shader_variants::variant::ShaderDialect;
use std::collections::HashSet;

fn features(name: &str, configs: &[&str]) -> Vec<(String, Vec<String>)> {
    vec![(name.to_string(), configs.iter().map(|c| c.to_string()).collect())]
}

fn triple(i: &shader_variants::variant::ShaderOptimizationInput) -> (String, String, ShaderDialect) {
    (i.shader_name.clone(), i.config.clone(), i.gl_version)
}

#[test]
fn blur_on_both_dialects_gives_four_items() {
    let f = features("blur", &["", "fast"]);
    let items = enumerate_variants(&f, &f);
    let got: Vec<_> = items.iter().map(triple).collect();
    assert_eq!(
        got,
        vec![
            ("blur".to_string(), "".to_string(), ShaderDialect::Gl),
            ("blur".to_string(), "fast".to_string(), ShaderDialect::Gl),
            ("blur".to_string(), "".to_string(), ShaderDialect::Gles),
            ("blur".to_string(), "fast".to_string(), ShaderDialect::Gles),
        ]
    );
}

#[test]
fn empty_feature_lists_give_no_items() {
    assert!(enumerate_variants(&Vec::new(), &Vec::new()).is_empty());
}

#[test]
fn dialects_keep_independent_lists() {
    let gl = features("a", &["X"]);
    let mut gles = features("b", &["", "Y", "Z"]);
    gles.extend(features("c", &[]));
    let items = enumerate_variants(&gl, &gles);
    let got: Vec<_> = items.iter().map(triple).collect();
    assert_eq!(
        got,
        vec![
            ("a".to_string(), "X".to_string(), ShaderDialect::Gl),
            ("b".to_string(), "".to_string(), ShaderDialect::Gles),
            ("b".to_string(), "Y".to_string(), ShaderDialect::Gles),
            ("b".to_string(), "Z".to_string(), ShaderDialect::Gles),
        ]
    );
}

#[test]
fn enumerated_filenames_are_unique() {
    let mut gl = features("blur", &["", "fast"]);
    gl.extend(features("clip", &["", "FAST_PATH", "A,B"]));
    let items = enumerate_variants(&gl, &gl);
    let names: HashSet<String> = items.iter().map(base_filename).collect();
    assert_eq!(names.len(), items.len());
    assert_eq!(items.len(), 10);
}

#[test]
fn dialect_masks() {
    assert_eq!(dialect_feature_flags(ShaderDialect::Gl), 0x6701);
    assert_eq!(dialect_feature_flags(ShaderDialect::Gles), 0x7f02);
}

#[test]
fn real_variants_cover_both_dialects_with_unique_names() {
    let items = collect_shader_variants();
    assert!(!items.is_empty());
    let first_gles = items.iter().position(|i| i.gl_version == ShaderDialect::Gles).unwrap();
    assert!(first_gles > 0);
    assert!(items[first_gles..].iter().all(|i| i.gl_version == ShaderDialect::Gles));
    assert!(items.iter().any(|i| i.shader_name == "cs_blur"
        && i.config == "ALPHA_TARGET"
        && i.gl_version == ShaderDialect::Gl));
    let names: HashSet<String> = items.iter().map(base_filename).collect();
    assert_eq!(names.len(), items.len());
}
