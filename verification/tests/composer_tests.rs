use wgs::{concat_shader_frag, FRAG_PREFIX, FRAG_SUFFIX};

#[test]
fn compose_zero_textures_has_no_bindings() {
    let body = "fn main_image(p: vec2<f32>) -> vec4<f32> { return vec4<f32>(1.0); }";
    let shader = concat_shader_frag(body, 0);
    // group 0 holds the uniform block; no texture group follows it
    assert!(!shader.contains("texture_2d"));
    assert!(!shader.contains("var sampler"));
    assert!(!shader.contains("@group(1)"));
    let expected = format!("{}\n{}\n{}\n{}", FRAG_PREFIX, "", body, FRAG_SUFFIX);
    assert_eq!(shader, expected);
}

#[test]
fn compose_one_texture_exact() {
    let body = "B";
    let shader = concat_shader_frag(body, 1);
    let block = "@group(1) @binding(0)\nvar texture0: texture_2d<f32>;\n@group(1) @binding(1)\nvar sampler0: sampler;\n";
    let expected = format!("{}\n{}\n{}\n{}", FRAG_PREFIX, block, body, FRAG_SUFFIX);
    assert_eq!(shader, expected);
}

#[test]
fn compose_counts_one_pair_per_texture() {
    let body = "fn main_image() {}";
    let n = 3;
    let shader = concat_shader_frag(body, n);
    // one extra "@binding(0)" comes from the preamble's uniform block
    assert_eq!(shader.matches("@binding(0)").count(), n + 1);
    assert_eq!(shader.matches("@binding(1)").count(), n);
    assert_eq!(shader.matches(": texture_2d<f32>;").count(), n);
    assert_eq!(shader.matches(": sampler;").count(), n);
}

#[test]
fn compose_groups_ascend_from_one() {
    let shader = concat_shader_frag("X", 3);
    let g1 = shader.find("@group(1) @binding(0)").unwrap();
    let g2 = shader.find("@group(2) @binding(0)").unwrap();
    let g3 = shader.find("@group(3) @binding(0)").unwrap();
    assert!(g1 < g2 && g2 < g3);
    assert!(shader.contains("var texture2: texture_2d<f32>;"));
    assert!(!shader.contains("@group(4)"));
}

#[test]
fn compose_embeds_body_verbatim() {
    let body = "fn main_image(frag_coord: vec2<f32>) -> vec4<f32> {\n    return vec4<f32>(0.25, 0.5, 0.75, 1.0);\n}";
    let shader = concat_shader_frag(body, 2);
    assert!(shader.contains(body));
}

#[test]
fn compose_two_digit_indices() {
    let shader = concat_shader_frag("X", 12);
    assert!(shader.contains("@group(12) @binding(0)\nvar texture11: texture_2d<f32>;"));
    assert!(shader.contains("var sampler10: sampler;"));
}
