use usami::stage::{next_stages, shader_stage_suffix, ShaderStage};
use usami::vk;

#[test]
fn stages_round_trip_through_flags() {
    for s in [
        ShaderStage::Vertex,
        ShaderStage::TessellationControl,
        ShaderStage::TessellationEvaluation,
        ShaderStage::Geometry,
        ShaderStage::Fragment,
        ShaderStage::Compute,
        ShaderStage::Task,
        ShaderStage::Mesh,
    ] {
        assert_eq!(ShaderStage::from_flags(s.flags()), Some(s));
        assert_eq!(next_stages(s) & s.flags(), 0);
    }
}

#[test]
fn unsupported_stage_masks() {
    assert_eq!(ShaderStage::from_flags(0), None);
    assert_eq!(ShaderStage::from_flags(vk::STAGE_VERTEX | vk::STAGE_FRAGMENT), None);
    assert_eq!(ShaderStage::from_flags(0x100), None);
}

#[test]
fn next_stages_follow_pipeline_order() {
    assert_eq!(next_stages(ShaderStage::Vertex), vk::STAGE_TESSELLATION_CONTROL | vk::STAGE_GEOMETRY | vk::STAGE_FRAGMENT);
    assert_eq!(next_stages(ShaderStage::TessellationControl), vk::STAGE_TESSELLATION_EVALUATION);
    assert_eq!(next_stages(ShaderStage::TessellationEvaluation), vk::STAGE_GEOMETRY | vk::STAGE_FRAGMENT);
    assert_eq!(next_stages(ShaderStage::Geometry), vk::STAGE_FRAGMENT);
    assert_eq!(next_stages(ShaderStage::Fragment), 0);
    assert_eq!(next_stages(ShaderStage::Compute), 0);
    assert_eq!(next_stages(ShaderStage::Task), vk::STAGE_MESH_EXT);
    assert_eq!(next_stages(ShaderStage::Mesh), vk::STAGE_FRAGMENT);
}

#[test]
fn stage_suffixes() {
    assert_eq!(shader_stage_suffix(vk::STAGE_VERTEX), "vert");
    assert_eq!(shader_stage_suffix(vk::STAGE_COMPUTE), "comp");
    assert_eq!(shader_stage_suffix(vk::STAGE_VERTEX | vk::STAGE_FRAGMENT), "vert.frag");
    assert_eq!(shader_stage_suffix(0x3f), "vert.tesc.tese.geom.frag.comp");
    assert_eq!(shader_stage_suffix(vk::STAGE_MESH_EXT), "");
    assert_eq!(shader_stage_suffix(0), "");
}
