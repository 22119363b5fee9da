use render_core::device::ColorFormat;
use render_core::errors::InitError;
use render_core::pipeline::{
    build_pipeline, stage_of_filename, CompareOp, CullMode, DepthFormat, FrontFace, ShaderStage,
    ShaderStageKind, Topology,
};
use render_core::swapchain::Extent2d;

fn stages(kinds: &[ShaderStageKind]) -> Vec<ShaderStage> {
    kinds
        .iter()
        .enumerate()
        .map(|(i, kind)| ShaderStage { module: 100 + i as u64, kind: *kind })
        .collect()
}

#[test]
fn pipeline_fixes_the_engine_configuration() {
    let extent = Extent2d { width: 640, height: 480 };
    let p = build_pipeline(
        &stages(&[ShaderStageKind::Vertex, ShaderStageKind::Fragment]),
        ColorFormat::B8g8r8a8Srgb,
        DepthFormat::D32Float,
        extent,
    )
    .unwrap();
    assert_eq!(p.vertex_module, 100);
    assert_eq!(p.fragment_module, 101);
    assert_eq!(p.topology, Topology::TriangleList);
    assert_eq!(p.cull_mode, CullMode::Front);
    assert_eq!(p.front_face, FrontFace::CounterClockwise);
    assert_eq!(p.sample_count, 1);
    assert!(p.depth_test);
    assert!(p.depth_write);
    assert_eq!(p.depth_compare, CompareOp::LessOrEqual);
    assert_eq!(p.viewport_extent, extent);
    assert_eq!(p.scissor_extent, extent);
    assert!(!p.blend_enabled);
    assert_eq!(p.color_format, ColorFormat::B8g8r8a8Srgb);
    assert_eq!(p.depth_format, DepthFormat::D32Float);
    assert_eq!(p.vertex_stride, 24);
}

#[test]
fn pipeline_accepts_stages_in_either_order() {
    let p = build_pipeline(
        &stages(&[ShaderStageKind::Fragment, ShaderStageKind::Vertex]),
        ColorFormat::R8g8b8a8Srgb,
        DepthFormat::D32Float,
        Extent2d { width: 1, height: 1 },
    )
    .unwrap();
    assert_eq!(p.vertex_module, 101);
    assert_eq!(p.fragment_module, 100);
}

#[test]
fn pipeline_rejects_wrong_stage_counts() {
    let extent = Extent2d { width: 1, height: 1 };
    for bad in [
        Vec::new(),
        stages(&[ShaderStageKind::Vertex]),
        stages(&[ShaderStageKind::Fragment]),
        stages(&[ShaderStageKind::Vertex, ShaderStageKind::Vertex]),
        stages(&[ShaderStageKind::Vertex, ShaderStageKind::Fragment, ShaderStageKind::Vertex]),
    ] {
        let r = build_pipeline(&bad, ColorFormat::B8g8r8a8Srgb, DepthFormat::D32Float, extent);
        assert_eq!(r.err().unwrap(), InitError::PipelineCreation);
    }
}

#[test]
fn shader_names_classify_by_their_middle_piece() {
    assert_eq!(
        stage_of_filename(&b"triangle.vert.spv".to_vec()),
        Some(ShaderStageKind::Vertex)
    );
    assert_eq!(
        stage_of_filename(&b"triangle.frag.spv".to_vec()),
        Some(ShaderStageKind::Fragment)
    );
}

#[test]
fn other_name_shapes_are_unknown() {
    assert_eq!(stage_of_filename(&b"triangle.spv".to_vec()), None);
    assert_eq!(stage_of_filename(&b"triangle".to_vec()), None);
    assert_eq!(stage_of_filename(&b"triangle.geom.spv".to_vec()), None);
    assert_eq!(stage_of_filename(&b"a.vert.b.c".to_vec()), None);
    assert_eq!(stage_of_filename(&b".vert.".to_vec()), Some(ShaderStageKind::Vertex));
    assert_eq!(stage_of_filename(&b"..".to_vec()), None);
    assert_eq!(stage_of_filename(&Vec::new()), None);
}
