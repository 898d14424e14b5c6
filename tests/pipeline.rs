use rgfx::{PipelineBuilder, PipelineError, PrimitiveTopology};

#[test]
fn build_without_vertex_shader_fails() {
    let b: PipelineBuilder<&str, u32> = PipelineBuilder::new().with_fragment_shader("fs");
    let e = b.build().err().unwrap();
    assert_eq!(e, PipelineError::MissingVertexShader);
    assert_eq!(e.message(), "Vertex shader must be provided");
}

#[test]
fn build_without_fragment_shader_fails() {
    let b: PipelineBuilder<&str, u32> = PipelineBuilder::new().with_vertex_shader("vs");
    let e = b.build().err().unwrap();
    assert_eq!(e, PipelineError::MissingFragmentShader);
    assert_eq!(e.message(), "Fragment shader must be provided");
}

#[test]
fn build_with_both_shaders_keeps_every_part() {
    let stages = PipelineBuilder::new()
        .with_label("2d")
        .with_vertex_shader("vs")
        .with_fragment_shader("fs")
        .with_vertex_buffer_layout(1u32)
        .with_vertex_buffer_layout(2u32)
        .build()
        .unwrap();
    assert_eq!(stages.label.as_deref(), Some("2d"));
    assert_eq!(stages.vertex_shader, "vs");
    assert_eq!(stages.fragment_shader, "fs");
    assert_eq!(stages.vertex_buffer_layouts, vec![1u32, 2]);
    assert_eq!(stages.primitive_topology, PrimitiveTopology::TriangleList);
}

#[test]
fn topology_can_be_changed() {
    let b: PipelineBuilder<&str, u32> =
        PipelineBuilder::new().with_primitive_topology(PrimitiveTopology::LineStrip);
    assert_eq!(b.primitive_topology, PrimitiveTopology::LineStrip);
    assert!(b.label.is_none());
    assert!(b.vertex_buffer_layouts.is_empty());
}
