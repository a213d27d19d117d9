use rust_game_engine::layout::{
    layout_from_formats, pos_color_layout, AttributeFormat, VertexAttribute, MAX_ATTRIBUTES,
};
use rust_game_engine::pipeline::{
    BufferRequest, BufferUsage, DrawCommand, MemoryPolicy, PipelineError, PrepareResult, PrepareStep, TriangleRenderPipelineDesc,
    VertexBuffer,
};

fn pos_color_inputs() -> Vec<AttributeFormat> {
    vec![AttributeFormat::Rgb32Sfloat, AttributeFormat::Rgba32Sfloat]
}

#[test]
fn static_layout_is_position_then_color() {
    let l = pos_color_layout();
    assert_eq!(l.stride, 28);
    assert_eq!(
        l.attributes,
        vec![
            VertexAttribute { format: AttributeFormat::Rgb32Sfloat, offset: 0 },
            VertexAttribute { format: AttributeFormat::Rgba32Sfloat, offset: 12 },
        ]
    );
}

#[test]
fn reflected_layout_agrees_with_static_layout() {
    let stat = pos_color_layout();
    let refl = layout_from_formats(&pos_color_inputs()).unwrap();
    assert_eq!(refl.stride, stat.stride);
    assert_eq!(refl.attributes, stat.attributes);
}

#[test]
fn packed_layout_of_small_formats() {
    let l = layout_from_formats(&vec![
        AttributeFormat::R32Sfloat,
        AttributeFormat::Rg32Sfloat,
        AttributeFormat::Rgba32Sfloat,
        AttributeFormat::R32Sfloat,
    ])
    .unwrap();
    let offsets: Vec<u32> = l.attributes.iter().map(|a| a.offset).collect();
    assert_eq!(offsets, vec![0, 4, 12, 28]);
    assert_eq!(l.stride, 32);
}

#[test]
fn packed_layout_needs_one_to_max_formats() {
    assert!(layout_from_formats(&Vec::new()).is_none());
    let most = vec![AttributeFormat::Rgba32Sfloat; MAX_ATTRIBUTES];
    let l = layout_from_formats(&most).unwrap();
    assert_eq!(l.stride, 16 * MAX_ATTRIBUTES as u32);
    assert_eq!(l.attributes[MAX_ATTRIBUTES - 1].offset, 16 * (MAX_ATTRIBUTES as u32 - 1));
    let too_many = vec![AttributeFormat::R32Sfloat; MAX_ATTRIBUTES + 1];
    assert!(layout_from_formats(&too_many).is_none());
}

#[test]
fn descriptor_declares_one_vertex_buffer_and_no_depth() {
    let d = TriangleRenderPipelineDesc::new();
    assert_eq!(d.depth_stencil(), None);
    let v = d.vertices().unwrap();
    assert_eq!(v.len(), 1);
    assert_eq!(v[0].stride, 28);
}

#[test]
fn reflected_descriptor_builds_same_node_as_static() {
    let a = TriangleRenderPipelineDesc::new().build(0, 0, 0).unwrap();
    let b = TriangleRenderPipelineDesc::with_reflection(pos_color_inputs()).build(0, 0, 0).unwrap();
    assert_eq!(a.vertex_stride(), 28);
    assert_eq!(b.vertex_stride(), a.vertex_stride());
    assert_eq!(a.prepare(), b.prepare());
}

#[test]
fn mismatched_reflection_is_rejected() {
    let d = TriangleRenderPipelineDesc::with_reflection(vec![AttributeFormat::Rgb32Sfloat]);
    assert_eq!(d.vertex_layout().err(), Some(PipelineError::LayoutMismatch));
    let d = TriangleRenderPipelineDesc::with_reflection(vec![
        AttributeFormat::Rgba32Sfloat,
        AttributeFormat::Rgb32Sfloat,
    ]);
    assert_eq!(d.build(0, 0, 0).err(), Some(PipelineError::LayoutMismatch));
}

#[test]
fn new_node_has_no_buffer() {
    let p = TriangleRenderPipelineDesc::new().build(0, 0, 0).unwrap();
    assert_eq!(p.vertex_buffer(), None);
}

#[test]
fn first_prepare_requests_three_vertices() {
    let p = TriangleRenderPipelineDesc::new().build(0, 0, 0).unwrap();
    assert_eq!(p.prepare(), PrepareStep::Provision(BufferRequest {
            size: 84,
            usage: BufferUsage::Vertex,
            memory: MemoryPolicy::Dynamic,
        }));
}

#[test]
fn prepare_after_provisioning_keeps_buffer() {
    let mut p = TriangleRenderPipelineDesc::new().build(0, 0, 0).unwrap();
    assert_eq!(p.provision(41), PrepareResult::DrawReuse);
    let first = p.vertex_buffer();
    assert_eq!(first, Some(VertexBuffer { handle: 41, size: 84 }));
    for _ in 0..5 {
        assert_eq!(p.prepare(), PrepareStep::Reuse);
        assert_eq!(p.vertex_buffer(), first);
    }
}

#[test]
fn draw_is_the_same_for_every_frame() {
    let mut p = TriangleRenderPipelineDesc::new().build(0, 0, 0).unwrap();
    p.provision(9);
    let expected = DrawCommand {
        buffer: 9,
        binding: 0,
        offset: 0,
        first_vertex: 0,
        end_vertex: 3,
        first_instance: 0,
        end_instance: 1,
    };
    for frame in [0usize, 1, 2, 1000, usize::MAX] {
        assert_eq!(p.draw(frame), expected);
    }
}

#[test]
fn dispose_of_unprovisioned_node_releases_nothing() {
    let p = TriangleRenderPipelineDesc::new().build(0, 0, 0).unwrap();
    assert_eq!(p.dispose(), None);
}

#[test]
fn dispose_of_provisioned_node_releases_its_buffer() {
    let mut p = TriangleRenderPipelineDesc::new().build(0, 0, 0).unwrap();
    p.provision(3);
    assert_eq!(p.dispose(), Some(VertexBuffer { handle: 3, size: 84 }));
}

#[test]
fn default_descriptor_takes_static_layout() {
    let d = TriangleRenderPipelineDesc::default();
    assert!(d.reflected.is_none());
    assert_eq!(d.vertex_layout().unwrap().stride, 28);
}
