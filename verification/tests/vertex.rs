use playground_wgpu::vertex::{
    InputStepMode, PipelineVariant, VertexAttribute, VertexFormat, VertexLayout,
};

fn attribute(offset: u64, shader_location: u32, format: VertexFormat) -> VertexAttribute {
    VertexAttribute { offset, shader_location, format }
}

#[test]
fn format_sizes() {
    assert_eq!(VertexFormat::Float.byte_size(), 4);
    assert_eq!(VertexFormat::Float2.byte_size(), 8);
    assert_eq!(VertexFormat::Float3.byte_size(), 12);
    assert_eq!(VertexFormat::Float4.byte_size(), 16);
}

#[test]
fn textured_vertex_has_position_then_texture_coordinates() {
    let layout = PipelineVariant::Textured.descriptor();
    assert_eq!(layout.stride, 20);
    assert_eq!(layout.stride, std::mem::size_of::<([f32; 3], [f32; 2])>() as u64);
    assert_eq!(layout.step_mode, InputStepMode::Vertex);
    assert_eq!(
        layout.attributes,
        vec![attribute(0, 0, VertexFormat::Float3), attribute(12, 1, VertexFormat::Float2)]
    );
}

#[test]
fn colored_vertex_has_position_then_color() {
    let layout = PipelineVariant::Colored.descriptor();
    assert_eq!(layout.stride, 24);
    assert_eq!(
        layout.attributes,
        vec![attribute(0, 0, VertexFormat::Float3), attribute(12, 1, VertexFormat::Float3)]
    );
}

#[test]
fn minimal_vertex_has_position_only() {
    let layout = PipelineVariant::Minimal.descriptor();
    assert_eq!(layout.stride, 12);
    assert_eq!(layout.attributes, vec![attribute(0, 0, VertexFormat::Float3)]);
}

#[test]
fn variants_list_their_formats() {
    assert_eq!(PipelineVariant::Minimal.vertex_formats(), vec![VertexFormat::Float3]);
    assert_eq!(
        PipelineVariant::Colored.vertex_formats(),
        vec![VertexFormat::Float3, VertexFormat::Float3]
    );
    assert_eq!(
        PipelineVariant::Textured.vertex_formats(),
        vec![VertexFormat::Float3, VertexFormat::Float2]
    );
    assert!(!PipelineVariant::Minimal.uses_texture());
    assert!(!PipelineVariant::Colored.uses_texture());
    assert!(PipelineVariant::Textured.uses_texture());
}

#[test]
fn packed_offsets_are_sums_of_preceding_sizes() {
    let formats = [
        VertexFormat::Float,
        VertexFormat::Float2,
        VertexFormat::Float3,
        VertexFormat::Float4,
        VertexFormat::Float,
    ];
    let layout = VertexLayout::packed(&formats).unwrap();
    assert_eq!(layout.stride, 44);
    assert_eq!(
        layout.attributes,
        vec![
            attribute(0, 0, VertexFormat::Float),
            attribute(4, 1, VertexFormat::Float2),
            attribute(12, 2, VertexFormat::Float3),
            attribute(24, 3, VertexFormat::Float4),
            attribute(40, 4, VertexFormat::Float),
        ]
    );
}

#[test]
fn packed_without_fields_is_empty() {
    let layout = VertexLayout::packed(&[]).unwrap();
    assert_eq!(layout.stride, 0);
    assert_eq!(layout.step_mode, InputStepMode::Vertex);
    assert!(layout.attributes.is_empty());
}

#[test]
fn packed_fields_do_not_overlap() {
    let formats = [VertexFormat::Float4, VertexFormat::Float, VertexFormat::Float3];
    let layout = VertexLayout::packed(&formats).unwrap();
    for pair in layout.attributes.windows(2) {
        assert!(pair[0].offset + pair[0].format.byte_size() <= pair[1].offset);
    }
    let last = layout.attributes[2];
    assert_eq!(last.offset + last.format.byte_size(), layout.stride);
}

#[test]
fn layout_matches_the_inputs_it_was_packed_for() {
    let formats = [VertexFormat::Float3, VertexFormat::Float2];
    let layout = VertexLayout::packed(&formats).unwrap();
    assert!(layout.matches_inputs(&formats));
    assert!(PipelineVariant::Textured.descriptor().matches_inputs(&formats));
}

#[test]
fn layout_does_not_match_another_number_of_inputs() {
    let layout = PipelineVariant::Textured.descriptor();
    assert!(!layout.matches_inputs(&[VertexFormat::Float3]));
    assert!(!layout.matches_inputs(&[]));
    assert!(!layout.matches_inputs(&[
        VertexFormat::Float3,
        VertexFormat::Float2,
        VertexFormat::Float2
    ]));
}

#[test]
fn layout_does_not_match_other_formats_or_locations() {
    let layout = PipelineVariant::Textured.descriptor();
    assert!(!layout.matches_inputs(&[VertexFormat::Float3, VertexFormat::Float3]));
    assert!(!layout.matches_inputs(&[VertexFormat::Float2, VertexFormat::Float3]));
    let shifted = VertexLayout {
        stride: 20,
        step_mode: InputStepMode::Vertex,
        attributes: vec![
            attribute(0, 1, VertexFormat::Float3),
            attribute(12, 2, VertexFormat::Float2),
        ],
    };
    assert!(!shifted.matches_inputs(&[VertexFormat::Float3, VertexFormat::Float2]));
}
