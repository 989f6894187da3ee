use nimbus::material::{TextureRef, TextureSlot, Textures};
use nimbus::mesh::{standard_vertex_layout, AttributeFormat, BufferRef, Mesh};
use nimbus::pipeline::{shape_of, BindingKind, MaterialShape, PipelineCache, ProgramId};

fn mixed_textures() -> Textures {
    Textures {
        base_color: TextureSlot::Bound(TextureRef(1)),
        albedo: TextureSlot::Constant(0xFFFFFFFF),
        specular: TextureSlot::Constant(0),
        normal: TextureSlot::Bound(TextureRef(2)),
    }
}

#[test]
fn shape_reads_which_slots_are_texture_backed() {
    let shape = shape_of(&mixed_textures());
    assert_eq!(
        shape,
        MaterialShape { base_color: true, albedo: false, specular: false, normal: true }
    );
}

#[test]
fn deriving_twice_for_one_key_is_idempotent() {
    let mut cache = PipelineCache::new();
    let shape = shape_of(&mixed_textures());
    let first = cache.get_or_create(ProgramId::GBuffer, shape);
    let second = cache.get_or_create(ProgramId::GBuffer, shape);
    assert_eq!(first.handle, second.handle);
    assert_eq!(first.bind_group_layout, second.bind_group_layout);
    assert_eq!(first.vertex_layout, second.vertex_layout);
    assert_eq!(cache.len(), 1);
}

#[test]
fn distinct_keys_get_distinct_pipelines() {
    let mut cache = PipelineCache::new();
    let a = cache.get_or_create(ProgramId::GBuffer, MaterialShape::none());
    let b = cache.get_or_create(
        ProgramId::GBuffer,
        MaterialShape { base_color: true, albedo: false, specular: false, normal: false },
    );
    let c = cache.get_or_create(ProgramId::Lighting, MaterialShape::none());
    assert_ne!(a.handle, b.handle);
    assert_ne!(a.handle, c.handle);
    assert_ne!(b.handle, c.handle);
    assert_eq!(cache.len(), 3);
}

#[test]
fn gbuffer_layout_has_sampler_then_bound_slots() {
    let mut cache = PipelineCache::new();
    let pipeline = cache.get_or_create(ProgramId::GBuffer, shape_of(&mixed_textures()));
    let entries = &pipeline.bind_group_layout;
    assert_eq!(entries.len(), 3);
    assert_eq!(entries[0].binding, 0);
    assert_eq!(entries[0].kind, BindingKind::Sampler);
    assert_eq!(entries[1].binding, 1);
    assert_eq!(entries[1].kind, BindingKind::SampledTexture);
    assert_eq!(entries[2].binding, 4);
    assert_eq!(entries[2].kind, BindingKind::SampledTexture);
}

#[test]
fn lighting_layout_is_the_three_gbuffer_inputs() {
    let mut cache = PipelineCache::new();
    let pipeline = cache.get_or_create(ProgramId::Lighting, MaterialShape::none());
    let entries = &pipeline.bind_group_layout;
    assert_eq!(entries.len(), 3);
    for (i, entry) in entries.iter().enumerate() {
        assert_eq!(entry.binding, i as u32);
        assert_eq!(entry.kind, BindingKind::InputAttachment);
    }
    // The full-screen resolve consumes no vertex buffer.
    assert_eq!(pipeline.vertex_layout.attributes.len(), 0);
}

#[test]
fn push_constants_carry_the_world_transform_for_geometry_only() {
    let mut cache = PipelineCache::new();
    let geometry = cache.get_or_create(ProgramId::GBuffer, MaterialShape::none());
    assert_eq!(geometry.push_constant_ranges.len(), 1);
    assert_eq!(geometry.push_constant_ranges[0].start, 0);
    assert_eq!(geometry.push_constant_ranges[0].end, 64);
    let lighting = cache.get_or_create(ProgramId::Lighting, MaterialShape::none());
    assert!(lighting.push_constant_ranges.is_empty());
}

#[test]
fn vertex_layout_is_position_normal_uv() {
    let layout = standard_vertex_layout();
    assert_eq!(layout.array_stride, 32);
    assert_eq!(layout.attributes.len(), 3);
    assert_eq!(layout.attributes[0].offset, 0);
    assert_eq!(layout.attributes[0].shader_location, 0);
    assert_eq!(layout.attributes[0].format, AttributeFormat::ThreeLanes);
    assert_eq!(layout.attributes[1].offset, 12);
    assert_eq!(layout.attributes[1].format, AttributeFormat::ThreeLanes);
    assert_eq!(layout.attributes[2].offset, 24);
    assert_eq!(layout.attributes[2].format, AttributeFormat::TwoLanes);

    let mesh = Mesh::new(BufferRef(1), BufferRef(2), 3, 3);
    assert_eq!(mesh.vertex_buffer_layout(), layout);
}

#[test]
fn submesh_ranges_must_fit_the_index_buffer() {
    let mut mesh = Mesh::new(BufferRef(1), BufferRef(2), 8, 12);
    assert!(mesh.push_submesh(0, 12, nimbus::material::MaterialId(1)));
    assert!(mesh.push_submesh(6, 6, nimbus::material::MaterialId(2)));
    assert!(!mesh.push_submesh(6, 7, nimbus::material::MaterialId(3)));
    assert!(!mesh.push_submesh(u32::MAX, 2, nimbus::material::MaterialId(3)));
    assert_eq!(mesh.submeshes.len(), 2);
}
