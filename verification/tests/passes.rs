use nimbus::batch::SceneBatcher;
use nimbus::errors::NimbusError;
use nimbus::material::{
    DrawableType, MaterialId, MaterialManager, SamplerRef, TextureRef, TextureSlot, Textures,
};
use nimbus::mesh::{BufferRef, Mesh};
use nimbus::pass::{
    deferred_pass_description, ClearPipeline, DeferredPipeline, Extent2d, FramebufferSet,
    ImageFormat, LoadOp, RenderCommand, StoreOp, SwapchainInfo,
};
use nimbus::pipeline::PipelineCache;
use nimbus::scene::{Drawable, Mat4, Scene, SceneNode};

fn swapchain(images: u32, w: u32, h: u32) -> SwapchainInfo {
    SwapchainInfo { image_count: images, extent: Extent2d { width: w, height: h } }
}

fn set_ids(s: &FramebufferSet) -> Vec<u64> {
    vec![s.final_color.0, s.diffuse.0, s.normal.0, s.depth.0]
}

#[test]
fn pass_description_matches_the_deferred_layout() {
    let desc = deferred_pass_description();
    assert_eq!(desc.attachments.len(), 4);
    assert_eq!(desc.attachments[0].format, ImageFormat::Swapchain);
    assert_eq!(desc.attachments[0].load_op, LoadOp::Clear);
    assert_eq!(desc.attachments[0].store_op, StoreOp::Store);
    for a in &desc.attachments[1..] {
        assert_eq!(a.load_op, LoadOp::Clear);
        assert_eq!(a.store_op, StoreOp::DontCare);
        assert_eq!(a.samples, 1);
    }
    assert_eq!(desc.attachments[1].format, ImageFormat::Rgba8Unorm);
    assert_eq!(desc.attachments[2].format, ImageFormat::Rgba16Float);
    assert_eq!(desc.attachments[3].format, ImageFormat::DepthD32);

    assert_eq!(desc.subpasses.len(), 2);
    assert_eq!(desc.subpasses[0].colors, vec![1, 2]);
    assert_eq!(desc.subpasses[0].depth, Some(3));
    assert!(desc.subpasses[0].inputs.is_empty());
    assert_eq!(desc.subpasses[1].colors, vec![0]);
    assert_eq!(desc.subpasses[1].depth, None);
    assert_eq!(desc.subpasses[1].inputs, vec![1, 2, 3]);
}

#[test]
fn configure_builds_one_framebuffer_set_per_image() {
    let mut pass = DeferredPipeline::new();
    pass.configure(&swapchain(3, 800, 600));
    assert_eq!(pass.framebuffer_count(), 3);
    let mut seen: Vec<u64> = Vec::new();
    for i in 0..3 {
        let set = pass.framebuffer(i);
        assert_eq!(set.extent, Extent2d { width: 800, height: 600 });
        for id in set_ids(&set) {
            assert!(!seen.contains(&id), "attachment ids must be distinct");
            seen.push(id);
        }
    }
    assert_eq!(seen.len(), 12);
}

#[test]
fn rebuilding_matches_the_new_swapchain_and_releases_every_old_set() {
    let mut pass = DeferredPipeline::new();
    pass.configure(&swapchain(3, 800, 600));
    let old_ids: Vec<u64> = (0..3).flat_map(|i| set_ids(&pass.framebuffer(i))).collect();

    pass.rebuild_framebuffers(&swapchain(2, 1024, 768));
    assert_eq!(pass.framebuffer_count(), 2);
    for i in 0..2 {
        let set = pass.framebuffer(i);
        assert_eq!(set.extent, Extent2d { width: 1024, height: 768 });
        for id in set_ids(&set) {
            assert!(!old_ids.contains(&id), "no old attachment may survive a rebuild");
        }
    }
}

fn registry_with(n: u64) -> MaterialManager {
    let mut materials = MaterialManager::new();
    for k in 0..n {
        let t = Textures {
            base_color: TextureSlot::Bound(TextureRef(k * 4)),
            albedo: TextureSlot::Bound(TextureRef(k * 4 + 1)),
            specular: TextureSlot::Bound(TextureRef(k * 4 + 2)),
            normal: TextureSlot::Bound(TextureRef(k * 4 + 3)),
        };
        materials.insert(t, SamplerRef(k));
    }
    materials
}

/// Two objects share material 1, a third uses material 2: three draws, two
/// distinct materials.
fn shared_material_scene() -> Scene {
    let mut scene = Scene::new();
    let mut shared = Mesh::new(BufferRef(1), BufferRef(2), 8, 6);
    assert!(shared.push_submesh(0, 6, MaterialId(1)));
    let shared_mesh = scene.add_mesh(shared);
    let mut other = Mesh::new(BufferRef(3), BufferRef(4), 8, 6);
    assert!(other.push_submesh(0, 6, MaterialId(2)));
    let other_mesh = scene.add_mesh(other);

    for mesh in [shared_mesh, shared_mesh, other_mesh] {
        let n = scene.add_node(SceneNode {
            name: None,
            local_transform: Some(Mat4::identity()),
            drawable: Some(Drawable { mesh, kind: DrawableType::Opaque }),
            children: Vec::new(),
            parent: None,
        });
        scene.add_root(n);
    }
    scene
}

#[test]
fn recording_binds_one_pipeline_per_group_and_draws_each_instance() {
    let scene = shared_material_scene();
    let groups = SceneBatcher::collect(&scene);
    assert_eq!(groups.len(), 2);

    let mut pass = DeferredPipeline::new();
    pass.configure(&swapchain(2, 640, 480));
    let mut cache = PipelineCache::new();
    let materials = registry_with(2);

    let commands = pass
        .record_commands(1, &groups, &mut cache, &materials)
        .expect("all materials resolve");

    let binds = commands
        .iter()
        .filter(|c| matches!(c, RenderCommand::BindPipeline { .. }))
        .count();
    let draws = commands
        .iter()
        .filter(|c| matches!(c, RenderCommand::DrawIndexed { .. }))
        .count();
    // One bind per material group in the geometry subpass, plus the lighting
    // subpass's own bind; three draws for three instances.
    assert_eq!(binds, 3);
    assert_eq!(draws, 3);

    assert!(matches!(commands[0], RenderCommand::BeginRenderPass { framebuffer: 1 }));
    assert!(matches!(commands[commands.len() - 1], RenderCommand::EndRenderPass));
    let subpass_advances = commands
        .iter()
        .filter(|c| matches!(c, RenderCommand::NextSubpass))
        .count();
    assert_eq!(subpass_advances, 1);
    let fullscreen = commands
        .iter()
        .filter(|c| matches!(c, RenderCommand::FullscreenDraw { .. }))
        .count();
    assert_eq!(fullscreen, 1);
}

#[test]
fn gbuffer_draws_come_before_the_lighting_resolve() {
    let scene = shared_material_scene();
    let groups = SceneBatcher::collect(&scene);
    let mut pass = DeferredPipeline::new();
    pass.configure(&swapchain(1, 64, 64));
    let mut cache = PipelineCache::new();
    let materials = registry_with(2);
    let commands = pass.record_commands(0, &groups, &mut cache, &materials).unwrap();

    let next = commands
        .iter()
        .position(|c| matches!(c, RenderCommand::NextSubpass))
        .unwrap();
    for (i, c) in commands.iter().enumerate() {
        if matches!(c, RenderCommand::DrawIndexed { .. }) {
            assert!(i < next, "indexed draws belong to the geometry subpass");
        }
        if matches!(c, RenderCommand::FullscreenDraw { .. }) {
            assert!(i > next, "the resolve belongs to the lighting subpass");
        }
    }
}

#[test]
fn a_missing_material_aborts_the_record_with_its_id() {
    let scene = shared_material_scene();
    let groups = SceneBatcher::collect(&scene);
    let mut pass = DeferredPipeline::new();
    pass.configure(&swapchain(1, 64, 64));
    let mut cache = PipelineCache::new();
    // Only material 1 exists; material 2 is missing.
    let materials = registry_with(1);

    let err = pass.record_commands(0, &groups, &mut cache, &materials).unwrap_err();
    assert_eq!(err, NimbusError::MissingMaterial(MaterialId(2)));
    // Nothing was cached and the pass can record again once the registry is
    // complete.
    assert_eq!(cache.len(), 0);
    let materials = registry_with(2);
    assert!(pass.record_commands(0, &groups, &mut cache, &materials).is_ok());
}

#[test]
fn clear_pipeline_records_the_degenerate_frame() {
    let clear = ClearPipeline::new(&swapchain(2, 640, 480));
    let commands = clear.record_commands(1);
    assert_eq!(commands.len(), 2);
    assert!(matches!(commands[0], RenderCommand::BeginRenderPass { framebuffer: 1 }));
    assert!(matches!(commands[1], RenderCommand::EndRenderPass));
}
