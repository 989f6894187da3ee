use nimbus::batch::{MaterialGroup, SceneBatcher};
use nimbus::errors::{ErrorClass, NimbusError};
use nimbus::frame::{AcquireOutcome, FrameManager, SyncToken};
use nimbus::material::{MaterialId, MaterialManager, SamplerRef, TextureRef, TextureSlot, Textures};
use nimbus::pass::{Extent2d, RenderCommand, SwapchainInfo};
use nimbus::renderer::Renderer;
use nimbus::scene::Scene;

fn swapchain(images: u32) -> SwapchainInfo {
    SwapchainInfo { image_count: images, extent: Extent2d { width: 640, height: 480 } }
}

fn ready(index: u32, token: u64) -> AcquireOutcome {
    AcquireOutcome::Ready { image_index: index, token: SyncToken(token) }
}

fn empty_registry() -> MaterialManager {
    MaterialManager::new()
}

#[test]
fn an_empty_scene_frame_succeeds_and_presents() {
    let mut renderer = Renderer::new(&swapchain(2));
    let scene = Scene::new();
    let groups = SceneBatcher::collect(&scene);
    assert!(groups.is_empty());

    let submission = renderer
        .render(ready(0, 41), &groups, &empty_registry())
        .expect("the clear-only frame must not fail");

    assert_eq!(submission.image_index, 0);
    assert_eq!(submission.wait, SyncToken(41));
    assert_eq!(renderer.frames_submitted(), 1);
    // Begin, advance, lighting bind + inputs + resolve, end: no indexed draw.
    assert!(matches!(submission.commands[0], RenderCommand::BeginRenderPass { framebuffer: 0 }));
    assert!(matches!(submission.commands.last(), Some(RenderCommand::EndRenderPass)));
    assert!(!submission
        .commands
        .iter()
        .any(|c| matches!(c, RenderCommand::DrawIndexed { .. })));
    assert_eq!(
        submission
            .commands
            .iter()
            .filter(|c| matches!(c, RenderCommand::FullscreenDraw { .. }))
            .count(),
        1
    );
}

#[test]
fn consecutive_empty_frames_keep_presenting() {
    let mut renderer = Renderer::new(&swapchain(2));
    let groups: Vec<MaterialGroup> = Vec::new();
    let registry = empty_registry();
    for frame in 0..4u64 {
        let submission = renderer
            .render(ready((frame % 2) as u32, frame), &groups, &registry)
            .expect("empty frames never fail");
        assert_eq!(submission.image_index, (frame % 2) as u32);
    }
    assert_eq!(renderer.frames_submitted(), 4);
}

#[test]
fn a_stale_acquire_is_retried_once_after_a_rebuild() {
    let mut renderer = Renderer::new(&swapchain(2));
    let groups: Vec<MaterialGroup> = Vec::new();
    let registry = empty_registry();

    let err = renderer
        .render(AcquireOutcome::OutOfDate, &groups, &registry)
        .unwrap_err();
    assert_eq!(err, NimbusError::SurfaceStale);
    assert!(err.is_retryable());

    // The embedder recreates the swapchain, then retries the frame once.
    renderer.resize(&swapchain(3));
    assert_eq!(renderer.framebuffer_count(), 3);
    let submission = renderer
        .render(ready(1, 7), &groups, &registry)
        .expect("the one retry after a rebuild must succeed");
    assert_eq!(submission.image_index, 1);
    assert_eq!(renderer.frames_submitted(), 1);
}

#[test]
fn a_second_consecutive_stale_acquire_is_fatal() {
    let mut renderer = Renderer::new(&swapchain(2));
    let groups: Vec<MaterialGroup> = Vec::new();
    let registry = empty_registry();

    let first = renderer
        .render(AcquireOutcome::OutOfDate, &groups, &registry)
        .unwrap_err();
    assert_eq!(first, NimbusError::SurfaceStale);

    renderer.resize(&swapchain(2));
    let second = renderer
        .render(AcquireOutcome::OutOfDate, &groups, &registry)
        .unwrap_err();
    assert_eq!(second, NimbusError::SurfaceLost);
    assert!(!second.is_retryable());
    assert_eq!(renderer.frames_submitted(), 0);
}

#[test]
fn a_successful_frame_clears_the_stale_streak() {
    let mut renderer = Renderer::new(&swapchain(2));
    let groups: Vec<MaterialGroup> = Vec::new();
    let registry = empty_registry();

    let err = renderer
        .render(AcquireOutcome::OutOfDate, &groups, &registry)
        .unwrap_err();
    assert_eq!(err, NimbusError::SurfaceStale);
    renderer.resize(&swapchain(2));
    assert!(renderer.render(ready(0, 1), &groups, &registry).is_ok());

    // A later stale acquire is again the start of a fresh streak.
    let err = renderer
        .render(AcquireOutcome::OutOfDate, &groups, &registry)
        .unwrap_err();
    assert_eq!(err, NimbusError::SurfaceStale);
}

#[test]
fn a_missing_material_drops_the_frame_but_not_the_renderer() {
    let mut renderer = Renderer::new(&swapchain(2));
    let mut scene = Scene::new();
    let mut mesh = nimbus::mesh::Mesh::new(
        nimbus::mesh::BufferRef(1),
        nimbus::mesh::BufferRef(2),
        3,
        3,
    );
    assert!(mesh.push_submesh(0, 3, MaterialId(1)));
    let m = scene.add_mesh(mesh);
    let node = scene.add_node(nimbus::scene::SceneNode {
        name: None,
        local_transform: None,
        drawable: Some(nimbus::scene::Drawable {
            mesh: m,
            kind: nimbus::material::DrawableType::Opaque,
        }),
        children: Vec::new(),
        parent: None,
    });
    scene.add_root(node);
    let groups = SceneBatcher::collect(&scene);

    // The registry is empty: material 1 cannot resolve.
    let err = renderer
        .render(ready(0, 1), &groups, &empty_registry())
        .unwrap_err();
    assert_eq!(err, NimbusError::MissingMaterial(MaterialId(1)));
    assert_eq!(renderer.frames_submitted(), 0);

    // Once the material exists the same scene renders.
    let mut registry = MaterialManager::new();
    registry.insert(
        Textures {
            base_color: TextureSlot::Bound(TextureRef(1)),
            albedo: TextureSlot::Constant(0),
            specular: TextureSlot::Constant(0),
            normal: TextureSlot::Constant(0),
        },
        SamplerRef(1),
    );
    assert!(renderer.render(ready(0, 2), &groups, &registry).is_ok());
    assert_eq!(renderer.frames_submitted(), 1);
}

#[test]
fn error_classes_follow_the_taxonomy() {
    assert_eq!(NimbusError::SurfaceStale.class(), ErrorClass::Transient);
    assert_eq!(NimbusError::SurfaceLost.class(), ErrorClass::Fatal);
    assert_eq!(NimbusError::AllocationFailed.class(), ErrorClass::ResourceExhaustion);
    assert_eq!(NimbusError::MissingMaterial(MaterialId(3)).class(), ErrorClass::Fatal);
    assert!(NimbusError::SurfaceStale.is_retryable());
    assert!(!NimbusError::AllocationFailed.is_retryable());
}

#[test]
fn frame_manager_pairs_the_context_with_its_submission() {
    let mut frames = FrameManager::new(2);
    let context = frames.begin_frame(ready(1, 33)).expect("image ready");
    assert_eq!(context.image_index, 1);
    assert_eq!(context.ready, SyncToken(33));
    assert_eq!(context.frame_number, 0);

    let submission = frames.end_frame(context, Vec::new());
    assert_eq!(submission.image_index, 1);
    assert_eq!(submission.wait, SyncToken(33));
    assert_eq!(frames.frames_submitted(), 1);

    // The next frame gets the next ordinal.
    let context = frames.begin_frame(ready(0, 34)).expect("image ready");
    assert_eq!(context.frame_number, 1);
    frames.abort_frame(context);
    assert_eq!(frames.frames_submitted(), 1);
}
