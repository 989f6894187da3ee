use nimbus::batch::{collect_instances, SceneBatcher};
use nimbus::material::{DrawableType, MaterialId};
use nimbus::mesh::{BufferRef, Mesh};
use nimbus::scene::{Drawable, Mat4, Scene, SceneNode};

fn plain_node(mesh: Option<usize>) -> SceneNode {
    SceneNode {
        name: None,
        local_transform: Some(Mat4::identity()),
        drawable: mesh.map(|m| Drawable { mesh: m, kind: DrawableType::Opaque }),
        children: Vec::new(),
        parent: None,
    }
}

/// One mesh of two submeshes (materials 1 and 2) shared by two nodes, plus
/// one mesh of one submesh (material 1) on a third node.
fn three_object_scene() -> Scene {
    let mut scene = Scene::new();

    let mut shared = Mesh::new(BufferRef(100), BufferRef(101), 8, 12);
    assert!(shared.push_submesh(0, 6, MaterialId(1)));
    assert!(shared.push_submesh(6, 6, MaterialId(2)));
    let shared_mesh = scene.add_mesh(shared);

    let mut single = Mesh::new(BufferRef(200), BufferRef(201), 4, 6);
    assert!(single.push_submesh(0, 6, MaterialId(1)));
    let single_mesh = scene.add_mesh(single);

    let a = scene.add_node(plain_node(Some(shared_mesh)));
    let b = scene.add_node(plain_node(Some(shared_mesh)));
    let c = scene.add_node(plain_node(Some(single_mesh)));
    scene.add_root(a);
    scene.add_root(b);
    scene.add_root(c);
    scene
}

#[test]
fn empty_scene_batches_to_nothing() {
    let scene = Scene::new();
    assert_eq!(collect_instances(&scene).len(), 0);
    assert_eq!(SceneBatcher::collect(&scene).len(), 0);
}

#[test]
fn instance_count_is_objects_times_submeshes() {
    let scene = three_object_scene();
    // Two objects contribute two submeshes each, one contributes one.
    let flat = collect_instances(&scene);
    assert_eq!(flat.len(), 5);

    let groups = SceneBatcher::collect(&scene);
    let total: usize = groups.iter().map(|g| g.instances.len()).sum();
    assert_eq!(total, 5);
}

#[test]
fn groups_are_keyed_by_ascending_material_id() {
    let scene = three_object_scene();
    let groups = SceneBatcher::collect(&scene);
    assert_eq!(groups.len(), 2);
    assert_eq!(groups[0].material, MaterialId(1));
    assert_eq!(groups[1].material, MaterialId(2));
    assert_eq!(groups[0].instances.len(), 3);
    assert_eq!(groups[1].instances.len(), 2);
    for inst in &groups[0].instances {
        assert_eq!(inst.material, MaterialId(1));
    }
    for inst in &groups[1].instances {
        assert_eq!(inst.material, MaterialId(2));
    }
}

#[test]
fn instances_keep_scene_visit_order_within_a_group() {
    let scene = three_object_scene();
    let groups = SceneBatcher::collect(&scene);
    // Material 1 instances come from nodes 0, 1 and 2, in visit order.
    let nodes: Vec<usize> = groups[0].instances.iter().map(|i| i.node).collect();
    assert_eq!(nodes, vec![0, 1, 2]);
    let nodes2: Vec<usize> = groups[1].instances.iter().map(|i| i.node).collect();
    assert_eq!(nodes2, vec![0, 1]);
}

#[test]
fn instances_snapshot_the_mesh_buffers_and_ranges() {
    let scene = three_object_scene();
    let flat = collect_instances(&scene);
    assert_eq!(flat[0].vertex_buffer, BufferRef(100));
    assert_eq!(flat[0].index_buffer, BufferRef(101));
    assert_eq!(flat[0].index_offset, 0);
    assert_eq!(flat[0].index_count, 6);
    assert_eq!(flat[1].index_offset, 6);
    assert_eq!(flat[4].vertex_buffer, BufferRef(200));
}

#[test]
fn traversal_is_depth_first_parents_before_children() {
    let mut scene = Scene::new();
    let mut mesh = Mesh::new(BufferRef(1), BufferRef(2), 3, 3);
    assert!(mesh.push_submesh(0, 3, MaterialId(7)));
    let m = scene.add_mesh(mesh);

    let root = scene.add_node(plain_node(Some(m)));
    let left = scene.add_node(plain_node(Some(m)));
    let right = scene.add_node(plain_node(Some(m)));
    let grandchild = scene.add_node(plain_node(Some(m)));
    scene.add_child(root, left);
    scene.add_child(root, right);
    scene.add_child(left, grandchild);
    scene.add_root(root);

    let flat = collect_instances(&scene);
    let visited: Vec<usize> = flat.iter().map(|i| i.node).collect();
    // Root first, then the left subtree to its leaf, then the right child.
    assert_eq!(visited, vec![root, left, grandchild, right]);
}

#[test]
fn nodes_without_drawables_contribute_no_instances() {
    let mut scene = Scene::new();
    let mut mesh = Mesh::new(BufferRef(1), BufferRef(2), 3, 3);
    assert!(mesh.push_submesh(0, 3, MaterialId(1)));
    let m = scene.add_mesh(mesh);
    let root = scene.add_node(plain_node(None));
    let child = scene.add_node(plain_node(Some(m)));
    scene.add_child(root, child);
    scene.add_root(root);

    let flat = collect_instances(&scene);
    assert_eq!(flat.len(), 1);
    assert_eq!(flat[0].node, child);
}

#[test]
fn ancestor_chain_runs_root_to_node() {
    let mut scene = Scene::new();
    let root = scene.add_node(plain_node(None));
    let mid = scene.add_node(plain_node(None));
    let leaf = scene.add_node(plain_node(None));
    scene.add_child(root, mid);
    scene.add_child(mid, leaf);
    scene.add_root(root);

    assert_eq!(scene.ancestor_chain(root), vec![root]);
    assert_eq!(scene.ancestor_chain(leaf), vec![root, mid, leaf]);
}
