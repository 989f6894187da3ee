//! Batching: turning a scene into material-keyed groups of draw instances.
//!
//! The batcher walks the scene forest depth-first, and every drawable node
//! contributes one instance per submesh of its mesh — an instance snapshots
//! the buffers and index range the draw needs, plus the submesh's material.
//! The instances are then grouped by material so a pass binds each pipeline
//! and descriptor set once per group: groups come out keyed by strictly
//! ascending material id, and within a group the instances keep scene visit
//! order. Instances live for one frame only.

use crate::material::MaterialId;
use crate::mesh::BufferRef;
use crate::scene::Scene;
use vstd::prelude::*;

verus! {

/// One draw: a submesh of one node's mesh, with everything the recorder
/// needs snapshotted at batch time.
#[derive(Clone, Copy, PartialEq, Eq, Structural, Debug)]
pub struct RenderInstance {
    pub node: usize,
    pub vertex_buffer: BufferRef,
    pub index_buffer: BufferRef,
    pub index_offset: u32,
    pub index_count: u32,
    pub material: MaterialId,
}

/// All instances of one material, in scene visit order.
pub struct MaterialGroup {
    pub material: MaterialId,
    pub instances: Vec<RenderInstance>,
}

/// The instances a single node contributes: one per submesh of its mesh.
pub open spec fn spec_node_instances(s: Scene, n: int) -> Seq<RenderInstance> {
    match s.spec_nodes()[n].drawable {
        Some(d) => {
            let m = s.spec_meshes()[d.mesh as int];
            Seq::new(
                m.submeshes@.len(),
                |k: int|
                    RenderInstance {
                        node: n as usize,
                        vertex_buffer: m.vertex_buffer,
                        index_buffer: m.index_buffer,
                        index_offset: m.submeshes@[k].index_offset,
                        index_count: m.submeshes@[k].index_count,
                        material: m.submeshes@[k].material,
                    },
            )
        },
        None => Seq::empty(),
    }
}

/// Depth-first visit of one node: its own instances, then its subtrees in
/// child order. Children carry strictly larger indices than their parents,
/// which is what drives this recursion down.
pub open spec fn spec_visit(s: Scene, n: int) -> Seq<RenderInstance>
    decreases s.spec_nodes().len() - n, 1int, 0int,
{
    if 0 <= n < s.spec_nodes().len() {
        spec_node_instances(s, n) + spec_visit_children(s, n, 0)
    } else {
        Seq::empty()
    }
}

/// The instances of node `n`'s subtrees, from its `k`-th child on.
pub open spec fn spec_visit_children(s: Scene, n: int, k: int) -> Seq<RenderInstance>
    decreases s.spec_nodes().len() - n, 0int, s.spec_nodes()[n].children@.len() - k,
{
    if 0 <= n < s.spec_nodes().len() && 0 <= k < s.spec_nodes()[n].children@.len() {
        let c = s.spec_nodes()[n].children@[k] as int;
        (if n < c && c < s.spec_nodes().len() {
            spec_visit(s, c)
        } else {
            Seq::empty()
        }) + spec_visit_children(s, n, k + 1)
    } else {
        Seq::empty()
    }
}

/// The instances of the whole forest, from the `k`-th root on.
pub open spec fn spec_visit_roots(s: Scene, k: int) -> Seq<RenderInstance>
    decreases s.spec_roots().len() - k,
{
    if 0 <= k < s.spec_roots().len() {
        let r = s.spec_roots()[k] as int;
        (if r < s.spec_nodes().len() {
            spec_visit(s, r)
        } else {
            Seq::empty()
        }) + spec_visit_roots(s, k + 1)
    } else {
        Seq::empty()
    }
}

/// Every instance one frame of this scene draws, in visit order.
pub open spec fn spec_scene_instances(s: Scene) -> Seq<RenderInstance> {
    spec_visit_roots(s, 0)
}

/// How many drawable nodes the visit of `n` reaches (an object that is
/// reached twice is drawn, and counted, twice).
pub open spec fn spec_object_count(s: Scene, n: int) -> int
    decreases s.spec_nodes().len() - n, 1int, 0int,
{
    if 0 <= n < s.spec_nodes().len() {
        (if s.spec_nodes()[n].drawable is Some {
            1int
        } else {
            0int
        }) + spec_object_count_children(s, n, 0)
    } else {
        0
    }
}

/// The drawable nodes among node `n`'s subtrees, from its `k`-th child on.
pub open spec fn spec_object_count_children(s: Scene, n: int, k: int) -> int
    decreases s.spec_nodes().len() - n, 0int, s.spec_nodes()[n].children@.len() - k,
{
    if 0 <= n < s.spec_nodes().len() && 0 <= k < s.spec_nodes()[n].children@.len() {
        let c = s.spec_nodes()[n].children@[k] as int;
        (if n < c && c < s.spec_nodes().len() {
            spec_object_count(s, c)
        } else {
            0int
        }) + spec_object_count_children(s, n, k + 1)
    } else {
        0
    }
}

/// The drawable nodes of the whole forest, from the `k`-th root on.
pub open spec fn spec_object_count_roots(s: Scene, k: int) -> int
    decreases s.spec_roots().len() - k,
{
    if 0 <= k < s.spec_roots().len() {
        let r = s.spec_roots()[k] as int;
        (if r < s.spec_nodes().len() {
            spec_object_count(s, r)
        } else {
            0int
        }) + spec_object_count_roots(s, k + 1)
    } else {
        0
    }
}

/// Whether every mesh of the scene is cut into exactly `k` submeshes.
pub open spec fn spec_uniform_submeshes(s: Scene, k: nat) -> bool {
    forall|m: int|
        0 <= m < s.spec_meshes().len() ==> (#[trigger] s.spec_meshes()[m]).submeshes@.len() == k
}

proof fn lemma_uniform_visit_len(s: Scene, n: int, k: nat)
    requires
        s.wf(),
        spec_uniform_submeshes(s, k),
    ensures
        spec_visit(s, n).len() == k * spec_object_count(s, n),
    decreases s.spec_nodes().len() - n, 1int, 0int,
{
    if 0 <= n < s.spec_nodes().len() {
        lemma_uniform_visit_len_children(s, n, 0, k);
        match s.spec_nodes()[n].drawable {
            Some(d) => {
                assert(d.mesh < s.spec_meshes().len());
                assert(s.spec_meshes()[d.mesh as int].submeshes@.len() == k);
                assert(spec_node_instances(s, n).len() == k);
            },
            None => {},
        }
        assert(k * ((if s.spec_nodes()[n].drawable is Some {
            1int
        } else {
            0int
        }) + spec_object_count_children(s, n, 0)) == k * (if s.spec_nodes()[n].drawable is Some {
            1int
        } else {
            0int
        }) + k * spec_object_count_children(s, n, 0)) by (nonlinear_arith);
    }
}

proof fn lemma_uniform_visit_len_children(s: Scene, n: int, c: int, k: nat)
    requires
        s.wf(),
        spec_uniform_submeshes(s, k),
    ensures
        spec_visit_children(s, n, c).len() == k * spec_object_count_children(s, n, c),
    decreases s.spec_nodes().len() - n, 0int, s.spec_nodes()[n].children@.len() - c,
{
    if 0 <= n < s.spec_nodes().len() && 0 <= c < s.spec_nodes()[n].children@.len() {
        let ch = s.spec_nodes()[n].children@[c] as int;
        if n < ch && ch < s.spec_nodes().len() {
            lemma_uniform_visit_len(s, ch, k);
        }
        lemma_uniform_visit_len_children(s, n, c + 1, k);
        assert(k * (spec_object_count(s, ch) + spec_object_count_children(s, n, c + 1)) == k
            * spec_object_count(s, ch) + k * spec_object_count_children(s, n, c + 1))
            by (nonlinear_arith);
    }
}

proof fn lemma_uniform_visit_len_roots(s: Scene, r: int, k: nat)
    requires
        s.wf(),
        spec_uniform_submeshes(s, k),
    ensures
        spec_visit_roots(s, r).len() == k * spec_object_count_roots(s, r),
    decreases s.spec_roots().len() - r,
{
    if 0 <= r < s.spec_roots().len() {
        let root = s.spec_roots()[r] as int;
        if root < s.spec_nodes().len() {
            lemma_uniform_visit_len(s, root, k);
        }
        lemma_uniform_visit_len_roots(s, r + 1, k);
        assert(k * (spec_object_count(s, root) + spec_object_count_roots(s, r + 1)) == k
            * spec_object_count(s, root) + k * spec_object_count_roots(s, r + 1))
            by (nonlinear_arith);
    }
}

/// A scene of N drawn objects whose meshes each hold `k` submeshes yields
/// exactly N·k instances; `collect` then partitions those into its groups,
/// so the group sizes also sum to N·k.
pub proof fn lemma_scene_instance_count(s: Scene, k: nat)
    requires
        s.wf(),
        spec_uniform_submeshes(s, k),
    ensures
        spec_scene_instances(s).len() == k * spec_object_count_roots(s, 0),
{
    lemma_uniform_visit_len_roots(s, 0, k);
}

/// The subsequence of `s` whose instances use material `m`, in order.
pub open spec fn group_of(s: Seq<RenderInstance>, m: u64) -> Seq<RenderInstance>
    decreases s.len(),
{
    if s.len() == 0 {
        Seq::empty()
    } else {
        group_of(s.drop_last(), m) + (if s.last().material.0 == m {
            seq![s.last()]
        } else {
            Seq::empty()
        })
    }
}

/// Whether `m` occurs in `mats`.
pub open spec fn contains_mat(mats: Seq<u64>, m: u64) -> bool {
    exists|a: int| 0 <= a < mats.len() && mats[a] == m
}

/// Whether some instance of the first `i` of `s` uses material `m`.
pub open spec fn mat_present(s: Seq<RenderInstance>, i: int, m: u64) -> bool {
    exists|t: int| 0 <= t < i && s[t].material.0 == m
}

/// Whether some group of `groups` is keyed by `m`.
pub open spec fn has_group(groups: Seq<MaterialGroup>, m: u64) -> bool {
    exists|g: int| 0 <= g < groups.len() && groups[g].material.0 == m
}

/// How many instances `groups` hold altogether.
pub open spec fn spec_group_total(groups: Seq<MaterialGroup>) -> int
    decreases groups.len(),
{
    if groups.len() == 0 {
        0
    } else {
        spec_group_total(groups.drop_last()) + groups.last().instances@.len()
    }
}

/// The grouped instances of material `mats[a]` and onward, summed.
pub open spec fn sum_mats(s: Seq<RenderInstance>, mats: Seq<u64>) -> int
    decreases mats.len(),
{
    if mats.len() == 0 {
        0
    } else {
        sum_mats(s, mats.drop_last()) + group_of(s, mats.last()).len()
    }
}

/// No material occurs twice in `mats`.
pub open spec fn distinct_mats(mats: Seq<u64>) -> bool {
    forall|a: int, b: int| 0 <= a < b < mats.len() ==> mats[a] != mats[b]
}

proof fn lemma_group_of_push(s: Seq<RenderInstance>, x: RenderInstance, m: u64)
    ensures
        group_of(s.push(x), m) == group_of(s, m) + (if x.material.0 == m {
            seq![x]
        } else {
            Seq::<RenderInstance>::empty()
        }),
{
    assert(s.push(x).drop_last() =~= s);
    assert(s.push(x).last() == x);
}

proof fn lemma_sum_mats_push_absent(s: Seq<RenderInstance>, x: RenderInstance, mats: Seq<u64>)
    requires
        !contains_mat(mats, x.material.0),
    ensures
        sum_mats(s.push(x), mats) == sum_mats(s, mats),
    decreases mats.len(),
{
    if mats.len() > 0 {
        assert(!contains_mat(mats.drop_last(), x.material.0)) by {
            assert forall|a: int|
                0 <= a < mats.drop_last().len() implies mats.drop_last()[a] != x.material.0 by {
                assert(mats[a] == mats.drop_last()[a]);
            }
        }
        lemma_sum_mats_push_absent(s, x, mats.drop_last());
        lemma_group_of_push(s, x, mats.last());
        assert(mats[mats.len() - 1] == mats.last());
        assert(group_of(s.push(x), mats.last()) =~= group_of(s, mats.last()));
    }
}

proof fn lemma_sum_mats_push_present(s: Seq<RenderInstance>, x: RenderInstance, mats: Seq<u64>)
    requires
        distinct_mats(mats),
        contains_mat(mats, x.material.0),
    ensures
        sum_mats(s.push(x), mats) == sum_mats(s, mats) + 1,
    decreases mats.len(),
{
    lemma_group_of_push(s, x, mats.last());
    if mats.last() == x.material.0 {
        assert(!contains_mat(mats.drop_last(), x.material.0)) by {
            assert forall|a: int|
                0 <= a < mats.drop_last().len() implies mats.drop_last()[a] != x.material.0 by {
                assert(mats.drop_last()[a] == mats[a]);
                assert(mats[a] != mats[mats.len() - 1]);
            }
        }
        lemma_sum_mats_push_absent(s, x, mats.drop_last());
        assert(group_of(s.push(x), mats.last()).len() == group_of(s, mats.last()).len() + 1);
    } else {
        assert(contains_mat(mats.drop_last(), x.material.0)) by {
            let a = choose|a: int| 0 <= a < mats.len() && mats[a] == x.material.0;
            assert(a < mats.len() - 1);
            assert(mats.drop_last()[a] == x.material.0);
        }
        assert(distinct_mats(mats.drop_last())) by {
            assert forall|a: int, b: int|
                0 <= a < b < mats.drop_last().len() implies mats.drop_last()[a]
                != mats.drop_last()[b] by {
                assert(mats.drop_last()[a] == mats[a] && mats.drop_last()[b] == mats[b]);
            }
        }
        lemma_sum_mats_push_present(s, x, mats.drop_last());
        assert(group_of(s.push(x), mats.last()) =~= group_of(s, mats.last()));
    }
}

/// When `mats` lists each material of `s` once, the groups of `mats` carve
/// `s` into a partition: their lengths sum to the length of `s`.
proof fn lemma_partition(s: Seq<RenderInstance>, mats: Seq<u64>)
    requires
        distinct_mats(mats),
        forall|t: int| 0 <= t < s.len() ==> contains_mat(mats, (#[trigger] s[t]).material.0),
    ensures
        sum_mats(s, mats) == s.len(),
    decreases s.len(),
{
    if s.len() == 0 {
        lemma_sum_mats_empty(s, mats);
    } else {
        let pre = s.drop_last();
        assert(forall|t: int|
            0 <= t < pre.len() ==> contains_mat(mats, (#[trigger] pre[t]).material.0)) by {
            assert(forall|t: int| 0 <= t < pre.len() ==> pre[t] == s[t]);
        }
        lemma_partition(pre, mats);
        lemma_sum_mats_push_present(pre, s.last(), mats);
        assert(pre.push(s.last()) =~= s);
    }
}

proof fn lemma_sum_mats_empty(s: Seq<RenderInstance>, mats: Seq<u64>)
    requires
        s.len() == 0,
    ensures
        sum_mats(s, mats) == 0,
    decreases mats.len(),
{
    if mats.len() > 0 {
        lemma_sum_mats_empty(s, mats.drop_last());
    }
}

/// A material that occurs in `s` has a nonempty group.
proof fn lemma_group_of_nonempty(s: Seq<RenderInstance>, m: u64)
    requires
        mat_present(s, s.len() as int, m),
    ensures
        group_of(s, m).len() >= 1,
    decreases s.len(),
{
    let t = choose|t: int| 0 <= t < s.len() && s[t].material.0 == m;
    if t == s.len() - 1 {
    } else {
        assert(s.drop_last()[t] == s[t]);
        lemma_group_of_nonempty(s.drop_last(), m);
    }
}

/// Walks one node's subtree, appending its instances in visit order.
fn collect_node(scene: &Scene, node: usize, out: &mut Vec<RenderInstance>)
    requires
        scene.wf(),
        node < scene.spec_nodes().len(),
    ensures
        final(out)@ == old(out)@ + spec_visit(*scene, node as int),
    decreases scene.spec_nodes().len() - node,
{
    let node_ref = scene.node(node);
    match node_ref.drawable {
        Some(d) => {
            let mesh = scene.mesh(d.mesh);
            let count = mesh.submeshes.len();
            let mut k: usize = 0;
            while k < count
                invariant
                    scene.wf(),
                    (node as int) < scene.spec_nodes().len(),
                    scene.spec_nodes()[node as int].drawable == Some(d),
                    d.mesh < scene.spec_meshes().len(),
                    *mesh == scene.spec_meshes()[d.mesh as int],
                    count == mesh.submeshes@.len(),
                    k <= count,
                    out@ == old(out)@ + spec_node_instances(*scene, node as int).take(k as int),
                decreases count - k,
            {
                let sm = mesh.submeshes[k];
                out.push(
                    RenderInstance {
                        node,
                        vertex_buffer: mesh.vertex_buffer,
                        index_buffer: mesh.index_buffer,
                        index_offset: sm.index_offset,
                        index_count: sm.index_count,
                        material: sm.material,
                    },
                );
                proof {
                    let ni = spec_node_instances(*scene, node as int);
                    assert(ni[k as int] == RenderInstance {
                        node,
                        vertex_buffer: mesh.vertex_buffer,
                        index_buffer: mesh.index_buffer,
                        index_offset: sm.index_offset,
                        index_count: sm.index_count,
                        material: sm.material,
                    });
                    assert(ni.take(k + 1) =~= ni.take(k as int).push(ni[k as int]));
                    assert(out@ =~= old(out)@ + ni.take(k + 1));
                }
                k = k + 1;
            }
            proof {
                let ni = spec_node_instances(*scene, node as int);
                assert(ni.take(count as int) =~= ni);
            }
        },
        None => {
            proof {
                assert(out@ =~= old(out)@ + spec_node_instances(*scene, node as int));
            }
        },
    }
    let child_count = node_ref.children.len();
    let mut k: usize = 0;
    while k < child_count
        invariant
            scene.wf(),
            (node as int) < scene.spec_nodes().len(),
            *node_ref == scene.spec_nodes()[node as int],
            child_count == scene.spec_nodes()[node as int].children@.len(),
            k <= child_count,
            out@ + spec_visit_children(*scene, node as int, k as int) == old(out)@ + spec_visit(
                *scene,
                node as int,
            ),
        decreases child_count - k,
    {
        let c = node_ref.children[k];
        proof {
            assert((node as int) < scene.spec_nodes()[node as int].children@[k as int]
                && scene.spec_nodes()[node as int].children@[k as int]
                < scene.spec_nodes().len());
        }
        let ghost mid = out@;
        collect_node(scene, c, out);
        proof {
            let s = *scene;
            let n = node as int;
            assert(spec_visit_children(s, n, k as int) == spec_visit(s, c as int)
                + spec_visit_children(s, n, k + 1));
            assert(out@ + spec_visit_children(s, n, k + 1) =~= mid + spec_visit_children(
                s,
                n,
                k as int,
            ));
        }
        k = k + 1;
    }
    proof {
        assert(spec_visit_children(*scene, node as int, child_count as int) =~= Seq::<
            RenderInstance,
        >::empty());
        assert(out@ + Seq::<RenderInstance>::empty() =~= out@);
    }
}

/// Every instance the scene contributes this frame, in depth-first visit
/// order over the forest's roots.
pub fn collect_instances(scene: &Scene) -> (r: Vec<RenderInstance>)
    requires
        scene.wf(),
    ensures
        r@ == spec_scene_instances(*scene),
{
    let mut out: Vec<RenderInstance> = Vec::new();
    let count = scene.root_count();
    let mut k: usize = 0;
    while k < count
        invariant
            scene.wf(),
            count == scene.spec_roots().len(),
            k <= count,
            out@ + spec_visit_roots(*scene, k as int) == spec_scene_instances(*scene),
        decreases count - k,
    {
        let r = scene.root(k);
        proof {
            assert(scene.spec_roots()[k as int] < scene.spec_nodes().len());
        }
        let ghost mid = out@;
        collect_node(scene, r, &mut out);
        proof {
            assert(spec_visit_roots(*scene, k as int) == spec_visit(*scene, r as int)
                + spec_visit_roots(*scene, k + 1));
            assert(out@ + spec_visit_roots(*scene, k + 1) =~= mid + spec_visit_roots(
                *scene,
                k as int,
            ));
        }
        k = k + 1;
    }
    proof {
        assert(spec_visit_roots(*scene, count as int) =~= Seq::<RenderInstance>::empty());
        assert(out@ + Seq::<RenderInstance>::empty() =~= out@);
    }
    out
}

/// The batcher: one `collect` per frame.
pub struct SceneBatcher {}

impl SceneBatcher {
    /// Groups the scene's instances by material. The groups partition the
    /// visit sequence: keys strictly ascend, no group is empty, every
    /// instance's material has its group, each group holds exactly the
    /// instances of its material in visit order, and the group sizes sum to
    /// the number of instances.
    pub fn collect(scene: &Scene) -> (groups: Vec<MaterialGroup>)
        requires
            scene.wf(),
        ensures
            forall|g1: int, g2: int|
                0 <= g1 < g2 < groups@.len() ==> (#[trigger] groups@[g1]).material.0 < (
                #[trigger] groups@[g2]).material.0,
            forall|g: int|
                0 <= g < groups@.len() ==> (#[trigger] groups@[g]).instances@ == group_of(
                    spec_scene_instances(*scene),
                    groups@[g].material.0,
                ),
            forall|g: int| 0 <= g < groups@.len() ==> (#[trigger] groups@[g]).instances@.len() >= 1,
            forall|t: int|
                0 <= t < spec_scene_instances(*scene).len() ==> has_group(
                    groups@,
                    (#[trigger] spec_scene_instances(*scene)[t]).material.0,
                ),
            spec_group_total(groups@) == spec_scene_instances(*scene).len(),
    {
        let flat = collect_instances(scene);
        let ghost insts = spec_scene_instances(*scene);

        // Distinct materials, kept strictly sorted.
        let mut mats: Vec<u64> = Vec::new();
        let mut i: usize = 0;
        while i < flat.len()
            invariant
                flat@ == insts,
                i <= flat@.len(),
                forall|a: int, b: int| 0 <= a < b < mats@.len() ==> mats@[a] < mats@[b],
                forall|t: int|
                    0 <= t < i ==> contains_mat(mats@, (#[trigger] flat@[t]).material.0),
                forall|a: int|
                    0 <= a < mats@.len() ==> mat_present(flat@, i as int, #[trigger] mats@[a]),
            decreases flat@.len() - i,
        {
            let m = flat[i].material.0;
            let mut j: usize = 0;
            while j < mats.len() && mats[j] < m
                invariant
                    j <= mats@.len(),
                    forall|a: int, b: int| 0 <= a < b < mats@.len() ==> mats@[a] < mats@[b],
                    forall|x: int| 0 <= x < j ==> mats@[x] < m,
                decreases mats@.len() - j,
            {
                j = j + 1;
            }
            let is_new = if j == mats.len() {
                true
            } else {
                mats[j] != m
            };
            if is_new {
                let ghost pre_mats = mats@;
                mats.insert(j, m);
                proof {
                    assert(mats@ == pre_mats.insert(j as int, m));
                    assert forall|a: int, b: int|
                        0 <= a < b < mats@.len() implies mats@[a] < mats@[b] by {
                        if b < j {
                            assert(mats@[a] == pre_mats[a] && mats@[b] == pre_mats[b]);
                        } else if a > j {
                            assert(mats@[a] == pre_mats[a - 1] && mats@[b] == pre_mats[b - 1]);
                        } else if a < j && b == j {
                            assert(mats@[a] == pre_mats[a]);
                        } else if a == j && b > j {
                            assert(mats@[b] == pre_mats[b - 1]);
                            assert(j < pre_mats.len() ==> pre_mats[j as int] > m);
                        } else if a < j && b > j {
                            assert(mats@[a] == pre_mats[a] && mats@[b] == pre_mats[b - 1]);
                        }
                    }
                    assert forall|t: int|
                        0 <= t < i + 1 implies contains_mat(
                        mats@,
                        (#[trigger] flat@[t]).material.0,
                    ) by {
                        if t < i {
                            let a = choose|a: int|
                                0 <= a < pre_mats.len() && pre_mats[a] == flat@[t].material.0;
                            if a < j {
                                assert(mats@[a] == flat@[t].material.0);
                            } else {
                                assert(mats@[a + 1] == flat@[t].material.0);
                            }
                        } else {
                            assert(mats@[j as int] == m);
                        }
                    }
                    assert forall|a: int|
                        0 <= a < mats@.len() implies mat_present(
                        flat@,
                        i + 1,
                        #[trigger] mats@[a],
                    ) by {
                        if a < j {
                            assert(mats@[a] == pre_mats[a]);
                            let t = choose|t: int|
                                0 <= t < i && flat@[t].material.0 == pre_mats[a];
                            assert(flat@[t].material.0 == mats@[a]);
                        } else if a == j {
                            assert(flat@[i as int].material.0 == m);
                        } else {
                            assert(mats@[a] == pre_mats[a - 1]);
                            let t = choose|t: int|
                                0 <= t < i && flat@[t].material.0 == pre_mats[a - 1];
                            assert(flat@[t].material.0 == mats@[a]);
                        }
                    }
                }
            } else {
                proof {
                    assert(contains_mat(mats@, m)) by {
                        assert(mats@[j as int] == m);
                    }
                    assert forall|a: int|
                        0 <= a < mats@.len() implies mat_present(
                        flat@,
                        i + 1,
                        #[trigger] mats@[a],
                    ) by {
                        let t = choose|t: int| 0 <= t < i && flat@[t].material.0 == mats@[a];
                        assert(flat@[t].material.0 == mats@[a]);
                    }
                }
            }
            i = i + 1;
        }

        // One group per material, holding exactly that material's instances.
        let mut groups: Vec<MaterialGroup> = Vec::new();
        let mut g: usize = 0;
        while g < mats.len()
            invariant
                flat@ == insts,
                g <= mats@.len(),
                groups@.len() == g,
                forall|a: int, b: int| 0 <= a < b < mats@.len() ==> mats@[a] < mats@[b],
                forall|t: int|
                    0 <= t < flat@.len() ==> contains_mat(mats@, (#[trigger] flat@[t]).material.0),
                forall|a: int|
                    0 <= a < mats@.len() ==> mat_present(
                        flat@,
                        flat@.len() as int,
                        #[trigger] mats@[a],
                    ),
                forall|a: int| 0 <= a < g ==> (#[trigger] groups@[a]).material.0 == mats@[a],
                forall|a: int|
                    0 <= a < g ==> (#[trigger] groups@[a]).instances@ == group_of(
                        insts,
                        mats@[a],
                    ),
                spec_group_total(groups@) == sum_mats(insts, mats@.take(g as int)),
            decreases mats@.len() - g,
        {
            let m = mats[g];
            let mut members: Vec<RenderInstance> = Vec::new();
            let mut t: usize = 0;
            while t < flat.len()
                invariant
                    flat@ == insts,
                    t <= flat@.len(),
                    members@ == group_of(insts.take(t as int), m),
                decreases flat@.len() - t,
            {
                let inst = flat[t];
                proof {
                    assert(insts.take(t + 1).drop_last() =~= insts.take(t as int));
                    assert(insts.take(t + 1).last() == insts[t as int]);
                }
                if inst.material.0 == m {
                    members.push(inst);
                    proof {
                        assert(members@ =~= group_of(insts.take(t as int), m) + seq![
                            insts[t as int],
                        ]);
                    }
                } else {
                    proof {
                        assert(group_of(insts.take(t + 1), m) =~= group_of(
                            insts.take(t as int),
                            m,
                        ));
                    }
                }
                t = t + 1;
            }
            proof {
                assert(insts.take(flat@.len() as int) =~= insts);
            }
            let ghost pre_groups = groups@;
            groups.push(MaterialGroup { material: MaterialId(m), instances: members });
            proof {
                assert(groups@.drop_last() =~= pre_groups);
                assert(mats@.take(g + 1).drop_last() =~= mats@.take(g as int));
                assert(mats@.take(g + 1).last() == mats@[g as int]);
                assert(spec_group_total(groups@) == spec_group_total(pre_groups)
                    + group_of(insts, m).len());
            }
            g = g + 1;
        }
        proof {
            assert(mats@.take(mats@.len() as int) =~= mats@);
            assert(distinct_mats(mats@));
            lemma_partition(insts, mats@);
            assert forall|a: int|
                0 <= a < groups@.len() implies (#[trigger] groups@[a]).instances@.len() >= 1 by {
                lemma_group_of_nonempty(insts, mats@[a]);
            }
            assert forall|t: int|
                0 <= t < insts.len() implies has_group(
                groups@,
                (#[trigger] insts[t]).material.0,
            ) by {
                let a = choose|a: int| 0 <= a < mats@.len() && mats@[a] == insts[t].material.0;
                assert(groups@[a].material.0 == insts[t].material.0);
            }
        }
        groups
    }
}

} // verus!
