//! The scene graph: a forest of nodes held in a flat arena.
//!
//! Nodes reference their children by index, never by pointer; the arena owns
//! every node, so there are no cycles to leak and no parents to dangle. A
//! child is always created after its parent, so every child index is strictly
//! greater than its parent's — which is also what makes traversal visibly
//! terminate. The parent links are navigational only.
//!
//! Transforms are 4×4 matrices owned by the embedder's math library; the
//! core carries them as raw 32-bit lanes and never does arithmetic on them.
//! A node's world transform is the composition of the local transforms on
//! the path from its root down to it; `ancestor_chain` derives that path and
//! the embedder folds the matrices.

use crate::material::DrawableType;
use crate::mesh::Mesh;
use vstd::prelude::*;

verus! {

/// A 4×4 transform, column-major, each lane the raw bit pattern of the
/// embedder's 32-bit value. Opaque payload to the core.
#[derive(Clone, Copy, PartialEq, Eq, Debug)]
pub struct Mat4 {
    pub lanes: [u32; 16],
}

/// The bit pattern of the value one in the embedder's 32-bit format.
pub const ONE_BITS: u32 = 0x3F80_0000;

impl Mat4 {
    /// The identity transform: ones down the diagonal, zeroes elsewhere.
    pub fn identity() -> (r: Mat4)
        ensures
            forall|i: int|
                0 <= i < 16 ==> r.lanes@[i] == if i % 5 == 0 {
                    ONE_BITS
                } else {
                    0u32
                },
    {
        let lanes: [u32; 16] = [
            ONE_BITS, 0, 0, 0,
            0, ONE_BITS, 0, 0,
            0, 0, ONE_BITS, 0,
            0, 0, 0, ONE_BITS,
        ];
        Mat4 { lanes }
    }
}

/// What a node draws: one mesh of the scene's mesh arena, classified for
/// draw ordering.
#[derive(Clone, Copy, PartialEq, Eq, Structural, Debug)]
pub struct Drawable {
    pub mesh: usize,
    pub kind: DrawableType,
}

/// One node of the scene forest.
pub struct SceneNode {
    pub name: Option<String>,
    pub local_transform: Option<Mat4>,
    pub drawable: Option<Drawable>,
    pub children: Vec<usize>,
    pub parent: Option<usize>,
}

/// The scene: a node arena, the roots of its forest, and the meshes its
/// drawables reference.
pub struct Scene {
    nodes: Vec<SceneNode>,
    root_nodes: Vec<usize>,
    meshes: Vec<Mesh>,
}

/// The indices from a node's root down to the node, following parent links:
/// the composition order of its world transform.
pub open spec fn spec_ancestor_chain(s: Scene, n: int) -> Seq<usize>
    decreases n + 1,
{
    if 0 <= n < s.spec_nodes().len() {
        (match s.spec_nodes()[n].parent {
            Some(p) => if p < n {
                spec_ancestor_chain(s, p as int)
            } else {
                Seq::empty()
            },
            None => Seq::empty(),
        }).push(n as usize)
    } else {
        Seq::empty()
    }
}

proof fn lemma_roots_in_bounds(pre: Scene, post: Scene)
    requires
        pre.wf(),
        post.spec_roots() == pre.spec_roots(),
        pre.spec_nodes().len() <= post.spec_nodes().len(),
    ensures
        forall|k: int|
            0 <= k < post.spec_roots().len() ==> (#[trigger] post.spec_roots()[k])
                < post.spec_nodes().len(),
{
    assert forall|k: int|
        0 <= k < post.spec_roots().len() implies (#[trigger] post.spec_roots()[k])
        < post.spec_nodes().len() by {
        assert(pre.spec_roots()[k] < pre.spec_nodes().len());
    }
}

proof fn lemma_meshes_wf(pre: Scene, post: Scene)
    requires
        pre.wf(),
        post.spec_meshes() == pre.spec_meshes(),
    ensures
        forall|m: int|
            0 <= m < post.spec_meshes().len() ==> (#[trigger] post.spec_meshes()[m]).wf(),
{
    assert forall|m: int|
        0 <= m < post.spec_meshes().len() implies (#[trigger] post.spec_meshes()[m]).wf() by {
        assert(pre.spec_meshes()[m].wf());
    }
}

impl Scene {
    pub closed spec fn spec_nodes(self) -> Seq<SceneNode> {
        self.nodes@
    }

    pub closed spec fn spec_roots(self) -> Seq<usize> {
        self.root_nodes@
    }

    pub closed spec fn spec_meshes(self) -> Seq<Mesh> {
        self.meshes@
    }

    /// Well-formedness: indices in bounds, every child strictly after its
    /// parent in the arena, every submesh range inside its mesh.
    pub open spec fn wf(self) -> bool {
        &&& forall|n: int, k: int|
            0 <= n < self.spec_nodes().len() && 0 <= k < self.spec_nodes()[n].children@.len()
                ==> n < #[trigger] self.spec_nodes()[n].children@[k]
                    && self.spec_nodes()[n].children@[k] < self.spec_nodes().len()
        &&& forall|k: int|
            0 <= k < self.spec_roots().len() ==> (#[trigger] self.spec_roots()[k])
                < self.spec_nodes().len()
        &&& forall|n: int|
            0 <= n < self.spec_nodes().len() ==> match (#[trigger] self.spec_nodes()[n]).drawable {
                Some(d) => d.mesh < self.spec_meshes().len(),
                None => true,
            }
        &&& forall|m: int| 0 <= m < self.spec_meshes().len() ==> (#[trigger] self.spec_meshes()[m]).wf()
        &&& forall|n: int|
            0 <= n < self.spec_nodes().len() ==> match (#[trigger] self.spec_nodes()[n]).parent {
                Some(p) => p < n,
                None => true,
            }
    }

    pub fn new() -> (r: Scene)
        ensures
            r.wf(),
            r.spec_nodes().len() == 0,
            r.spec_roots().len() == 0,
            r.spec_meshes().len() == 0,
    {
        Scene { nodes: Vec::new(), root_nodes: Vec::new(), meshes: Vec::new() }
    }

    pub fn node_count(&self) -> (r: usize)
        ensures
            r == self.spec_nodes().len(),
    {
        self.nodes.len()
    }

    pub fn mesh_count(&self) -> (r: usize)
        ensures
            r == self.spec_meshes().len(),
    {
        self.meshes.len()
    }

    pub fn root_count(&self) -> (r: usize)
        ensures
            r == self.spec_roots().len(),
    {
        self.root_nodes.len()
    }

    pub fn node(&self, index: usize) -> (r: &SceneNode)
        requires
            index < self.spec_nodes().len(),
        ensures
            *r == self.spec_nodes()[index as int],
    {
        &self.nodes[index]
    }

    pub fn mesh(&self, index: usize) -> (r: &Mesh)
        requires
            index < self.spec_meshes().len(),
        ensures
            *r == self.spec_meshes()[index as int],
    {
        &self.meshes[index]
    }

    pub fn root(&self, index: usize) -> (r: usize)
        requires
            index < self.spec_roots().len(),
        ensures
            r == self.spec_roots()[index as int],
    {
        self.root_nodes[index]
    }

    /// Moves a mesh into the scene's arena and returns its index.
    pub fn add_mesh(&mut self, mesh: Mesh) -> (index: usize)
        requires
            old(self).wf(),
            mesh.wf(),
        ensures
            final(self).wf(),
            index == old(self).spec_meshes().len(),
            final(self).spec_meshes() == old(self).spec_meshes().push(mesh),
            final(self).spec_nodes() == old(self).spec_nodes(),
            final(self).spec_roots() == old(self).spec_roots(),
    {
        let index = self.meshes.len();
        self.meshes.push(mesh);
        proof {
            assert(self.meshes@ == old(self).meshes@.push(mesh));
            assert forall|m: int| 0 <= m < self.meshes@.len() implies (
            #[trigger] self.meshes@[m]).wf() by {
                if m < old(self).meshes@.len() {
                    assert(old(self).spec_meshes()[m].wf());
                    assert(self.meshes@[m] == old(self).meshes@[m]);
                } else {
                    assert(self.meshes@[m] == mesh);
                    assert(mesh.wf());
                }
            }
            lemma_roots_in_bounds(*old(self), *self);
        }
        index
    }

    /// Adds a node to the arena and returns its index. The node starts
    /// childless — links are made afterwards, so children always carry
    /// larger indices than their parents.
    pub fn add_node(&mut self, node: SceneNode) -> (index: usize)
        requires
            old(self).wf(),
            node.children@.len() == 0,
            node.parent is None,
            match node.drawable {
                Some(d) => d.mesh < old(self).spec_meshes().len(),
                None => true,
            },
        ensures
            final(self).wf(),
            index == old(self).spec_nodes().len(),
            final(self).spec_nodes() == old(self).spec_nodes().push(node),
            final(self).spec_roots() == old(self).spec_roots(),
            final(self).spec_meshes() == old(self).spec_meshes(),
    {
        let index = self.nodes.len();
        self.nodes.push(node);
        proof {
            let olds = old(self).spec_nodes();
            let news = self.spec_nodes();
            assert forall|n: int, k: int|
                0 <= n < news.len() && 0 <= k < news[n].children@.len() implies n < #[trigger] news[n].children@[k]
                && news[n].children@[k] < news.len() by {
                if n < olds.len() {
                    assert(news[n] == olds[n]);
                    assert(n < olds[n].children@[k] && olds[n].children@[k] < olds.len());
                }
            }
            assert forall|n: int| 0 <= n < news.len() implies match (#[trigger] news[n]).drawable {
                Some(d) => d.mesh < self.spec_meshes().len(),
                None => true,
            } by {
                if n < olds.len() {
                    assert(news[n] == olds[n]);
                }
            }
            lemma_roots_in_bounds(*old(self), *self);
            lemma_meshes_wf(*old(self), *self);
        }
        index
    }

    /// Links `child` under `parent`. The child must have been added after
    /// the parent, which keeps the arena a forest that traversals descend
    /// through in strictly increasing index order.
    pub fn add_child(&mut self, parent: usize, child: usize)
        requires
            old(self).wf(),
            parent < child,
            child < old(self).spec_nodes().len(),
        ensures
            final(self).wf(),
            final(self).spec_nodes().len() == old(self).spec_nodes().len(),
            final(self).spec_nodes()[parent as int].children@
                == old(self).spec_nodes()[parent as int].children@.push(child),
            final(self).spec_nodes()[parent as int] == (SceneNode {
                children: final(self).spec_nodes()[parent as int].children,
                ..old(self).spec_nodes()[parent as int]
            }),
            final(self).spec_nodes()[child as int] == (SceneNode {
                parent: Some(parent),
                ..old(self).spec_nodes()[child as int]
            }),
            forall|n: int|
                0 <= n < old(self).spec_nodes().len() && n != parent && n != child
                    ==> final(self).spec_nodes()[n] == old(self).spec_nodes()[n],
            final(self).spec_roots() == old(self).spec_roots(),
            final(self).spec_meshes() == old(self).spec_meshes(),
    {
        self.nodes[parent].children.push(child);
        self.nodes[child].parent = Some(parent);
        proof {
            let olds = old(self).spec_nodes();
            let news = self.spec_nodes();
            assert forall|n: int, k: int|
                0 <= n < news.len() && 0 <= k < news[n].children@.len() implies n < #[trigger] news[n].children@[k]
                && news[n].children@[k] < news.len() by {
                if n == parent {
                    if k < olds[n].children@.len() {
                        assert(n < olds[n].children@[k] && olds[n].children@[k] < olds.len());
                    }
                } else {
                    if n != child {
                        assert(news[n] == olds[n]);
                    }
                    assert(news[n].children@ == olds[n].children@);
                    assert(n < olds[n].children@[k] && olds[n].children@[k] < olds.len());
                }
            }
            assert forall|n: int| 0 <= n < news.len() implies match (#[trigger] news[n]).drawable {
                Some(d) => d.mesh < self.spec_meshes().len(),
                None => true,
            } by {
                if n != parent && n != child {
                    assert(news[n] == olds[n]);
                }
            }
            lemma_roots_in_bounds(*old(self), *self);
            lemma_meshes_wf(*old(self), *self);
        }
    }

    /// Returns the node indices from `node`'s root down to `node` itself,
    /// following the parent links. A node's world transform is the local
    /// transforms along this chain composed in order — the embedder's math
    /// library folds the matrices; this gives it the verified order.
    pub fn ancestor_chain(&self, node: usize) -> (chain: Vec<usize>)
        requires
            self.wf(),
            node < self.spec_nodes().len(),
        ensures
            chain@ == spec_ancestor_chain(*self, node as int),
        decreases node,
    {
        let mut chain = match self.node(node).parent {
            Some(p) => self.ancestor_chain(p),
            None => Vec::new(),
        };
        chain.push(node);
        chain
    }

    /// Marks a node as a root of the forest.
    pub fn add_root(&mut self, node: usize)
        requires
            old(self).wf(),
            node < old(self).spec_nodes().len(),
        ensures
            final(self).wf(),
            final(self).spec_roots() == old(self).spec_roots().push(node),
            final(self).spec_nodes() == old(self).spec_nodes(),
            final(self).spec_meshes() == old(self).spec_meshes(),
    {
        self.root_nodes.push(node);
        proof {
            assert forall|k: int|
                0 <= k < self.spec_roots().len() implies (#[trigger] self.spec_roots()[k])
                < self.spec_nodes().len() by {
                if k < old(self).spec_roots().len() {
                    assert(self.spec_roots()[k] == old(self).spec_roots()[k]);
                    assert(old(self).spec_roots()[k] < old(self).spec_nodes().len());
                } else {
                    assert(self.spec_roots()[k] == node);
                }
            }
            lemma_meshes_wf(*old(self), *self);
        }
    }
}

} // verus!
