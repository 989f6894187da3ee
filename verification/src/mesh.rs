//! Meshes: GPU buffer handles, a fixed vertex layout, and submesh ranges.
//!
//! A mesh owns one vertex buffer and one index buffer, both carried here as
//! opaque handles, and is partitioned into submeshes: index ranges that each
//! reference one material. The vertex layout is fixed — position, normal and
//! texture coordinates, three, three and two 32-bit lanes — and immutable
//! once uploaded; the core derives the layout description every pipeline is
//! built against.

use crate::material::MaterialId;
use vstd::prelude::*;

verus! {

/// One vertex: position, normal and texture coordinates, each lane the raw
/// 32-bit pattern of the uploaded value. The core never does arithmetic on
/// vertex data; it only describes its layout.
#[derive(Clone, Copy, PartialEq, Eq, Debug)]
pub struct Vertex {
    pub position: [u32; 3],
    pub normal: [u32; 3],
    pub uv: [u32; 2],
}

/// How one vertex attribute is laid out.
#[derive(Clone, Copy, PartialEq, Eq, Structural, Debug)]
pub enum AttributeFormat {
    ThreeLanes,
    TwoLanes,
}

/// One attribute of the vertex layout.
#[derive(Clone, Copy, PartialEq, Eq, Structural, Debug)]
pub struct VertexAttribute {
    pub shader_location: u32,
    pub offset: u32,
    pub format: AttributeFormat,
}

/// The layout of one vertex buffer, stepped per vertex.
#[derive(PartialEq, Eq, Debug)]
pub struct VertexLayout {
    pub array_stride: u32,
    pub attributes: Vec<VertexAttribute>,
}

/// The attribute list of the fixed vertex layout: position at offset 0,
/// normal at 12, texture coordinates at 24, 32 bytes per vertex.
pub open spec fn spec_vertex_attributes() -> Seq<VertexAttribute> {
    seq![
        VertexAttribute { shader_location: 0, offset: 0, format: AttributeFormat::ThreeLanes },
        VertexAttribute { shader_location: 1, offset: 12, format: AttributeFormat::ThreeLanes },
        VertexAttribute { shader_location: 2, offset: 24, format: AttributeFormat::TwoLanes },
    ]
}

/// A range of a mesh's index buffer drawn with one material.
#[derive(Clone, Copy, PartialEq, Eq, Structural, Debug)]
pub struct Submesh {
    pub index_offset: u32,
    pub index_count: u32,
    pub material: MaterialId,
}

/// An opaque handle standing for one GPU buffer allocation.
#[derive(Clone, Copy, PartialEq, Eq, Structural, Debug)]
pub struct BufferRef(pub u64);

/// A mesh: its two buffers, their element counts, and its submesh ranges.
pub struct Mesh {
    pub vertex_buffer: BufferRef,
    pub index_buffer: BufferRef,
    pub vertex_count: u32,
    pub index_count: u32,
    pub submeshes: Vec<Submesh>,
}

impl Mesh {
    /// Every submesh range lies within the index buffer.
    pub open spec fn wf(self) -> bool {
        forall|i: int|
            0 <= i < self.submeshes@.len()
                ==> (#[trigger] self.submeshes@[i]).index_offset + self.submeshes@[i].index_count
                    <= self.index_count
    }

    pub fn new(vertex_buffer: BufferRef, index_buffer: BufferRef, vertex_count: u32, index_count: u32) -> (r: Mesh)
        ensures
            r.wf(),
            r.vertex_buffer == vertex_buffer,
            r.index_buffer == index_buffer,
            r.vertex_count == vertex_count,
            r.index_count == index_count,
            r.submeshes@.len() == 0,
    {
        Mesh { vertex_buffer, index_buffer, vertex_count, index_count, submeshes: Vec::new() }
    }

    /// Adds a submesh range; refused exactly when the range does not fit in
    /// the index buffer.
    pub fn push_submesh(&mut self, index_offset: u32, index_count: u32, material: MaterialId) -> (ok: bool)
        requires
            old(self).wf(),
        ensures
            final(self).wf(),
            ok == (index_offset + index_count <= old(self).index_count),
            ok ==> final(self).submeshes@ == old(self).submeshes@.push(
                Submesh { index_offset, index_count, material },
            ),
            !ok ==> *final(self) == *old(self),
            final(self).vertex_buffer == old(self).vertex_buffer,
            final(self).index_buffer == old(self).index_buffer,
            final(self).vertex_count == old(self).vertex_count,
            final(self).index_count == old(self).index_count,
    {
        if index_count <= self.index_count && index_offset <= self.index_count - index_count {
            self.submeshes.push(Submesh { index_offset, index_count, material });
            true
        } else {
            false
        }
    }

    /// The layout every vertex buffer of this engine is uploaded with.
    pub fn vertex_buffer_layout(&self) -> (r: VertexLayout)
        ensures
            r.array_stride == 32,
            r.attributes@ == spec_vertex_attributes(),
    {
        standard_vertex_layout()
    }
}

/// The fixed vertex layout, as a value.
pub fn standard_vertex_layout() -> (r: VertexLayout)
    ensures
        r.array_stride == 32,
        r.attributes@ == spec_vertex_attributes(),
{
    let mut attributes: Vec<VertexAttribute> = Vec::new();
    attributes.push(
        VertexAttribute { shader_location: 0, offset: 0, format: AttributeFormat::ThreeLanes },
    );
    attributes.push(
        VertexAttribute { shader_location: 1, offset: 12, format: AttributeFormat::ThreeLanes },
    );
    attributes.push(
        VertexAttribute { shader_location: 2, offset: 24, format: AttributeFormat::TwoLanes },
    );
    proof {
        assert(attributes@ =~= spec_vertex_attributes());
    }
    VertexLayout { array_stride: 32, attributes }
}

} // verus!
