//! Materials and the registry that owns them.
//!
//! A material is immutable after creation: an identity, one texture binding
//! per slot (base color, albedo, specular, normal), and one sampler. The
//! registry allocates identities from a monotonic counter and is the sole
//! owner of the materials; everyone else looks them up by id.
//!
//! Textures and samplers are GPU resources; the core carries them as opaque
//! handles. Two equal handles stand for the same GPU object, so handle
//! equality is what reference equality of the shared resources becomes here.

use vstd::prelude::*;

verus! {

/// An opaque handle standing for one GPU texture (image view).
#[derive(Clone, Copy, PartialEq, Eq, Structural, Debug)]
pub struct TextureRef(pub u64);

/// An opaque handle standing for one GPU sampler.
#[derive(Clone, Copy, PartialEq, Eq, Structural, Debug)]
pub struct SamplerRef(pub u64);

/// Identity of a material, unique per registry and never reused.
#[derive(Clone, Copy, PartialEq, Eq, Structural, Debug)]
pub struct MaterialId(pub u64);

/// One material slot: either backed by a texture, or a constant value
/// (a color packed as four 8-bit channels, red in the highest byte and
/// alpha in the lowest).
#[derive(Clone, Copy, PartialEq, Eq, Structural, Debug)]
pub enum TextureSlot {
    Bound(TextureRef),
    Constant(u32),
}

impl TextureSlot {
    /// Whether this slot is texture-backed (the shape bit the pipeline
    /// derivation keys on).
    pub open spec fn spec_is_bound(self) -> bool {
        self is Bound
    }

    pub fn is_bound(&self) -> (r: bool)
        ensures
            r == self.spec_is_bound(),
    {
        match self {
            TextureSlot::Bound(_) => true,
            TextureSlot::Constant(_) => false,
        }
    }

    /// The alpha channel of a constant slot (255 for a bound one, which is
    /// treated as fully opaque data until sampled).
    pub open spec fn spec_constant_alpha(self) -> u32 {
        match self {
            TextureSlot::Bound(_) => 255,
            TextureSlot::Constant(c) => c % 256,
        }
    }
}

/// The fixed set of texture bindings of one material.
#[derive(Clone, Copy, PartialEq, Eq, Structural, Debug)]
pub struct Textures {
    pub base_color: TextureSlot,
    pub albedo: TextureSlot,
    pub specular: TextureSlot,
    pub normal: TextureSlot,
}

/// Whether a drawable using the material needs blending.
#[derive(Clone, Copy, PartialEq, Eq, Structural, Debug)]
pub enum DrawableType {
    Opaque,
    Transparent,
}

/// A material: identity, texture bindings, sampler. Immutable once inserted.
#[derive(Clone, Copy, PartialEq, Eq, Structural, Debug)]
pub struct Material {
    pub id: MaterialId,
    pub textures: Textures,
    pub sampler: SamplerRef,
}

impl Material {
    /// A material draws transparently when its base color either comes from
    /// a texture (which may carry any alpha) or is a constant color whose
    /// alpha channel is below fully opaque.
    pub open spec fn spec_is_transparent(self) -> bool {
        self.textures.base_color.spec_is_bound()
            || self.textures.base_color.spec_constant_alpha() < 255
    }

    pub fn is_transparent(&self) -> (r: bool)
        ensures
            r == self.spec_is_transparent(),
    {
        match self.textures.base_color {
            TextureSlot::Bound(_) => true,
            TextureSlot::Constant(c) => c % 256 < 255,
        }
    }

    /// How a drawable with this material is classified for draw ordering.
    pub fn drawable_type(&self) -> (r: DrawableType)
        ensures
            (r == DrawableType::Transparent) == self.spec_is_transparent(),
    {
        if self.is_transparent() {
            DrawableType::Transparent
        } else {
            DrawableType::Opaque
        }
    }
}

/// Owns every material and hands out ids; ids start at 1 and grow by one per
/// insertion, so an id is valid exactly when it is below the next free one.
pub struct MaterialManager {
    next_id: u64,
    materials: Vec<Material>,
}

impl MaterialManager {
    /// The id the next insertion will get.
    pub closed spec fn spec_next_id(self) -> u64 {
        self.next_id
    }

    /// How many materials the registry holds.
    pub closed spec fn spec_len(self) -> nat {
        self.materials@.len()
    }

    pub closed spec fn wf(self) -> bool {
        &&& self.next_id == self.materials@.len() + 1
        &&& forall|i: int|
            0 <= i < self.materials@.len() ==> (#[trigger] self.materials@[i]).id.0 == i + 1
    }

    /// The material stored under `id`, if any.
    pub closed spec fn spec_get(self, id: MaterialId) -> Option<Material> {
        if 1 <= id.0 && id.0 <= self.materials@.len() {
            Some(self.materials@[id.0 - 1])
        } else {
            None
        }
    }

    pub fn new() -> (r: MaterialManager)
        ensures
            r.wf(),
            r.spec_len() == 0,
            r.spec_next_id() == 1,
            forall|id: MaterialId| r.spec_get(id) is None,
    {
        MaterialManager { next_id: 1, materials: Vec::new() }
    }

    /// Allocates a fresh identity and stores the material under it. The new
    /// id was unused before the call, and every previously stored material
    /// is still there, unchanged.
    pub fn insert(&mut self, textures: Textures, sampler: SamplerRef) -> (id: MaterialId)
        requires
            old(self).wf(),
            old(self).spec_len() < u64::MAX - 1,
        ensures
            final(self).wf(),
            id.0 == old(self).spec_next_id(),
            old(self).spec_get(id) is None,
            final(self).spec_get(id) == Some(Material { id, textures, sampler }),
            final(self).spec_len() == old(self).spec_len() + 1,
            final(self).spec_next_id() == old(self).spec_next_id() + 1,
            forall|other: MaterialId|
                other != id ==> final(self).spec_get(other) == old(self).spec_get(other),
    {
        let id = MaterialId(self.next_id);
        self.materials.push(Material { id, textures, sampler });
        self.next_id = self.next_id + 1;
        id
    }

    /// Looks a material up by id; returns it exactly when the id was handed
    /// out by an earlier insertion. The reference aliases the stored
    /// material — the registry never copies or rewrites what it stored.
    pub fn get(&self, id: MaterialId) -> (r: Option<&Material>)
        requires
            self.wf(),
        ensures
            match r {
                Some(m) => self.spec_get(id) == Some(*m),
                None => self.spec_get(id) is None,
            },
    {
        if 1 <= id.0 && id.0 <= self.materials.len() as u64 {
            Some(&self.materials[(id.0 - 1) as usize])
        } else {
            None
        }
    }

    pub fn len(&self) -> (r: usize)
        ensures
            r == self.spec_len(),
    {
        self.materials.len()
    }
}

impl Default for MaterialManager {
    fn default() -> (r: MaterialManager)
        ensures
            r.wf(),
            r.spec_len() == 0,
            r.spec_next_id() == 1,
    {
        MaterialManager::new()
    }
}

/// Round trip: once a registry maps an id to a material — which is exactly
/// what `insert` establishes for the id it returns — a lookup of that id
/// yields the very texture and sampler handles that went in. The registry
/// never copies or rewrites a stored material, so handle equality here is
/// reference equality of the shared GPU resources.
pub proof fn lemma_insert_get_round_trip(
    registry: MaterialManager,
    id: MaterialId,
    textures: Textures,
    sampler: SamplerRef,
)
    requires
        registry.spec_get(id) == Some(Material { id, textures, sampler }),
    ensures
        registry.spec_get(id) matches Some(stored) && stored.textures == textures
            && stored.sampler == sampler && stored.id == id,
{
}

/// Texture decoding and upload belong to the asset pipeline outside this
/// core; here a loaded texture is only ever an opaque handle.
pub fn load_texture() {
}

} // verus!
