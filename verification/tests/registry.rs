use nimbus::material::{
    DrawableType, Material, MaterialId, MaterialManager, SamplerRef, TextureRef, TextureSlot,
    Textures,
};

fn textures(base: u64) -> Textures {
    Textures {
        base_color: TextureSlot::Bound(TextureRef(base)),
        albedo: TextureSlot::Bound(TextureRef(base + 1)),
        specular: TextureSlot::Bound(TextureRef(base + 2)),
        normal: TextureSlot::Bound(TextureRef(base + 3)),
    }
}

#[test]
fn insert_then_get_returns_the_stored_references() {
    let mut manager = MaterialManager::new();
    let t = textures(10);
    let s = SamplerRef(99);
    let id = manager.insert(t, s);

    let found = manager.get(id).expect("inserted material must resolve");
    assert_eq!(found.id, id);
    assert_eq!(found.sampler, SamplerRef(99));
    assert_eq!(found.textures.base_color, TextureSlot::Bound(TextureRef(10)));
    assert_eq!(found.textures.albedo, TextureSlot::Bound(TextureRef(11)));
    assert_eq!(found.textures.specular, TextureSlot::Bound(TextureRef(12)));
    assert_eq!(found.textures.normal, TextureSlot::Bound(TextureRef(13)));
}

#[test]
fn ids_are_monotonic_and_unique() {
    let mut manager = MaterialManager::new();
    let a = manager.insert(textures(0), SamplerRef(1));
    let b = manager.insert(textures(4), SamplerRef(1));
    let c = manager.insert(textures(8), SamplerRef(2));
    assert_eq!(a, MaterialId(1));
    assert_eq!(b, MaterialId(2));
    assert_eq!(c, MaterialId(3));
    assert_eq!(manager.len(), 3);
}

#[test]
fn earlier_materials_survive_later_insertions() {
    let mut manager = MaterialManager::new();
    let a = manager.insert(textures(0), SamplerRef(7));
    let _ = manager.insert(textures(4), SamplerRef(8));
    let found = manager.get(a).expect("first material still there");
    assert_eq!(found.sampler, SamplerRef(7));
    assert_eq!(found.textures.base_color, TextureSlot::Bound(TextureRef(0)));
}

#[test]
fn get_of_unknown_id_is_none() {
    let mut manager = MaterialManager::new();
    assert!(manager.get(MaterialId(0)).is_none());
    assert!(manager.get(MaterialId(1)).is_none());
    let _ = manager.insert(textures(0), SamplerRef(1));
    assert!(manager.get(MaterialId(2)).is_none());
    assert!(manager.get(MaterialId(u64::MAX)).is_none());
}

#[test]
fn default_manager_is_empty() {
    let manager = MaterialManager::default();
    assert_eq!(manager.len(), 0);
    assert!(manager.get(MaterialId(1)).is_none());
}

#[test]
fn transparency_follows_the_base_color_slot() {
    let opaque = Material {
        id: MaterialId(1),
        textures: Textures {
            base_color: TextureSlot::Constant(0x112233FF),
            albedo: TextureSlot::Constant(0),
            specular: TextureSlot::Constant(0),
            normal: TextureSlot::Constant(0),
        },
        sampler: SamplerRef(0),
    };
    assert!(!opaque.is_transparent());
    assert_eq!(opaque.drawable_type(), DrawableType::Opaque);

    let translucent = Material {
        id: MaterialId(2),
        textures: Textures {
            base_color: TextureSlot::Constant(0xFF0000_80),
            albedo: TextureSlot::Constant(0),
            specular: TextureSlot::Constant(0),
            normal: TextureSlot::Constant(0),
        },
        sampler: SamplerRef(0),
    };
    assert!(translucent.is_transparent());
    assert_eq!(translucent.drawable_type(), DrawableType::Transparent);

    let textured = Material { id: MaterialId(3), textures: textures(0), sampler: SamplerRef(0) };
    assert!(textured.is_transparent());
}

#[test]
fn load_texture_is_a_stub_for_the_asset_pipeline() {
    nimbus::material::load_texture();
}
