use imgui_renderer::registry::FONT_ATLAS_ID;
use imgui_renderer::{GetTextureID, IntoTexture, TextureId, TextureRegistry};

#[test]
fn font_atlas_lives_under_identity_zero() {
    let registry = TextureRegistry::new("font");
    assert_eq!(TextureId::font_atlas(), TextureId(0));
    assert_eq!(FONT_ATLAS_ID, 0);
    assert!(TextureId(0).is_font_atlas());
    assert!(!TextureId(3).is_font_atlas());
    assert_eq!(*registry.font_atlas(), "font");
    assert_eq!(registry.resolve(TextureId(0)), Some(&"font"));
    assert!(registry.contains(TextureId(0)));
    assert!(!registry.contains(TextureId(1)));
}

#[test]
fn registered_identity_resolves_to_its_texture() {
    let mut registry = TextureRegistry::new(0u32);
    let a = registry.register(10u32);
    let b = registry.register(20u32);
    assert_eq!(a, TextureId(1));
    assert_eq!(b, TextureId(2));
    assert_eq!(registry.resolve(a), Some(&10));
    assert_eq!(registry.resolve(b), Some(&20));
    assert_eq!(registry.resolve(TextureId(7)), None);
}

#[test]
fn identities_are_distinct_and_never_zero() {
    let mut registry = TextureRegistry::new(0u32);
    let mut seen: Vec<TextureId> = Vec::new();
    for k in 0..50u32 {
        let id = registry.register(k);
        assert_ne!(id, TextureId(0));
        assert!(!seen.contains(&id));
        seen.push(id);
    }
    for (k, id) in seen.iter().enumerate() {
        assert_eq!(registry.resolve(*id), Some(&(k as u32)));
    }
    assert_eq!(*registry.font_atlas(), 0);
}

#[test]
fn unregistered_identity_no_longer_resolves_and_is_not_reused() {
    let mut registry = TextureRegistry::new(0u32);
    let a = registry.register(10u32);
    assert_eq!(registry.unregister(a), Some(10));
    assert_eq!(registry.resolve(a), None);
    assert!(!registry.contains(a));
    assert_eq!(registry.unregister(a), None);
    let b = registry.register(11u32);
    assert_ne!(a, b);
    assert_eq!(registry.resolve(a), None);
    assert_eq!(registry.resolve(b), Some(&11));
}

#[test]
fn font_atlas_cannot_be_unregistered() {
    let mut registry = TextureRegistry::new(5u32);
    assert_eq!(registry.unregister(TextureId(0)), None);
    assert_eq!(registry.resolve(TextureId(0)), Some(&5));
    assert_eq!(registry.unregister(TextureId(99)), None);
}

struct Shown {
    id: Option<TextureId>,
    size: (u32, u32),
}

impl GetTextureID for Shown {
    fn get_texture_id(&self) -> Option<TextureId> {
        self.id
    }

    fn get_size(&self) -> (u32, u32) {
        self.size
    }
}

struct Pending(usize);

impl IntoTexture<Shown> for Pending {
    fn into_texture(self) -> Shown {
        Shown { id: Some(TextureId(self.0)), size: (16, 16) }
    }
}

#[test]
fn textures_present_identity_and_size() {
    let shown = Pending(3).into_texture();
    assert_eq!(shown.get_texture_id(), Some(TextureId(3)));
    assert_eq!(shown.get_size(), (16, 16));
    let gone = Shown { id: None, size: (1, 1) };
    assert_eq!(gone.get_texture_id(), None);
}
