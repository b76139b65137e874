//! How application textures present themselves to GUI widgets that show images.
use vstd::prelude::*;

use crate::registry::TextureId;

verus! {

/// A texture that a widget can show: its identity, while it is still alive, and its
/// size in pixels.
pub trait GetTextureID {
    /// The texture's identity, or `None` once the texture is gone.
    fn get_texture_id(&self) -> Option<TextureId>;

    /// Width and height in pixels.
    fn get_size(&self) -> (u32, u32);
}

/// A value that can be turned into a texture of type `T`.
pub trait IntoTexture<T> where T: GetTextureID {
    fn into_texture(self) -> T;
}

} // verus!
