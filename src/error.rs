//! The errors that creating textures, setting up a renderer and rendering can meet.
use vstd::prelude::*;

use crate::registry::TextureId;

verus! {

/// What went wrong on the GPU side, or with what was handed to it.
///
/// The messages are the backend's own description of the failure.
#[derive(Clone, Debug, PartialEq, Eq)]
pub enum RendererError {
    /// Writing geometry into a GPU buffer failed.
    Update(String),
    /// Allocating a GPU buffer failed.
    Buffer(String),
    /// Compiling the shaders or building the pipeline from them failed.
    Pipeline(String),
    /// Creating a texture, or the view through which it is sampled, failed.
    Combined(String),
    /// Pixel data whose length is not four bytes for each pixel of the texture.
    PixelDataSize { width: u32, height: u32, len: usize },
    /// A draw command names a texture that is not registered.
    UnknownTexture(TextureId),
}

} // verus!
