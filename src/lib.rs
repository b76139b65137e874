//! Texture identities and a backend-neutral renderer for immediate-mode GUI draw data.
//!
//! GPU textures are kept in a [`TextureRegistry`], which hands out small copyable
//! [`TextureId`] tokens that the GUI core threads through its per-frame draw lists.
//! The [`Renderer`] resolves those tokens back to textures at render time and drives a
//! [`RenderBackend`] that performs the actual GPU work. It reaches the backend through
//! a [`Device`], which keeps a record of every request and its outcome; the renderer's
//! contracts state exactly which requests a call makes, in order, up to the first
//! failure.
pub mod device;
pub mod draw;
pub mod error;
pub mod image;
pub mod registry;
pub mod renderer;
pub mod scissor;
pub mod shaders;
pub mod texture;

pub use draw::{DrawCall, DrawCmd, DrawList, DrawListError, IndexRange};
pub use error::RendererError;
pub use image::{GetTextureID, IntoTexture};
pub use registry::{TextureId, TextureRegistry};
pub use device::{Device, RenderBackend};
pub use renderer::{DrawData, FrameSize, Renderer};
pub use scissor::{ClipRect, Scissor};
pub use shaders::Shaders;
pub use texture::{Texture, TextureFactory};
