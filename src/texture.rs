//! GPU textures together with their size, and how they are made from raw pixels.
use vstd::prelude::*;

use crate::device::{outcome_of, ran, Device, Request};
use crate::error::RendererError;

verus! {

/// Something that can turn RGBA8 pixels into a GPU texture of type `H`.
pub trait TextureFactory<H> {
    /// Creates an immutable `width` by `height` texture from `rgba`, which holds four
    /// bytes per pixel, row after row.
    fn create_texture(&mut self, width: u32, height: u32, rgba: &[u8]) -> Result<H, RendererError>;
}

/// The number of bytes of RGBA8 pixel data that a `width` by `height` texture takes.
pub open spec fn rgba_len(width: u32, height: u32) -> int {
    width as int * height as int * 4
}

/// Whether `len` bytes are exactly the RGBA8 pixels of a `width` by `height` texture.
pub fn rgba_len_matches(width: u32, height: u32, len: usize) -> (r: bool)
    ensures
        r == (len as int == rgba_len(width, height)),
{
    proof {
        assert(width as int * height as int <= 0xffff_ffffint * 0xffff_ffffint) by (nonlinear_arith)
            requires
                width <= 0xffff_ffffu32,
                height <= 0xffff_ffffu32,
        ;
    }
    (width as u128) * (height as u128) * 4 == len as u128
}

/// Whether `len` pixels are exactly those of a `width` by `height` texture.
pub fn pixel_count_matches(width: u32, height: u32, len: usize) -> (r: bool)
    ensures
        r == (len as int == width as int * height as int),
{
    proof {
        assert(width as int * height as int <= 0xffff_ffffint * 0xffff_ffffint) by (nonlinear_arith)
            requires
                width <= 0xffff_ffffu32,
                height <= 0xffff_ffffu32,
        ;
    }
    (width as u128) * (height as u128) == len as u128
}

/// A GPU texture handle `H` of a fixed size, fixed when it was made.
pub struct Texture<H> {
    handle: H,
    width: u32,
    height: u32,
}

impl<H> Texture<H> {
    pub closed spec fn spec_handle(&self) -> H {
        self.handle
    }

    pub closed spec fn spec_size(&self) -> (u32, u32) {
        (self.width, self.height)
    }

    /// Takes ownership of a texture that already exists on the GPU.
    pub fn from_existing(handle: H, width: u32, height: u32) -> (r: Self)
        ensures
            r.spec_handle() == handle,
            r.spec_size() == (width, height),
    {
        Texture { handle, width, height }
    }

    /// Creates a `width` by `height` texture from RGBA8 pixels. Refused, before anything
    /// is asked of the device, when `data` is not four bytes per pixel; otherwise the
    /// device is asked for exactly that texture, and its answer decides.
    pub fn from_raw<V, F: TextureFactory<H>>(device: &mut Device<H, V, F>, width: u32, height: u32, data: &[u8]) -> (r:
        Result<Self, RendererError>)
        ensures
            data@.len() != rgba_len(width, height) ==> r == Err::<Self, _>(
                RendererError::PixelDataSize { width, height, len: data@.len() as usize },
            ) && *final(device) == *old(device),
            data@.len() == rgba_len(width, height) ==> ran(
                old(device).log(),
                final(device).log(),
                seq![Request::CreateTexture { width, height, rgba: data@ }],
                outcome_of(r),
            ),
            r matches Ok(t) ==> t.spec_size() == (width, height),
    {
        if !rgba_len_matches(width, height, data.len()) {
            return Err(RendererError::PixelDataSize { width, height, len: data.len() });
        }
        let ghost before = device.log();
        let made = device.create_texture(width, height, data);
        proof {
            crate::device::lemma_ran_one(
                before,
                crate::device::Entry {
                    request: Request::CreateTexture { width, height, rgba: data@ },
                    outcome: outcome_of(made),
                },
            );
        }
        match made {
            Ok(handle) => Ok(Texture { handle, width, height }),
            Err(e) => Err(e),
        }
    }

    /// Width and height in pixels.
    pub fn get_size(&self) -> (r: (u32, u32))
        ensures
            r == self.spec_size(),
    {
        (self.width, self.height)
    }

    /// The GPU texture itself.
    pub fn handle(&self) -> (r: &H)
        ensures
            *r == self.spec_handle(),
    {
        &self.handle
    }
}

} // verus!
