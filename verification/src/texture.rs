//! GPU textures: one texture object handle plus its dimensions. The host
//! shell performs the actual pixel upload (RGBA8, linear filtering,
//! clamp-to-edge wrapping) when it mirrors these operations.

use vstd::prelude::*;

use crate::gpu::Gpu;
use crate::image::Image;

verus! {

/// A GPU texture: the owned handle and the dimensions of its storage.
pub struct Texture {
    pub handle: u64,
    pub width: u32,
    pub height: u32,
}

/// A command for the host shell: make this texture current.
#[derive(Clone, Copy, PartialEq, Eq, Structural, Debug)]
pub struct BindTexture {
    pub handle: u64,
}

/// The default texture's pixels: a 2x2 checkerboard of red, green, blue and
/// white RGBA8 pixels.
pub open spec fn checkerboard_pixels() -> Seq<u8> {
    seq![
        255u8, 0, 0, 255, // red
        0, 255, 0, 255, // green
        0, 0, 255, 255, // blue
        255, 255, 255, 255, // white
    ]
}

impl Texture {
    /// The texture handle is live in the given ledger.
    pub open spec fn live_in(self, gpu: Gpu) -> bool {
        gpu.live().contains(self.handle)
    }

    /// Creates a texture and uploads the given image to it.
    pub fn from_image(gpu: &mut Gpu, image: &Image) -> (r: Texture)
        requires
            old(gpu).wf(),
            old(gpu).next_handle() < u64::MAX,
            image.wf(),
        ensures
            final(gpu).wf(),
            r.width == image.width,
            r.height == image.height,
            r.live_in(*final(gpu)),
            !old(gpu).live().contains(r.handle),
            final(gpu).live() == old(gpu).live().insert(r.handle),
            final(gpu).next_handle() == old(gpu).next_handle() + 1,
    {
        let handle = gpu.allocate();
        let mut texture = Texture { handle, width: 0, height: 0 };
        texture.upload_image(image);
        texture
    }

    /// Returns a new default texture holding the 2x2 red/green/blue/white
    /// checkerboard placeholder image.
    pub fn new(gpu: &mut Gpu) -> (r: Texture)
        requires
            old(gpu).wf(),
            old(gpu).next_handle() < u64::MAX,
        ensures
            final(gpu).wf(),
            r.width == 2,
            r.height == 2,
            r.live_in(*final(gpu)),
            !old(gpu).live().contains(r.handle),
            final(gpu).live() == old(gpu).live().insert(r.handle),
            final(gpu).next_handle() == old(gpu).next_handle() + 1,
    {
        let pixels = vec![
            255u8, 0, 0, 255, 0, 255, 0, 255, 0, 0, 255, 255, 255, 255, 255, 255,
        ];
        proof {
            assert(pixels@ =~= checkerboard_pixels());
        }
        let image = Image::from_vec(pixels, 2, 2);
        Self::from_image(gpu, &image)
    }

    /// The command that makes this texture current. Requires the handle to
    /// still be live.
    pub fn bind(&self, gpu: &Gpu) -> (c: BindTexture)
        requires
            self.live_in(*gpu),
        ensures
            c == (BindTexture { handle: self.handle }),
    {
        BindTexture { handle: self.handle }
    }

    /// Records an upload of `width * height` RGBA8 pixels — or, with no
    /// pixels, the allocation of blank storage of that size for use as a
    /// render target. The host shell performs the corresponding
    /// graphics-API upload.
    pub fn upload(&mut self, pixels: Option<&[u8]>, width: u32, height: u32)
        requires
            pixels matches Some(p) ==> p@.len() == width * height * 4,
        ensures
            final(self).handle == old(self).handle,
            final(self).width == width,
            final(self).height == height,
    {
        let _ = pixels;
        self.width = width;
        self.height = height;
    }

    /// Records an upload of a whole image.
    pub fn upload_image(&mut self, image: &Image)
        requires
            image.wf(),
        ensures
            final(self).handle == old(self).handle,
            final(self).width == image.width,
            final(self).height == image.height,
    {
        self.upload(Some(image.data.as_slice()), image.width, image.height)
    }

    /// Releases the texture handle, exactly once.
    pub fn destroy(self, gpu: &mut Gpu)
        requires
            old(gpu).wf(),
            self.live_in(*old(gpu)),
        ensures
            final(gpu).wf(),
            final(gpu).live() == old(gpu).live().remove(self.handle),
            !final(gpu).live().contains(self.handle),
            final(gpu).next_handle() == old(gpu).next_handle(),
    {
        gpu.release(self.handle);
    }
}

} // verus!
