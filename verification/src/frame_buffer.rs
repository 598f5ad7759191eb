//! The offscreen render target used by the selection pass: a framebuffer
//! handle with a texture color attachment and a depth renderbuffer.

use vstd::prelude::*;

use crate::gpu::Gpu;
use crate::texture::Texture;

verus! {

/// An offscreen render target: the framebuffer object, an optional color
/// renderbuffer, an optional depth renderbuffer, and an optional owned
/// texture serving as the color attachment (the selection pass renders into
/// the texture and reads pixels back from it).
pub struct Framebuffer {
    pub frame: Option<u64>,
    pub color: Option<u64>,
    pub depth: Option<u64>,
    pub texture: Option<Texture>,
}

impl Framebuffer {
    /// Every handle the framebuffer owns is live in the given ledger, and
    /// the owned handles are pairwise distinct.
    pub open spec fn live_in(self, gpu: Gpu) -> bool {
        &&& (self.frame matches Some(h) ==> gpu.live().contains(h))
        &&& (self.color matches Some(h) ==> gpu.live().contains(h))
        &&& (self.depth matches Some(h) ==> gpu.live().contains(h))
        &&& (self.texture matches Some(t) ==> t.live_in(gpu))
        &&& (self.frame matches Some(f) ==> self.depth matches Some(d) ==> f != d)
        &&& (self.frame matches Some(f) ==> self.texture matches Some(t) ==> f != t.handle)
        &&& (self.depth matches Some(d) ==> self.texture matches Some(t) ==> d != t.handle)
        &&& (self.frame matches Some(f) ==> self.color matches Some(c) ==> f != c)
        &&& (self.depth matches Some(d) ==> self.color matches Some(c) ==> d != c)
        &&& (self.color matches Some(c) ==> self.texture matches Some(t) ==> c != t.handle)
    }

    /// Releases every handle the framebuffer owns, each exactly once.
    pub fn destroy(self, gpu: &mut Gpu)
        requires
            old(gpu).wf(),
            self.live_in(*old(gpu)),
        ensures
            final(gpu).wf(),
            self.frame matches Some(h) ==> !final(gpu).live().contains(h),
            self.color matches Some(h) ==> !final(gpu).live().contains(h),
            self.depth matches Some(h) ==> !final(gpu).live().contains(h),
            self.texture matches Some(t) ==> !final(gpu).live().contains(t.handle),
            final(gpu).next_handle() == old(gpu).next_handle(),
    {
        let Framebuffer { frame, color, depth, texture } = self;
        if let Some(h) = frame {
            gpu.release(h);
        }
        if let Some(h) = color {
            gpu.release(h);
        }
        if let Some(h) = depth {
            gpu.release(h);
        }
        if let Some(t) = texture {
            t.destroy(gpu);
        }
    }
}

/// Builds the offscreen selection render target: a framebuffer object, a
/// blank texture of the canvas size as its color attachment, and a depth
/// renderbuffer of the same size. The host shell attaches the texture and
/// renderbuffer, checks framebuffer completeness (reporting but not failing
/// on an incomplete target: picking degrades, rendering continues), and
/// unbinds back to the default framebuffer.
pub fn create_select_framebuffer(gpu: &mut Gpu, width: u32, height: u32) -> (r: Framebuffer)
    requires
        old(gpu).wf(),
        old(gpu).next_handle() + 3 <= u64::MAX,
    ensures
        final(gpu).wf(),
        r.frame is Some,
        r.color is None,
        r.depth is Some,
        r.texture matches Some(t) && t.width == width && t.height == height,
        r.live_in(*final(gpu)),
        final(gpu).live() == old(gpu).live().insert(r.frame.unwrap()).insert(
            r.texture.unwrap().handle,
        ).insert(r.depth.unwrap()),
        !old(gpu).live().contains(r.frame.unwrap()),
        !old(gpu).live().contains(r.depth.unwrap()),
        !old(gpu).live().contains(r.texture.unwrap().handle),
        final(gpu).next_handle() == old(gpu).next_handle() + 3,
{
    let frame = gpu.allocate();
    let mut texture = Texture::new(gpu);
    texture.upload(None, width, height);
    let depth = gpu.allocate();
    Framebuffer { frame: Some(frame), color: None, depth: Some(depth), texture: Some(texture) }
}

} // verus!
