//! GPU-side geometry: a vertex-buffer/index-buffer pair created once from a
//! `Geometry` and released exactly once.

use vstd::prelude::*;

use crate::geometry::Geometry;
use crate::gpu::Gpu;

verus! {

/// The GPU-resident counterpart of a `Geometry`: a vertex buffer handle, an
/// index buffer handle, and the number of indices to draw.
pub struct Primitive {
    pub vertex_buffer: u64,
    pub index_buffer: u64,
    pub index_count: i32,
}

/// A command for the host shell: make a primitive's vertex and index
/// buffers the current ones.
#[derive(Clone, Copy, PartialEq, Eq, Structural, Debug)]
pub struct BindBuffers {
    pub vertex_buffer: u64,
    pub index_buffer: u64,
}

/// A command for the host shell: issue an indexed triangle-list draw call
/// of `index_count` 8-bit indices.
#[derive(Clone, Copy, PartialEq, Eq, Structural, Debug)]
pub struct DrawCall {
    pub index_count: i32,
}

impl Primitive {
    /// Both buffer handles are live in the given ledger, and are distinct.
    pub open spec fn live_in(self, gpu: Gpu) -> bool {
        &&& gpu.live().contains(self.vertex_buffer)
        &&& gpu.live().contains(self.index_buffer)
        &&& self.vertex_buffer != self.index_buffer
    }

    /// Creates the GPU buffers for raw vertex and index lists: allocates a
    /// fresh handle for each and records the index count. The host shell
    /// uploads the byte representation of `vertices` (whose layout must
    /// match the consuming pipeline's attribute offsets) as a static vertex
    /// buffer, and `indices` as a static index buffer.
    pub fn from_raw<T>(gpu: &mut Gpu, vertices: &Vec<T>, indices: &Vec<u8>) -> (r: Primitive)
        requires
            old(gpu).wf(),
            old(gpu).next_handle() + 2 <= u64::MAX,
            indices@.len() <= i32::MAX,
        ensures
            final(gpu).wf(),
            r.index_count == indices@.len(),
            r.live_in(*final(gpu)),
            !old(gpu).live().contains(r.vertex_buffer),
            !old(gpu).live().contains(r.index_buffer),
            final(gpu).live() == old(gpu).live().insert(r.vertex_buffer).insert(r.index_buffer),
            final(gpu).next_handle() == old(gpu).next_handle() + 2,
    {
        let vertex_buffer = gpu.allocate();
        let index_buffer = gpu.allocate();
        Primitive { vertex_buffer, index_buffer, index_count: indices.len() as i32 }
    }

    /// Creates the GPU buffers for a geometry.
    pub fn new<V>(gpu: &mut Gpu, geometry: &Geometry<V>) -> (r: Primitive)
        requires
            old(gpu).wf(),
            old(gpu).next_handle() + 2 <= u64::MAX,
            geometry.indices@.len() <= i32::MAX,
        ensures
            final(gpu).wf(),
            r.index_count == geometry.indices@.len(),
            r.live_in(*final(gpu)),
            !old(gpu).live().contains(r.vertex_buffer),
            !old(gpu).live().contains(r.index_buffer),
            final(gpu).live() == old(gpu).live().insert(r.vertex_buffer).insert(r.index_buffer),
            final(gpu).next_handle() == old(gpu).next_handle() + 2,
    {
        Self::from_raw(gpu, &geometry.vertices, &geometry.indices)
    }

    /// The command that makes this primitive's buffers current. Requires
    /// the buffers to still be live: no draw may reference a released
    /// handle.
    pub fn bind(&self, gpu: &Gpu) -> (c: BindBuffers)
        requires
            self.live_in(*gpu),
        ensures
            c == (BindBuffers { vertex_buffer: self.vertex_buffer, index_buffer: self.index_buffer }),
    {
        BindBuffers { vertex_buffer: self.vertex_buffer, index_buffer: self.index_buffer }
    }

    /// The command that draws this primitive: an indexed triangle-list draw
    /// of all its indices. Requires the buffers to still be live.
    pub fn draw(&self, gpu: &Gpu) -> (c: DrawCall)
        requires
            self.live_in(*gpu),
        ensures
            c == (DrawCall { index_count: self.index_count }),
    {
        DrawCall { index_count: self.index_count }
    }

    /// Releases both GPU buffers, exactly once: afterwards neither handle
    /// is live, so no later bind or draw can reference them.
    pub fn destroy(self, gpu: &mut Gpu)
        requires
            old(gpu).wf(),
            self.live_in(*old(gpu)),
        ensures
            final(gpu).wf(),
            final(gpu).live() == old(gpu).live().remove(self.vertex_buffer).remove(
                self.index_buffer,
            ),
            !final(gpu).live().contains(self.vertex_buffer),
            !final(gpu).live().contains(self.index_buffer),
            final(gpu).next_handle() == old(gpu).next_handle(),
    {
        gpu.release(self.vertex_buffer);
        gpu.release(self.index_buffer);
    }
}

} // verus!
