//! The GPU-resident vertex/index buffer pair materialized from one
//! geometry resource, together with a ghost record of the bytes each
//! buffer was created with.

use vstd::prelude::*;

verus! {

/// The bytes a buffer pair was created with: the mathematical content
/// of one registry entry.
pub struct BufferData {
    pub vertex_bytes: Seq<u8>,
    pub index_bytes: Seq<u8>,
}

/// One GPU vertex buffer and one GPU index buffer, sized and filled
/// from one geometry resource at creation and never mutated afterward.
pub struct BufferSet {
    index_buffer: wgpu::Buffer,
    vertex_buffer: wgpu::Buffer,
    data: Ghost<BufferData>,
}

impl BufferSet {
    /// The bytes the two buffers were created with.
    pub closed spec fn data(&self) -> BufferData {
        self.data@
    }

    /// The vertex buffer handle the pair holds.
    pub closed spec fn spec_vertex_buffer(&self) -> wgpu::Buffer {
        self.vertex_buffer
    }

    /// The index buffer handle the pair holds.
    pub closed spec fn spec_index_buffer(&self) -> wgpu::Buffer {
        self.index_buffer
    }

    /// Pairs two freshly created GPU buffers with the record of the
    /// bytes they were created from.
    pub fn new(index_buffer: wgpu::Buffer, vertex_buffer: wgpu::Buffer, data: Ghost<
        BufferData,
    >) -> (r: BufferSet)
        ensures
            r.data() == data@,
            r.spec_index_buffer() == index_buffer,
            r.spec_vertex_buffer() == vertex_buffer,
    {
        BufferSet { index_buffer, vertex_buffer, data }
    }

    /// The GPU vertex buffer of the pair.
    pub fn vertex_buffer(&self) -> (r: &wgpu::Buffer)
        ensures
            *r == self.spec_vertex_buffer(),
    {
        &self.vertex_buffer
    }

    /// The GPU index buffer of the pair.
    pub fn index_buffer(&self) -> (r: &wgpu::Buffer)
        ensures
            *r == self.spec_index_buffer(),
    {
        &self.index_buffer
    }
}

} // verus!
