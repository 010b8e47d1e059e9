//! Vertex array objects as owned, explicitly destroyed resources.
//!
//! The backend creates the GL vertex array and its four backing buffers
//! (position, normal, texture coordinate, index) and registers the handles
//! here. The wrapper enforces the ownership discipline: the object is
//! destroyed exactly once, and destruction hands every backing handle back
//! to the backend for deletion, so nothing leaks silently.

use vstd::prelude::*;

use crate::components::Mesh;

verus! {

/// An owned vertex array: the VAO handle, its index count, and the backing
/// buffer handles it must release on destruction.
#[derive(Debug)]
pub struct VertexArrayObject {
    vao_id: u32,
    indices_len: usize,
    buffers: Vec<u32>,
    destroyed: bool,
}

impl VertexArrayObject {
    /// The GL vertex array handle.
    pub closed spec fn spec_vao_id(&self) -> u32 {
        self.vao_id
    }

    /// Number of indices in the element buffer.
    pub closed spec fn spec_indices_len(&self) -> usize {
        self.indices_len
    }

    /// The backing buffer handles.
    pub closed spec fn spec_buffers(&self) -> Seq<u32> {
        self.buffers@
    }

    /// The GL vertex array handle.
    pub fn vao_id(&self) -> (r: u32)
        ensures
            r == self.spec_vao_id(),
    {
        self.vao_id
    }

    /// Number of indices in the element buffer.
    pub fn indices_len(&self) -> (r: usize)
        ensures
            r == self.spec_indices_len(),
    {
        self.indices_len
    }

    /// Whether the vertex array has been destroyed.
    pub closed spec fn is_destroyed(&self) -> bool {
        self.destroyed
    }

    /// Register a vertex array the backend has created, together with the
    /// buffer handles backing it.
    pub fn new(vao_id: u32, indices_len: usize, buffers: Vec<u32>) -> (v: Self)
        ensures
            v.spec_vao_id() == vao_id,
            v.spec_indices_len() == indices_len,
            v.spec_buffers() == buffers@,
            !v.is_destroyed(),
    {
        Self { vao_id, indices_len, buffers, destroyed: false }
    }

    /// Give up the vertex array: returns every handle the backend must
    /// delete, the backing buffers first and the vertex array last. May be
    /// called only once.
    pub fn destroy(&mut self) -> (handles: Vec<u32>)
        requires
            !old(self).is_destroyed(),
        ensures
            final(self).is_destroyed(),
            final(self).spec_vao_id() == old(self).spec_vao_id(),
            final(self).spec_indices_len() == old(self).spec_indices_len(),
            final(self).spec_buffers() == old(self).spec_buffers(),
            handles@ == old(self).spec_buffers().push(old(self).spec_vao_id()),
    {
        self.destroyed = true;
        let mut handles = Vec::new();
        let n = self.buffers.len();
        let mut k: usize = 0;
        while k < n
            invariant
                n == self.buffers@.len(),
                k <= n,
                handles@ == self.buffers@.take(k as int),
            decreases n - k,
        {
            handles.push(self.buffers[k]);
            proof {
                assert(handles@ =~= self.buffers@.take(k as int + 1));
            }
            k += 1;
        }
        proof {
            assert(self.buffers@.take(n as int) =~= self.buffers@);
        }
        handles.push(self.vao_id);
        handles
    }

    /// The mesh component describing this vertex array, as entities carry
    /// it. The entity shares the handle; ownership stays here.
    pub fn mesh(&self) -> (m: Mesh)
        requires
            !self.is_destroyed(),
        ensures
            m == (Mesh { vao_id: self.spec_vao_id(), indices_len: self.spec_indices_len() }),
    {
        Mesh { vao_id: self.vao_id, indices_len: self.indices_len }
    }
}

} // verus!
