use vstd::prelude::*;

use crate::mesh::Mesh;

verus! {

/// A handle to a mesh held by a [`MeshAssets`] store. Handles are issued
/// in registration order and are never reused.
#[derive(Clone, Copy, Debug, PartialEq, Eq, Structural)]
pub struct MeshHandle {
    pub id: usize,
}

/// A mesh asset store: meshes in registration order, each addressed by
/// the handle returned when it was added. The store deduplicates
/// nothing — every registration keeps its own entry.
pub struct MeshAssets {
    pub meshes: Vec<Mesh>,
}

/// `post` is `pre` with `m` registered under the fresh handle `h`: the
/// stored meshes are extended by `m` alone, and `h` addresses the new
/// entry.
pub open spec fn adds_mesh(pre: MeshAssets, post: MeshAssets, m: Mesh, h: MeshHandle) -> bool {
    &&& post.meshes@ == pre.meshes@.push(m)
    &&& h.id == pre.meshes@.len()
}

impl MeshAssets {
    /// An empty store.
    pub fn new() -> (r: MeshAssets)
        ensures
            r.meshes@ == Seq::<Mesh>::empty(),
    {
        MeshAssets { meshes: Vec::new() }
    }

    /// Registers a mesh and returns a fresh handle to it.
    pub fn add(&mut self, mesh: Mesh) -> (h: MeshHandle)
        ensures
            adds_mesh(*old(self), *final(self), mesh, h),
    {
        let id = self.meshes.len();
        self.meshes.push(mesh);
        MeshHandle { id }
    }
}

/// Two registrations in sequence always return distinct handles, whatever
/// the meshes hold: the store neither caches nor deduplicates.
pub proof fn lemma_added_handles_distinct(
    pre: MeshAssets,
    mid: MeshAssets,
    post: MeshAssets,
    m1: Mesh,
    m2: Mesh,
    h1: MeshHandle,
    h2: MeshHandle,
)
    requires
        adds_mesh(pre, mid, m1, h1),
        adds_mesh(mid, post, m2, h2),
    ensures
        h1 != h2,
{
    assert(mid.meshes@.len() == pre.meshes@.len() + 1);
}

} // verus!
